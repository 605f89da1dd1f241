//! The decoded payload of a catalog resource.
//!
//! The catalog's payload schema is open-ended; the client reads payloads as
//! records of string-valued fields (an identifier, a name, and whatever else
//! the server sends), looked up by field name.

use vstd::prelude::*;

use crate::kv::{assoc_lookup, assoc_get};

verus! {

/// A decoded resource payload: its fields, in wire order.
pub struct Record {
    pub fields: Vec<(String, String)>,
}

impl View for Record {
    type V = Seq<(Seq<char>, Seq<char>)>;

    open spec fn view(&self) -> Self::V {
        self.fields.deep_view()
    }
}

impl DeepView for Record {
    type V = Seq<(Seq<char>, Seq<char>)>;

    open spec fn deep_view(&self) -> Self::V {
        self.view()
    }
}

impl Record {
    /// The value of the first field called `name`, if the payload has one.
    pub fn field(&self, name: &str) -> (r: Option<&String>)
        ensures
            r.deep_view() == assoc_lookup(self@, name@),
    {
        assoc_get(&self.fields, name)
    }
}

} // verus!
