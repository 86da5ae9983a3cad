use vstd::prelude::*;

use crate::decimal::{decimal, push_i32};

verus! {

/// A record of an integer and a text.
pub struct StructName {
    pub field1: i32,
    pub field2: String,
}

/// Something that can describe itself in one line of text.
pub trait TraitName {
    /// The text that `method_name` returns.
    spec fn method_text(&self) -> Seq<char>;

    fn method_name(&self) -> (r: String)
        ensures
            r@ == self.method_text(),
    ;
}

impl TraitName for StructName {
    open spec fn method_text(&self) -> Seq<char> {
        "field1: "@ + decimal(self.field1 as int) + ", field2: "@ + self.field2@
    }

    /// Both fields, each after its name: `field1: 10, field2: Hello`.
    fn method_name(&self) -> (r: String) {
        let mut r = String::from_str("field1: ");
        push_i32(&mut r, self.field1);
        r.append(", field2: ");
        r.append(self.field2.as_str());
        r
    }
}

} // verus!
