use vstd::prelude::*;

use crate::decimal::{decimal, push_i32};

verus! {

/// A small record that is copied rather than moved.
#[derive(Debug, Clone, Copy)]
pub struct MyStruct {
    pub field: i32,
}

impl MyStruct {
    /// The text that `{:?}` gives for `self`.
    pub open spec fn debug_text(&self) -> Seq<char> {
        "MyStruct { field: "@ + decimal(self.field as int) + " }"@
    }

    /// The debug form of `self`: `MyStruct { field: 100 }`.
    pub fn debug_string(&self) -> (r: String)
        ensures
            r@ == self.debug_text(),
    {
        let mut r = String::from_str("MyStruct { field: ");
        push_i32(&mut r, self.field);
        r.append(" }");
        r
    }
}

} // verus!
