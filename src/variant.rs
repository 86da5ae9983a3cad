use vstd::prelude::*;

verus! {

/// One of three alternatives: a bare marker, one carrying an integer, and
/// one carrying a named text.
pub enum EnumName {
    Variant1,
    Variant2(i32),
    Variant3 { field: String },
}

} // verus!
