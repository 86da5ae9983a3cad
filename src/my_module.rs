use vstd::prelude::*;

verus! {

/// The message of the module's public function.
pub open spec fn public_message() -> Seq<char> {
    "접근 가능한 함수"@
}

/// The line that says the function was reached from outside its module.
pub fn public_function() -> (r: String)
    ensures
        r@ == public_message(),
{
    String::from_str("접근 가능한 함수")
}

} // verus!
