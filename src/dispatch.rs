use vstd::prelude::*;

verus! {

/// The word that `match_example` gives for `value`.
pub open spec fn word_for(value: int) -> Seq<char> {
    if value == 1 {
        "하나"@
    } else if value == 2 {
        "둘"@
    } else {
        "기타"@
    }
}

/// Names `value` in words: one and two have their own word, every other
/// value the word for "other".
pub fn match_example(value: i32) -> (r: String)
    ensures
        r@ == word_for(value as int),
{
    match value {
        1 => String::from_str("하나"),
        2 => String::from_str("둘"),
        _ => String::from_str("기타"),
    }
}

} // verus!
