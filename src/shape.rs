use vstd::prelude::*;

use crate::decimal::{decimal, push_i32};

verus! {

/// Something that can be drawn as one line of text.
pub trait Drawable {
    /// The line that `draw` gives.
    spec fn drawing(&self) -> Seq<char>;

    fn draw(&self) -> (r: String)
        ensures
            r@ == self.drawing(),
    ;
}

/// A circle of a whole-number radius.
pub struct Circle {
    pub radius: i32,
}

impl Drawable for Circle {
    open spec fn drawing(&self) -> Seq<char> {
        "Circle with radius "@ + decimal(self.radius as int)
    }

    fn draw(&self) -> (r: String) {
        let mut r = String::from_str("Circle with radius ");
        push_i32(&mut r, self.radius);
        r
    }
}

/// Draws every item, in order.
pub fn draw_all<D: Drawable>(items: &Vec<D>) -> (r: Vec<String>)
    ensures
        r@.len() == items@.len(),
        forall|i: int| 0 <= i < items@.len() ==> #[trigger] r@[i]@ == items@[i].drawing(),
{
    let mut r: Vec<String> = Vec::new();
    let mut k: usize = 0;
    while k < items.len()
        invariant
            k <= items@.len(),
            r@.len() == k,
            forall|i: int| 0 <= i < k ==> #[trigger] r@[i]@ == items@[i].drawing(),
        decreases items@.len() - k,
    {
        r.push(items[k].draw());
        k += 1;
    }
    r
}

} // verus!
