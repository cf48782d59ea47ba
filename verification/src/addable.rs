use vstd::prelude::*;
use crate::text::{append_decimal, decimal, i64_text, signed_decimal};

verus! {

/// Something that can describe itself in one line.
pub trait Addable {
    /// The line that describes the value.
    fn add(&self) -> String;
}

/// An amount and a name.
pub struct AStruct {
    pub amount: u32,
    pub name: String,
}

/// Two numbers.
pub struct CStruct {
    pub num1: i32,
    pub num2: u32,
}

impl Addable for AStruct {
    /// `amount ~ name`.
    fn add(&self) -> (r: String)
        ensures
            r@ == decimal(self.amount as nat) + " ~ "@ + self.name@,
    {
        let mut s = String::new();
        append_decimal(&mut s, self.amount as u64);
        s.append(" ~ ");
        s.append(self.name.as_str());
        s
    }
}

impl Addable for CStruct {
    /// `num1 @ num2`.
    fn add(&self) -> (r: String)
        ensures
            r@ == signed_decimal(self.num1 as int) + " @ "@ + decimal(self.num2 as nat),
    {
        let mut s = i64_text(self.num1 as i64);
        s.append(" @ ");
        append_decimal(&mut s, self.num2 as u64);
        s
    }
}

} // verus!
