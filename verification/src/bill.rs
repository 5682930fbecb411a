//! A single bill: a name and an amount.

use vstd::prelude::*;

verus! {

/// What a bill is, mathematically: the characters of its name and its amount.
pub struct BillView {
    pub name: Seq<char>,
    pub amount: u64,
}

/// Whether a 64-bit pattern is that of a finite double-precision number:
/// its eleven exponent bits are not all ones. The patterns left out are the
/// two infinities and the values that are no numbers.
pub open spec fn is_finite_amount(bits: u64) -> bool {
    (bits >> 52) & 0x7ff != 0x7ff
}

/// Tells whether a 64-bit pattern is that of a finite number.
pub fn is_finite(bits: u64) -> (finite: bool)
    ensures
        finite == is_finite_amount(bits),
{
    (bits >> 52) & 0x7ff != 0x7ff
}

/// A named amount of money.
///
/// The amount is carried as the 64-bit pattern of a double-precision number.
/// A bill stores and returns that pattern as it is given. Which patterns
/// count as amounts is settled where an answer is read: a session takes
/// finite numbers only, of any sign and size.
#[derive(Debug, PartialEq, Eq)]
pub struct Bill {
    name: String,
    amount: u64,
}

impl View for Bill {
    type V = BillView;

    closed spec fn view(&self) -> BillView {
        BillView { name: self.name@, amount: self.amount }
    }
}

impl Bill {
    /// A bill with the given name and amount.
    pub fn new(name: String, amount: u64) -> (bill: Bill)
        ensures
            bill@ == (BillView { name: name@, amount }),
    {
        Bill { name, amount }
    }

    /// The bill's name.
    pub fn name(&self) -> (name: &str)
        ensures
            name@ == self@.name,
    {
        self.name.as_str()
    }

    /// The bill's amount, as the bit pattern it was given as.
    pub fn amount(&self) -> (amount: u64)
        ensures
            amount == self@.amount,
    {
        self.amount
    }

    /// Replaces the amount and leaves the name as it is.
    pub fn set_amount(&mut self, amount: u64)
        ensures
            final(self)@ == (BillView { name: old(self)@.name, amount }),
    {
        self.amount = amount;
    }
}

impl Clone for Bill {
    fn clone(&self) -> (copy: Bill)
        ensures
            copy@ == self@,
    {
        Bill { name: self.name.clone(), amount: self.amount }
    }
}

} // verus!
