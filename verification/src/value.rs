//! Decoded physical quantities, and the text of those that are whole
//! numbers.

use vstd::prelude::*;
use vstd::string::StringExecFns;

verus! {

/// A decoded quantity: either a whole number, or an exact fraction whose
/// quotient is the quantity.
#[derive(Clone, Copy, Debug, PartialEq, Eq, Structural)]
pub enum PhysicalValue {
    Integer(i64),
    Ratio { numerator: i64, denominator: i64 },
}

/// The text of one decimal digit.
pub open spec fn digit_text(digit: nat) -> Seq<char> {
    if digit == 0 {
        "0"@
    } else if digit == 1 {
        "1"@
    } else if digit == 2 {
        "2"@
    } else if digit == 3 {
        "3"@
    } else if digit == 4 {
        "4"@
    } else if digit == 5 {
        "5"@
    } else if digit == 6 {
        "6"@
    } else if digit == 7 {
        "7"@
    } else if digit == 8 {
        "8"@
    } else {
        "9"@
    }
}

/// The decimal digits of a number that is not negative, the most
/// significant first and without leading zeros.
pub open spec fn digits(n: nat) -> Seq<char>
    decreases n,
{
    if n < 10 {
        digit_text(n)
    } else {
        digits(n / 10) + digit_text(n % 10)
    }
}

/// A whole number in decimal: its digits, after a minus sign when it is
/// negative.
pub open spec fn decimal(n: int) -> Seq<char> {
    if n < 0 {
        "-"@ + digits((-n) as nat)
    } else {
        digits(n as nat)
    }
}

/// Each digit is written as the one character that stands for it.
pub proof fn lemma_digit_text(digit: nat)
    requires
        digit < 10,
    ensures
        digit_text(digit) == seq![(('0' as u8) + digit) as char],
{
    reveal_strlit("0");
    reveal_strlit("1");
    reveal_strlit("2");
    reveal_strlit("3");
    reveal_strlit("4");
    reveal_strlit("5");
    reveal_strlit("6");
    reveal_strlit("7");
    reveal_strlit("8");
    reveal_strlit("9");
    assert(digit_text(digit) =~= seq![(('0' as u8) + digit) as char]);
}

fn digit_str(digit: u64) -> (text: &'static str)
    requires
        digit < 10,
    ensures
        text@ == digit_text(digit as nat),
{
    if digit == 0 {
        "0"
    } else if digit == 1 {
        "1"
    } else if digit == 2 {
        "2"
    } else if digit == 3 {
        "3"
    } else if digit == 4 {
        "4"
    } else if digit == 5 {
        "5"
    } else if digit == 6 {
        "6"
    } else if digit == 7 {
        "7"
    } else if digit == 8 {
        "8"
    } else {
        "9"
    }
}

fn digits_of(n: u64) -> (text: String)
    ensures
        text@ == digits(n as nat),
    decreases n,
{
    if n < 10 {
        String::from_str(digit_str(n))
    } else {
        digits_of(n / 10).concat(digit_str(n % 10))
    }
}

/// Writes a whole number in decimal.
pub fn decimal_text(n: i64) -> (text: String)
    ensures
        text@ == decimal(n as int),
{
    if n < 0 {
        let magnitude: u64 = (-(n + 1)) as u64 + 1;
        String::from_str("-").concat(digits_of(magnitude).as_str())
    } else {
        digits_of(n as u64)
    }
}

impl PhysicalValue {
    /// A fraction has a positive denominator.
    pub open spec fn wf(self) -> bool {
        match self {
            PhysicalValue::Integer(_) => true,
            PhysicalValue::Ratio { denominator, .. } => denominator > 0,
        }
    }

    /// The value every quantity has before anything was decoded into it.
    pub fn zero() -> (value: PhysicalValue)
        ensures
            value == PhysicalValue::Integer(0),
    {
        PhysicalValue::Integer(0)
    }

    /// The text of a whole number; a fraction has none here, for how many
    /// of its decimals are written is for the one who writes it to say.
    pub open spec fn whole_text(self) -> Option<Seq<char>> {
        match self {
            PhysicalValue::Integer(n) => Some(decimal(n as int)),
            PhysicalValue::Ratio { .. } => None,
        }
    }

    /// The text in which a whole number is forwarded, or nothing for a
    /// fraction.
    pub fn text(&self) -> (text: Option<String>)
        ensures
            text is Some <==> self.whole_text() is Some,
            text matches Some(t) ==> t@ == self.whole_text()->0,
    {
        match self {
            PhysicalValue::Integer(n) => Some(decimal_text(*n)),
            PhysicalValue::Ratio { .. } => None,
        }
    }
}

} // verus!
