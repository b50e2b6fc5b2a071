use vstd::prelude::*;

use crate::random::random_at_most;

verus! {

/// A register, from octave -1 up to octave 9.
#[derive(Clone, Copy, Debug, PartialEq, Eq, Structural, PartialOrd, Ord, Hash)]
pub enum Octave {
    MinusOne,
    Zero,
    One,
    Two,
    Three,
    Four,
    Five,
    Six,
    Seven,
    Eight,
    Nine,
}

impl Octave {
    /// The octave's number, -1 to 9.
    pub open spec fn number(self) -> int {
        match self {
            Octave::MinusOne => -1,
            Octave::Zero => 0,
            Octave::One => 1,
            Octave::Two => 2,
            Octave::Three => 3,
            Octave::Four => 4,
            Octave::Five => 5,
            Octave::Six => 6,
            Octave::Seven => 7,
            Octave::Eight => 8,
            Octave::Nine => 9,
        }
    }

    /// The octave's number written in decimal.
    pub open spec fn text(self) -> Seq<char> {
        match self {
            Octave::MinusOne => "-1"@,
            Octave::Zero => "0"@,
            Octave::One => "1"@,
            Octave::Two => "2"@,
            Octave::Three => "3"@,
            Octave::Four => "4"@,
            Octave::Five => "5"@,
            Octave::Six => "6"@,
            Octave::Seven => "7"@,
            Octave::Eight => "8"@,
            Octave::Nine => "9"@,
        }
    }

    pub fn label(&self) -> (r: &'static str)
        ensures
            r@ == self.text(),
    {
        match self {
            Octave::MinusOne => "-1",
            Octave::Zero => "0",
            Octave::One => "1",
            Octave::Two => "2",
            Octave::Three => "3",
            Octave::Four => "4",
            Octave::Five => "5",
            Octave::Six => "6",
            Octave::Seven => "7",
            Octave::Eight => "8",
            Octave::Nine => "9",
        }
    }

    /// The octave for a draw `i` from 0 to 10, counted up from octave -1;
    /// any larger draw gives octave 9.
    pub fn from_sample(i: u8) -> (r: Octave)
        ensures
            i <= 10 ==> r.number() == i - 1,
            i > 10 ==> r == Octave::Nine,
    {
        match i {
            0 => Octave::MinusOne,
            1 => Octave::Zero,
            2 => Octave::One,
            3 => Octave::Two,
            4 => Octave::Three,
            5 => Octave::Four,
            6 => Octave::Five,
            7 => Octave::Six,
            8 => Octave::Seven,
            9 => Octave::Eight,
            _ => Octave::Nine,
        }
    }

    /// An octave drawn uniformly at random.
    pub fn random() -> Octave {
        Octave::from_sample(random_at_most(10))
    }
}

impl Default for Octave {
    fn default() -> (r: Octave)
        ensures
            r == Octave::Four,
    {
        Octave::Four
    }
}

} // verus!
