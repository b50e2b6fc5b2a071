use vstd::prelude::*;

verus! {

/// A note's letter name.
#[derive(Clone, Copy, Debug, PartialEq, Eq, Structural, PartialOrd, Ord, Hash)]
pub enum Letter {
    C,
    D,
    E,
    F,
    G,
    A,
    B,
}

/// A scale degree, counted from the root of a major scale.
#[derive(Clone, Copy, Debug, PartialEq, Eq, Structural, PartialOrd, Ord, Hash)]
pub enum Degree {
    One,
    Two,
    Three,
    Four,
    Five,
    Six,
    Seven,
}

impl Letter {
    /// Position of the letter in C, D, E, F, G, A, B.
    pub open spec fn index(self) -> int {
        match self {
            Letter::C => 0,
            Letter::D => 1,
            Letter::E => 2,
            Letter::F => 3,
            Letter::G => 4,
            Letter::A => 5,
            Letter::B => 6,
        }
    }

    /// The letter at position `i` of C, D, E, F, G, A, B, counting on past B.
    pub open spec fn at(i: int) -> Letter {
        let k = i % 7;
        if k == 0 {
            Letter::C
        } else if k == 1 {
            Letter::D
        } else if k == 2 {
            Letter::E
        } else if k == 3 {
            Letter::F
        } else if k == 4 {
            Letter::G
        } else if k == 5 {
            Letter::A
        } else {
            Letter::B
        }
    }

    /// Semitones from C up to the natural note of this letter.
    pub open spec fn natural_pitch(self) -> int {
        match self {
            Letter::C => 0,
            Letter::D => 2,
            Letter::E => 4,
            Letter::F => 5,
            Letter::G => 7,
            Letter::A => 9,
            Letter::B => 11,
        }
    }

    /// How the letter is written.
    pub open spec fn text(self) -> Seq<char> {
        match self {
            Letter::C => "C"@,
            Letter::D => "D"@,
            Letter::E => "E"@,
            Letter::F => "F"@,
            Letter::G => "G"@,
            Letter::A => "A"@,
            Letter::B => "B"@,
        }
    }

    pub fn label(&self) -> (r: &'static str)
        ensures
            r@ == self.text(),
    {
        match self {
            Letter::C => "C",
            Letter::D => "D",
            Letter::E => "E",
            Letter::F => "F",
            Letter::G => "G",
            Letter::A => "A",
            Letter::B => "B",
        }
    }
}

impl Degree {
    /// Zero-based position of the degree: `One` is 0.
    pub open spec fn index(self) -> int {
        match self {
            Degree::One => 0,
            Degree::Two => 1,
            Degree::Three => 2,
            Degree::Four => 3,
            Degree::Five => 4,
            Degree::Six => 5,
            Degree::Seven => 6,
        }
    }

    /// Semitones from the root of a major scale up to this degree.
    pub open spec fn major_interval(self) -> int {
        match self {
            Degree::One => 0,
            Degree::Two => 2,
            Degree::Three => 4,
            Degree::Four => 5,
            Degree::Five => 7,
            Degree::Six => 9,
            Degree::Seven => 11,
        }
    }

    /// How the degree is written: its number.
    pub open spec fn text(self) -> Seq<char> {
        match self {
            Degree::One => "1"@,
            Degree::Two => "2"@,
            Degree::Three => "3"@,
            Degree::Four => "4"@,
            Degree::Five => "5"@,
            Degree::Six => "6"@,
            Degree::Seven => "7"@,
        }
    }

    pub fn label(&self) -> (r: &'static str)
        ensures
            r@ == self.text(),
    {
        match self {
            Degree::One => "1",
            Degree::Two => "2",
            Degree::Three => "3",
            Degree::Four => "4",
            Degree::Five => "5",
            Degree::Six => "6",
            Degree::Seven => "7",
        }
    }
}

/// The letter that a degree reaches from a root letter: the letters are
/// counted on from the root, wrapping from B to C.
pub open spec fn target_letter(root: Letter, degree: Degree) -> Letter {
    Letter::at(root.index() + degree.index())
}

/// The semitones, -1, 0 or 1, by which the target letter's natural note must
/// be raised so that it lies the degree's major-scale interval above the
/// root letter's natural note.
pub open spec fn table_shift(root: Letter, degree: Degree) -> int {
    let diff = (root.natural_pitch() + degree.major_interval() - target_letter(
        root,
        degree,
    ).natural_pitch()) % 12;
    if diff > 6 {
        diff - 12
    } else {
        diff
    }
}

/// Looks up the letter that `degree` reaches from `root`, and the shift of
/// the root's accidental that keeps the interval a major-scale one.
pub fn interval_step(root: Letter, degree: Degree) -> (r: (Letter, i8))
    ensures
        r.0 == target_letter(root, degree),
        r.1 as int == table_shift(root, degree),
        -1 <= r.1 <= 1,
{
    match root {
        Letter::C => match degree {
            Degree::One => (Letter::C, 0),
            Degree::Two => (Letter::D, 0),
            Degree::Three => (Letter::E, 0),
            Degree::Four => (Letter::F, 0),
            Degree::Five => (Letter::G, 0),
            Degree::Six => (Letter::A, 0),
            Degree::Seven => (Letter::B, 0),
        },
        Letter::D => match degree {
            Degree::One => (Letter::D, 0),
            Degree::Two => (Letter::E, 0),
            Degree::Three => (Letter::F, 1),
            Degree::Four => (Letter::G, 0),
            Degree::Five => (Letter::A, 0),
            Degree::Six => (Letter::B, 0),
            Degree::Seven => (Letter::C, 1),
        },
        Letter::E => match degree {
            Degree::One => (Letter::E, 0),
            Degree::Two => (Letter::F, 1),
            Degree::Three => (Letter::G, 1),
            Degree::Four => (Letter::A, 0),
            Degree::Five => (Letter::B, 0),
            Degree::Six => (Letter::C, 1),
            Degree::Seven => (Letter::D, 1),
        },
        Letter::F => match degree {
            Degree::One => (Letter::F, 0),
            Degree::Two => (Letter::G, 0),
            Degree::Three => (Letter::A, 0),
            Degree::Four => (Letter::B, -1),
            Degree::Five => (Letter::C, 0),
            Degree::Six => (Letter::D, 0),
            Degree::Seven => (Letter::E, 0),
        },
        Letter::G => match degree {
            Degree::One => (Letter::G, 0),
            Degree::Two => (Letter::A, 0),
            Degree::Three => (Letter::B, 0),
            Degree::Four => (Letter::C, 0),
            Degree::Five => (Letter::D, 0),
            Degree::Six => (Letter::E, 0),
            Degree::Seven => (Letter::F, 1),
        },
        Letter::A => match degree {
            Degree::One => (Letter::A, 0),
            Degree::Two => (Letter::B, 0),
            Degree::Three => (Letter::C, 1),
            Degree::Four => (Letter::D, 0),
            Degree::Five => (Letter::E, 0),
            Degree::Six => (Letter::F, 1),
            Degree::Seven => (Letter::G, 1),
        },
        Letter::B => match degree {
            Degree::One => (Letter::B, 0),
            Degree::Two => (Letter::C, 1),
            Degree::Three => (Letter::D, 1),
            Degree::Four => (Letter::E, 0),
            Degree::Five => (Letter::F, 1),
            Degree::Six => (Letter::G, 1),
            Degree::Seven => (Letter::A, 1),
        },
    }
}

} // verus!
