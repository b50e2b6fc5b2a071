use vstd::prelude::*;

use crate::error::NoteError;
use crate::random::random_at_most;

verus! {

/// An accidental, ordered from double flat to double sharp.
#[derive(Clone, Copy, Debug, PartialEq, Eq, Structural, PartialOrd, Ord, Hash)]
pub enum Modifier {
    DoubleFlat,
    Flat,
    Natural,
    Sharp,
    DoubleSharp,
}

impl Modifier {
    /// The accidental as a number of semitones away from the natural note.
    pub open spec fn offset(self) -> int {
        match self {
            Modifier::DoubleFlat => -2,
            Modifier::Flat => -1,
            Modifier::Natural => 0,
            Modifier::Sharp => 1,
            Modifier::DoubleSharp => 2,
        }
    }

    /// The accidental that lies `k` semitones away from the natural note.
    pub open spec fn from_offset(k: int) -> Modifier
        recommends
            -2 <= k <= 2,
    {
        if k <= -2 {
            Modifier::DoubleFlat
        } else if k == -1 {
            Modifier::Flat
        } else if k == 0 {
            Modifier::Natural
        } else if k == 1 {
            Modifier::Sharp
        } else {
            Modifier::DoubleSharp
        }
    }

    /// One step toward double sharp; there is none past double sharp.
    pub open spec fn spec_sharpen(self) -> Result<Modifier, NoteError> {
        if self == Modifier::DoubleSharp {
            Err(NoteError::CannotSharpen(self))
        } else {
            Ok(Modifier::from_offset(self.offset() + 1))
        }
    }

    /// One step toward double flat; there is none past double flat.
    pub open spec fn spec_flatten(self) -> Result<Modifier, NoteError> {
        if self == Modifier::DoubleFlat {
            Err(NoteError::CannotFlatten(self))
        } else {
            Ok(Modifier::from_offset(self.offset() - 1))
        }
    }

    /// Whether the accidental is one of the two doubles.
    pub open spec fn is_double(self) -> bool {
        self == Modifier::DoubleFlat || self == Modifier::DoubleSharp
    }

    /// The accidental one step sharper; fails on double sharp.
    pub fn try_sharpen(self) -> (r: Result<Modifier, NoteError>)
        ensures
            r == self.spec_sharpen(),
            r is Err <==> self == Modifier::DoubleSharp,
    {
        match self {
            Modifier::DoubleFlat => Ok(Modifier::Flat),
            Modifier::Flat => Ok(Modifier::Natural),
            Modifier::Natural => Ok(Modifier::Sharp),
            Modifier::Sharp => Ok(Modifier::DoubleSharp),
            Modifier::DoubleSharp => Err(NoteError::CannotSharpen(self)),
        }
    }

    /// The accidental one step flatter; fails on double flat.
    pub fn try_flatten(self) -> (r: Result<Modifier, NoteError>)
        ensures
            r == self.spec_flatten(),
            r is Err <==> self == Modifier::DoubleFlat,
    {
        match self {
            Modifier::DoubleFlat => Err(NoteError::CannotFlatten(self)),
            Modifier::Flat => Ok(Modifier::DoubleFlat),
            Modifier::Natural => Ok(Modifier::Flat),
            Modifier::Sharp => Ok(Modifier::Natural),
            Modifier::DoubleSharp => Ok(Modifier::Sharp),
        }
    }

    /// How the accidental is written: its name, or nothing for a natural.
    pub open spec fn text(self) -> Seq<char> {
        match self {
            Modifier::DoubleFlat => "Double Flat"@,
            Modifier::Flat => "Flat"@,
            Modifier::Natural => ""@,
            Modifier::Sharp => "Sharp"@,
            Modifier::DoubleSharp => "Double Sharp"@,
        }
    }

    pub fn label(&self) -> (r: &'static str)
        ensures
            r@ == self.text(),
    {
        match self {
            Modifier::DoubleFlat => "Double Flat",
            Modifier::Flat => "Flat",
            Modifier::Natural => "",
            Modifier::Sharp => "Sharp",
            Modifier::DoubleSharp => "Double Sharp",
        }
    }

    /// The accidental for a draw `i` from 0 to 4, counted up from double
    /// flat; any larger draw gives double sharp.
    pub fn from_sample(i: u8) -> (r: Modifier)
        ensures
            i <= 4 ==> r.offset() == i - 2,
            i > 4 ==> r == Modifier::DoubleSharp,
    {
        match i {
            0 => Modifier::DoubleFlat,
            1 => Modifier::Flat,
            2 => Modifier::Natural,
            3 => Modifier::Sharp,
            _ => Modifier::DoubleSharp,
        }
    }

    /// An accidental drawn uniformly at random.
    pub fn random() -> Modifier {
        Modifier::from_sample(random_at_most(4))
    }
}

impl Default for Modifier {
    fn default() -> (r: Modifier)
        ensures
            r == Modifier::Natural,
    {
        Modifier::Natural
    }
}

/// Sharpening and then flattening gives back every accidental below double sharp.
pub proof fn lemma_flatten_undoes_sharpen(m: Modifier)
    requires
        m != Modifier::DoubleSharp,
    ensures
        m.spec_sharpen() is Ok,
        m.spec_sharpen()->Ok_0.spec_flatten() == Ok::<Modifier, NoteError>(m),
{
}

/// Flattening and then sharpening gives back every accidental above double flat.
pub proof fn lemma_sharpen_undoes_flatten(m: Modifier)
    requires
        m != Modifier::DoubleFlat,
    ensures
        m.spec_flatten() is Ok,
        m.spec_flatten()->Ok_0.spec_sharpen() == Ok::<Modifier, NoteError>(m),
{
}

} // verus!
