use vstd::prelude::*;
use vstd::string::*;

use crate::error::NoteError;
use crate::modifier::Modifier;
use crate::octave::Octave;
use crate::random::random_at_most;
use crate::scale::Degree;

verus! {

/// A note named by its scale degree, with an accidental and an octave. It
/// serves as the interval by which a root note is transposed.
#[derive(Clone, Copy, Debug, PartialEq, Eq, Structural, PartialOrd, Ord, Hash)]
pub enum NumberNote {
    One(Modifier, Octave),
    Two(Modifier, Octave),
    Three(Modifier, Octave),
    Four(Modifier, Octave),
    Five(Modifier, Octave),
    Six(Modifier, Octave),
    Seven(Modifier, Octave),
}

impl NumberNote {
    pub open spec fn spec_degree(self) -> Degree {
        match self {
            NumberNote::One(..) => Degree::One,
            NumberNote::Two(..) => Degree::Two,
            NumberNote::Three(..) => Degree::Three,
            NumberNote::Four(..) => Degree::Four,
            NumberNote::Five(..) => Degree::Five,
            NumberNote::Six(..) => Degree::Six,
            NumberNote::Seven(..) => Degree::Seven,
        }
    }

    pub open spec fn spec_modifier(self) -> Modifier {
        match self {
            NumberNote::One(m, _) => m,
            NumberNote::Two(m, _) => m,
            NumberNote::Three(m, _) => m,
            NumberNote::Four(m, _) => m,
            NumberNote::Five(m, _) => m,
            NumberNote::Six(m, _) => m,
            NumberNote::Seven(m, _) => m,
        }
    }

    pub open spec fn spec_octave(self) -> Octave {
        match self {
            NumberNote::One(_, o) => o,
            NumberNote::Two(_, o) => o,
            NumberNote::Three(_, o) => o,
            NumberNote::Four(_, o) => o,
            NumberNote::Five(_, o) => o,
            NumberNote::Six(_, o) => o,
            NumberNote::Seven(_, o) => o,
        }
    }

    /// The note of the given degree, accidental and octave.
    pub open spec fn spec_new(degree: Degree, modifier: Modifier, octave: Octave) -> NumberNote {
        match degree {
            Degree::One => NumberNote::One(modifier, octave),
            Degree::Two => NumberNote::Two(modifier, octave),
            Degree::Three => NumberNote::Three(modifier, octave),
            Degree::Four => NumberNote::Four(modifier, octave),
            Degree::Five => NumberNote::Five(modifier, octave),
            Degree::Six => NumberNote::Six(modifier, octave),
            Degree::Seven => NumberNote::Seven(modifier, octave),
        }
    }

    /// The same degree and octave with the accidental one step sharper.
    pub open spec fn spec_sharpen(self) -> Result<NumberNote, NoteError> {
        match self.spec_modifier().spec_sharpen() {
            Ok(m) => Ok(NumberNote::spec_new(self.spec_degree(), m, self.spec_octave())),
            Err(e) => Err(e),
        }
    }

    /// The same degree and octave with the accidental one step flatter.
    pub open spec fn spec_flatten(self) -> Result<NumberNote, NoteError> {
        match self.spec_modifier().spec_flatten() {
            Ok(m) => Ok(NumberNote::spec_new(self.spec_degree(), m, self.spec_octave())),
            Err(e) => Err(e),
        }
    }

    /// The degree's number, followed by the accidental's name and the octave
    /// in parentheses.
    pub open spec fn text(self) -> Seq<char> {
        self.spec_degree().text() + self.spec_modifier().text() + "("@ + self.spec_octave().text()
            + ")"@
    }

    pub fn new(degree: Degree, modifier: Modifier, octave: Octave) -> (r: NumberNote)
        ensures
            r == NumberNote::spec_new(degree, modifier, octave),
    {
        match degree {
            Degree::One => NumberNote::One(modifier, octave),
            Degree::Two => NumberNote::Two(modifier, octave),
            Degree::Three => NumberNote::Three(modifier, octave),
            Degree::Four => NumberNote::Four(modifier, octave),
            Degree::Five => NumberNote::Five(modifier, octave),
            Degree::Six => NumberNote::Six(modifier, octave),
            Degree::Seven => NumberNote::Seven(modifier, octave),
        }
    }

    pub fn degree(&self) -> (r: Degree)
        ensures
            r == self.spec_degree(),
    {
        match self {
            NumberNote::One(..) => Degree::One,
            NumberNote::Two(..) => Degree::Two,
            NumberNote::Three(..) => Degree::Three,
            NumberNote::Four(..) => Degree::Four,
            NumberNote::Five(..) => Degree::Five,
            NumberNote::Six(..) => Degree::Six,
            NumberNote::Seven(..) => Degree::Seven,
        }
    }

    pub fn get_modifier(&self) -> (r: Modifier)
        ensures
            r == self.spec_modifier(),
    {
        match self {
            NumberNote::One(m, _) => *m,
            NumberNote::Two(m, _) => *m,
            NumberNote::Three(m, _) => *m,
            NumberNote::Four(m, _) => *m,
            NumberNote::Five(m, _) => *m,
            NumberNote::Six(m, _) => *m,
            NumberNote::Seven(m, _) => *m,
        }
    }

    pub fn get_octave(&self) -> (r: Octave)
        ensures
            r == self.spec_octave(),
    {
        match self {
            NumberNote::One(_, o) => *o,
            NumberNote::Two(_, o) => *o,
            NumberNote::Three(_, o) => *o,
            NumberNote::Four(_, o) => *o,
            NumberNote::Five(_, o) => *o,
            NumberNote::Six(_, o) => *o,
            NumberNote::Seven(_, o) => *o,
        }
    }

    pub fn try_sharpen(self) -> (r: Result<NumberNote, NoteError>)
        ensures
            r == self.spec_sharpen(),
    {
        let modifier = match self.get_modifier().try_sharpen() {
            Ok(m) => m,
            Err(e) => return Err(e),
        };
        Ok(NumberNote::new(self.degree(), modifier, self.get_octave()))
    }

    pub fn try_flatten(self) -> (r: Result<NumberNote, NoteError>)
        ensures
            r == self.spec_flatten(),
    {
        let modifier = match self.get_modifier().try_flatten() {
            Ok(m) => m,
            Err(e) => return Err(e),
        };
        Ok(NumberNote::new(self.degree(), modifier, self.get_octave()))
    }

    /// The note for a degree draw `i` from 0 to 6 (any larger draw gives
    /// the seventh degree), with the accidental and octave given.
    pub fn from_sample(i: u8, modifier: Modifier, octave: Octave) -> (r: NumberNote)
        ensures
            i <= 6 ==> r.spec_degree().index() == i,
            i > 6 ==> r.spec_degree() == Degree::Seven,
            r.spec_modifier() == modifier,
            r.spec_octave() == octave,
    {
        match i {
            0 => NumberNote::One(modifier, octave),
            1 => NumberNote::Two(modifier, octave),
            2 => NumberNote::Three(modifier, octave),
            3 => NumberNote::Four(modifier, octave),
            4 => NumberNote::Five(modifier, octave),
            5 => NumberNote::Six(modifier, octave),
            _ => NumberNote::Seven(modifier, octave),
        }
    }

    /// A note whose degree, accidental and octave are each drawn uniformly
    /// at random.
    pub fn random() -> NumberNote {
        let i = random_at_most(6);
        let modifier = Modifier::random();
        let octave = Octave::random();
        NumberNote::from_sample(i, modifier, octave)
    }

    pub fn to_string(&self) -> (r: String)
        ensures
            r@ == self.text(),
    {
        let mut s = String::from_str(self.degree().label());
        s.append(self.get_modifier().label());
        s.append("(");
        s.append(self.get_octave().label());
        s.append(")");
        s
    }
}

impl Default for NumberNote {
    fn default() -> (r: NumberNote)
        ensures
            r == NumberNote::Four(Modifier::Natural, Octave::Four),
    {
        NumberNote::Four(Modifier::Natural, Octave::Four)
    }
}

} // verus!
