use vstd::prelude::*;
use vstd::string::*;

use crate::error::NoteError;
use crate::modifier::Modifier;
use crate::number_note::NumberNote;
use crate::octave::Octave;
use crate::random::random_at_most;
use crate::scale::{interval_step, table_shift, target_letter, Degree, Letter};

verus! {

/// A note named by its letter, with an accidental and an octave.
#[derive(Clone, Copy, Debug, PartialEq, Eq, Structural, PartialOrd, Ord, Hash)]
pub enum LetterNote {
    C(Modifier, Octave),
    D(Modifier, Octave),
    E(Modifier, Octave),
    F(Modifier, Octave),
    G(Modifier, Octave),
    A(Modifier, Octave),
    B(Modifier, Octave),
}

impl LetterNote {
    pub open spec fn spec_letter(self) -> Letter {
        match self {
            LetterNote::C(..) => Letter::C,
            LetterNote::D(..) => Letter::D,
            LetterNote::E(..) => Letter::E,
            LetterNote::F(..) => Letter::F,
            LetterNote::G(..) => Letter::G,
            LetterNote::A(..) => Letter::A,
            LetterNote::B(..) => Letter::B,
        }
    }

    pub open spec fn spec_modifier(self) -> Modifier {
        match self {
            LetterNote::C(m, _) => m,
            LetterNote::D(m, _) => m,
            LetterNote::E(m, _) => m,
            LetterNote::F(m, _) => m,
            LetterNote::G(m, _) => m,
            LetterNote::A(m, _) => m,
            LetterNote::B(m, _) => m,
        }
    }

    pub open spec fn spec_octave(self) -> Octave {
        match self {
            LetterNote::C(_, o) => o,
            LetterNote::D(_, o) => o,
            LetterNote::E(_, o) => o,
            LetterNote::F(_, o) => o,
            LetterNote::G(_, o) => o,
            LetterNote::A(_, o) => o,
            LetterNote::B(_, o) => o,
        }
    }

    /// The note of the given letter, accidental and octave.
    pub open spec fn spec_new(letter: Letter, modifier: Modifier, octave: Octave) -> LetterNote {
        match letter {
            Letter::C => LetterNote::C(modifier, octave),
            Letter::D => LetterNote::D(modifier, octave),
            Letter::E => LetterNote::E(modifier, octave),
            Letter::F => LetterNote::F(modifier, octave),
            Letter::G => LetterNote::G(modifier, octave),
            Letter::A => LetterNote::A(modifier, octave),
            Letter::B => LetterNote::B(modifier, octave),
        }
    }

    /// The same letter and octave with the accidental one step sharper.
    pub open spec fn spec_sharpen(self) -> Result<LetterNote, NoteError> {
        match self.spec_modifier().spec_sharpen() {
            Ok(m) => Ok(LetterNote::spec_new(self.spec_letter(), m, self.spec_octave())),
            Err(e) => Err(e),
        }
    }

    /// The same letter and octave with the accidental one step flatter.
    pub open spec fn spec_flatten(self) -> Result<LetterNote, NoteError> {
        match self.spec_modifier().spec_flatten() {
            Ok(m) => Ok(LetterNote::spec_new(self.spec_letter(), m, self.spec_octave())),
            Err(e) => Err(e),
        }
    }

    /// The letter, followed by the accidental's name and the octave
    /// in parentheses.
    pub open spec fn text(self) -> Seq<char> {
        self.spec_letter().text() + self.spec_modifier().text() + "("@ + self.spec_octave().text()
            + ")"@
    }

    pub fn new(letter: Letter, modifier: Modifier, octave: Octave) -> (r: LetterNote)
        ensures
            r == LetterNote::spec_new(letter, modifier, octave),
    {
        match letter {
            Letter::C => LetterNote::C(modifier, octave),
            Letter::D => LetterNote::D(modifier, octave),
            Letter::E => LetterNote::E(modifier, octave),
            Letter::F => LetterNote::F(modifier, octave),
            Letter::G => LetterNote::G(modifier, octave),
            Letter::A => LetterNote::A(modifier, octave),
            Letter::B => LetterNote::B(modifier, octave),
        }
    }

    pub fn letter(&self) -> (r: Letter)
        ensures
            r == self.spec_letter(),
    {
        match self {
            LetterNote::C(..) => Letter::C,
            LetterNote::D(..) => Letter::D,
            LetterNote::E(..) => Letter::E,
            LetterNote::F(..) => Letter::F,
            LetterNote::G(..) => Letter::G,
            LetterNote::A(..) => Letter::A,
            LetterNote::B(..) => Letter::B,
        }
    }

    pub fn get_modifier(&self) -> (r: Modifier)
        ensures
            r == self.spec_modifier(),
    {
        match self {
            LetterNote::C(m, _) => *m,
            LetterNote::D(m, _) => *m,
            LetterNote::E(m, _) => *m,
            LetterNote::F(m, _) => *m,
            LetterNote::G(m, _) => *m,
            LetterNote::A(m, _) => *m,
            LetterNote::B(m, _) => *m,
        }
    }

    pub fn get_octave(&self) -> (r: Octave)
        ensures
            r == self.spec_octave(),
    {
        match self {
            LetterNote::C(_, o) => *o,
            LetterNote::D(_, o) => *o,
            LetterNote::E(_, o) => *o,
            LetterNote::F(_, o) => *o,
            LetterNote::G(_, o) => *o,
            LetterNote::A(_, o) => *o,
            LetterNote::B(_, o) => *o,
        }
    }

    pub fn try_sharpen(self) -> (r: Result<LetterNote, NoteError>)
        ensures
            r == self.spec_sharpen(),
    {
        let modifier = match self.get_modifier().try_sharpen() {
            Ok(m) => m,
            Err(e) => return Err(e),
        };
        Ok(LetterNote::new(self.letter(), modifier, self.get_octave()))
    }

    pub fn try_flatten(self) -> (r: Result<LetterNote, NoteError>)
        ensures
            r == self.spec_flatten(),
    {
        let modifier = match self.get_modifier().try_flatten() {
            Ok(m) => m,
            Err(e) => return Err(e),
        };
        Ok(LetterNote::new(self.letter(), modifier, self.get_octave()))
    }

    /// Whether transposition accepts this note as its root: C may carry a
    /// flat, no accidental or a sharp; F no accidental or a sharp; every
    /// other letter a flat or no accidental.
    pub open spec fn valid_root(self) -> bool {
        let m = self.spec_modifier();
        match self.spec_letter() {
            Letter::C => m == Modifier::Flat || m == Modifier::Natural || m == Modifier::Sharp,
            Letter::F => m == Modifier::Natural || m == Modifier::Sharp,
            _ => m == Modifier::Flat || m == Modifier::Natural,
        }
    }

    /// The note that the interval table gives for `degree` from this root,
    /// before the interval's own accidental is applied: the target letter,
    /// with the root's accidental moved by the table's shift, in the root's
    /// octave.
    pub open spec fn looked_up(self, degree: Degree) -> LetterNote {
        LetterNote::spec_new(
            target_letter(self.spec_letter(), degree),
            Modifier::from_offset(
                self.spec_modifier().offset() + table_shift(self.spec_letter(), degree),
            ),
            self.spec_octave(),
        )
    }

    /// Transposition of this root by `interval`: an invalid root is refused
    /// first, then a double accidental on the interval; otherwise the looked
    /// up note is flattened or sharpened once more when the interval carries
    /// a flat or a sharp.
    pub open spec fn spec_relative_note(self, interval: NumberNote) -> Result<LetterNote, NoteError> {
        if !self.valid_root() {
            Err(NoteError::InvalidRoot(self))
        } else if interval.spec_modifier().is_double() {
            Err(NoteError::ReservedModifier(interval.spec_modifier()))
        } else {
            let note = self.looked_up(interval.spec_degree());
            match interval.spec_modifier() {
                Modifier::Flat => note.spec_flatten(),
                Modifier::Sharp => note.spec_sharpen(),
                _ => Ok(note),
            }
        }
    }

    /// Position of a valid root among all valid roots, ordered by letter
    /// from C to B and then by accidental from flat to sharp.
    pub open spec fn root_rank(self) -> int {
        let k = self.spec_modifier().offset();
        match self.spec_letter() {
            Letter::C => 1 + k,
            Letter::D => 4 + k,
            Letter::E => 6 + k,
            Letter::F => 7 + k,
            Letter::G => 10 + k,
            Letter::A => 12 + k,
            Letter::B => 14 + k,
        }
    }

    pub fn is_valid_root(&self) -> (r: bool)
        ensures
            r == self.valid_root(),
    {
        match self {
            LetterNote::C(m, _) => match m {
                Modifier::DoubleFlat | Modifier::DoubleSharp => false,
                _ => true,
            },
            LetterNote::F(m, _) => match m {
                Modifier::DoubleFlat | Modifier::Flat | Modifier::DoubleSharp => false,
                _ => true,
            },
            LetterNote::D(m, _) | LetterNote::E(m, _) | LetterNote::G(m, _) | LetterNote::A(m, _)
            | LetterNote::B(m, _) => match m {
                Modifier::DoubleFlat | Modifier::Sharp | Modifier::DoubleSharp => false,
                _ => true,
            },
        }
    }

    /// Semitones from C up to this note, before reducing to one octave.
    pub open spec fn pitch(self) -> int {
        self.spec_letter().natural_pitch() + self.spec_modifier().offset()
    }

    /// Transposes this root note by the scale-degree interval `number_note`.
    /// An invalid root is refused, then an interval with a double accidental;
    /// otherwise the result is spelled on the letter that the degree counts
    /// up to, and sounds the degree's major-scale interval above the root,
    /// raised or lowered by the interval's own accidental.
    pub fn try_get_relative_note(&self, number_note: NumberNote) -> (r: Result<
        LetterNote,
        NoteError,
    >)
        ensures
            r == self.spec_relative_note(number_note),
            r is Ok ==> r->Ok_0.spec_octave() == self.spec_octave(),
            r is Ok ==> r->Ok_0.spec_letter() == target_letter(
                self.spec_letter(),
                number_note.spec_degree(),
            ),
            r is Ok ==> r->Ok_0.pitch() % 12 == (self.pitch() + number_note.spec_degree().major_interval()
                + number_note.spec_modifier().offset()) % 12,
    {
        if !self.is_valid_root() {
            return Err(NoteError::InvalidRoot(*self));
        }
        let number_modifier = number_note.get_modifier();
        match number_modifier {
            Modifier::DoubleFlat | Modifier::DoubleSharp => {
                return Err(NoteError::ReservedModifier(number_modifier));
            },
            _ => {},
        }
        let (target, shift) = interval_step(self.letter(), number_note.degree());
        proof {
            lemma_table_shift_stays_in_scale(*self, number_note.spec_degree());
            lemma_transposition_spells_interval(*self, number_note);
        }
        let root_modifier = self.get_modifier();
        let modifier = if shift > 0 {
            root_modifier.try_sharpen().expect("a valid root is never double sharp")
        } else if shift < 0 {
            root_modifier.try_flatten().expect("a valid root is never double flat")
        } else {
            root_modifier
        };
        let note = LetterNote::new(target, modifier, self.get_octave());
        match number_modifier {
            Modifier::Flat => note.try_flatten(),
            Modifier::Sharp => note.try_sharpen(),
            _ => Ok(note),
        }
    }

    /// The root note for a draw `i` from 0 to 14 in the octave given. The
    /// fifteen draws name the valid roots in order: C flat, C, C sharp,
    /// D flat, D, E flat, E, F, F sharp, G flat, G, A flat, A, B flat, B;
    /// any larger draw gives B.
    pub fn from_sample(i: u8, octave: Octave) -> (r: LetterNote)
        ensures
            r.valid_root(),
            r.spec_octave() == octave,
            i <= 14 ==> r.root_rank() == i,
            i > 14 ==> r.spec_letter() == Letter::B && r.spec_modifier() == Modifier::Natural,
    {
        match i {
            0 => LetterNote::C(Modifier::Flat, octave),
            1 => LetterNote::C(Modifier::Natural, octave),
            2 => LetterNote::C(Modifier::Sharp, octave),
            3 => LetterNote::D(Modifier::Flat, octave),
            4 => LetterNote::D(Modifier::Natural, octave),
            5 => LetterNote::E(Modifier::Flat, octave),
            6 => LetterNote::E(Modifier::Natural, octave),
            7 => LetterNote::F(Modifier::Natural, octave),
            8 => LetterNote::F(Modifier::Sharp, octave),
            9 => LetterNote::G(Modifier::Flat, octave),
            10 => LetterNote::G(Modifier::Natural, octave),
            11 => LetterNote::A(Modifier::Flat, octave),
            12 => LetterNote::A(Modifier::Natural, octave),
            13 => LetterNote::B(Modifier::Flat, octave),
            _ => LetterNote::B(Modifier::Natural, octave),
        }
    }

    /// A valid root note drawn at random from the fifteen valid roots, in an
    /// octave drawn uniformly at random.
    pub fn random() -> (r: LetterNote)
        ensures
            r.valid_root(),
    {
        let i = random_at_most(14);
        let octave = Octave::random();
        LetterNote::from_sample(i, octave)
    }

    pub fn to_string(&self) -> (r: String)
        ensures
            r@ == self.text(),
    {
        let mut s = String::from_str(self.letter().label());
        s.append(self.get_modifier().label());
        s.append("(");
        s.append(self.get_octave().label());
        s.append(")");
        s
    }
}

impl Default for LetterNote {
    fn default() -> (r: LetterNote)
        ensures
            r == LetterNote::C(Modifier::Natural, Octave::Four),
    {
        LetterNote::C(Modifier::Natural, Octave::Four)
    }
}

/// Transposing a valid root by a plain first degree gives back the root's
/// letter and accidental, and indeed the root itself.
pub proof fn lemma_first_degree_is_identity(root: LetterNote, octave: Octave)
    requires
        root.valid_root(),
    ensures
        root.spec_relative_note(NumberNote::One(Modifier::Natural, octave)) is Ok,
        root.spec_relative_note(NumberNote::One(Modifier::Natural, octave))->Ok_0.spec_letter()
            == root.spec_letter(),
        root.spec_relative_note(NumberNote::One(Modifier::Natural, octave))->Ok_0.spec_modifier()
            == root.spec_modifier(),
        root.spec_relative_note(NumberNote::One(Modifier::Natural, octave)) == Ok::<
            LetterNote,
            NoteError,
        >(root),
{
}

/// A valid root transposed by an interval without a double accidental always
/// succeeds: the looked up note lies between flat and sharp, so one more step
/// either way stays on the scale.
pub proof fn lemma_valid_transposition_succeeds(root: LetterNote, interval: NumberNote)
    requires
        root.valid_root(),
        !interval.spec_modifier().is_double(),
    ensures
        root.spec_relative_note(interval) is Ok,
{
    lemma_table_shift_stays_in_scale(root, interval.spec_degree());
}

/// The note that transposition spells sounds the degree's major-scale
/// interval above the root, moved by the interval's accidental.
proof fn lemma_looked_up_pitch(root: LetterNote, degree: Degree)
    requires
        root.valid_root(),
    ensures
        root.looked_up(degree).pitch() % 12 == (root.pitch() + degree.major_interval()) % 12,
{
    lemma_table_shift_stays_in_scale(root, degree);
    match root.spec_letter() {
        Letter::C => {},
        Letter::D => {},
        Letter::E => {},
        Letter::F => {},
        Letter::G => {},
        Letter::A => {},
        Letter::B => {},
    }
}

/// A successful transposition lands on the letter that the degree counts up
/// to, and sounds the degree's major-scale interval above the root, moved by
/// the interval's accidental.
pub proof fn lemma_transposition_spells_interval(root: LetterNote, interval: NumberNote)
    ensures
        root.spec_relative_note(interval) is Ok ==> {
            let n = root.spec_relative_note(interval)->Ok_0;
            &&& n.spec_letter() == target_letter(root.spec_letter(), interval.spec_degree())
            &&& n.pitch() % 12 == (root.pitch() + interval.spec_degree().major_interval()
                + interval.spec_modifier().offset()) % 12
        },
{
    if root.spec_relative_note(interval) is Ok {
        let d = interval.spec_degree();
        let k = interval.spec_modifier().offset();
        let a = root.looked_up(d).pitch();
        let b = root.pitch() + d.major_interval();
        lemma_looked_up_pitch(root, d);
        assert((a + k) % 12 == (b + k) % 12) by {
            vstd::arithmetic::div_mod::lemma_add_mod_noop(a, k, 12);
            vstd::arithmetic::div_mod::lemma_add_mod_noop(b, k, 12);
        }
    }
}

/// Every transposition that succeeds keeps the root's octave.
pub proof fn lemma_transposition_keeps_octave(root: LetterNote, interval: NumberNote)
    ensures
        root.spec_relative_note(interval) is Ok ==> root.spec_relative_note(interval)->Ok_0.spec_octave()
            == root.spec_octave(),
{
}

/// Moving a valid root's accidental by the table's shift never leaves the
/// double flat to double sharp scale, nor reaches either double.
proof fn lemma_table_shift_stays_in_scale(root: LetterNote, degree: Degree)
    requires
        root.valid_root(),
    ensures
        -1 <= root.spec_modifier().offset() + table_shift(root.spec_letter(), degree) <= 1,
{
}

} // verus!
