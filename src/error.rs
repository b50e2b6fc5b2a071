use vstd::prelude::*;
use vstd::string::*;

use crate::letter_note::LetterNote;
use crate::modifier::Modifier;

verus! {

/// The two kinds of failure that note operations report.
#[derive(Clone, Copy, Debug, PartialEq, Eq, Structural)]
pub enum ErrorKind {
    /// The operation cannot be carried out on the value it was given.
    ImpossibleOperation,
    /// A caller passed a value that only the library itself may produce.
    InvalidArgument,
}

/// Why a note operation failed.
#[derive(Clone, Copy, Debug, PartialEq, Eq, Structural)]
pub enum NoteError {
    /// Sharpening the held accidental would go past double sharp.
    CannotSharpen(Modifier),
    /// Flattening the held accidental would go past double flat.
    CannotFlatten(Modifier),
    /// The note's accidental is not one that transposition accepts on a
    /// root of its letter.
    InvalidRoot(LetterNote),
    /// The interval carried this double accidental, which only transposition
    /// itself may produce.
    ReservedModifier(Modifier),
}

impl NoteError {
    pub open spec fn spec_kind(self) -> ErrorKind {
        match self {
            NoteError::CannotSharpen(_) => ErrorKind::ImpossibleOperation,
            NoteError::CannotFlatten(_) => ErrorKind::ImpossibleOperation,
            NoteError::InvalidRoot(_) => ErrorKind::ImpossibleOperation,
            NoteError::ReservedModifier(_) => ErrorKind::InvalidArgument,
        }
    }

    /// A sentence that says what went wrong and with which value.
    pub open spec fn text(self) -> Seq<char> {
        match self {
            NoteError::CannotSharpen(m) => "Cannot sharpen a "@ + m.text() + " Modifier"@,
            NoteError::CannotFlatten(m) => "Cannot flatten a "@ + m.text() + " Modifier"@,
            NoteError::InvalidRoot(n) => n.text() + " is not a valid root note"@,
            NoteError::ReservedModifier(m) => "The "@ + m.text()
                + " modifier should only ever be returned by transposition, not passed to it"@,
        }
    }

    pub fn explanation(&self) -> (r: String)
        ensures
            r@ == self.text(),
    {
        match self {
            NoteError::CannotSharpen(m) => {
                let mut s = String::from_str("Cannot sharpen a ");
                s.append(m.label());
                s.append(" Modifier");
                s
            },
            NoteError::CannotFlatten(m) => {
                let mut s = String::from_str("Cannot flatten a ");
                s.append(m.label());
                s.append(" Modifier");
                s
            },
            NoteError::InvalidRoot(n) => {
                let mut s = n.to_string();
                s.append(" is not a valid root note");
                s
            },
            NoteError::ReservedModifier(m) => {
                let mut s = String::from_str("The ");
                s.append(m.label());
                s.append(" modifier should only ever be returned by transposition, not passed to it");
                s
            },
        }
    }

    /// The name of the parameter that an invalid argument was passed in.
    pub fn argument(&self) -> (r: Option<&'static str>)
        ensures
            r is Some <==> self.spec_kind() == ErrorKind::InvalidArgument,
            r is Some ==> r->Some_0@ == "number_note"@,
    {
        match self {
            NoteError::ReservedModifier(_) => Some("number_note"),
            _ => None,
        }
    }

    pub fn kind(&self) -> (r: ErrorKind)
        ensures
            r == self.spec_kind(),
    {
        match self {
            NoteError::CannotSharpen(_) => ErrorKind::ImpossibleOperation,
            NoteError::CannotFlatten(_) => ErrorKind::ImpossibleOperation,
            NoteError::InvalidRoot(_) => ErrorKind::ImpossibleOperation,
            NoteError::ReservedModifier(_) => ErrorKind::InvalidArgument,
        }
    }
}

} // verus!
