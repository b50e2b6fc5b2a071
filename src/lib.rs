//! Pitches named by letter (C to B) or by scale degree (1 to 7), each with an
//! accidental and an octave, and the transposition of a root letter note by a
//! scale-degree interval.
mod error;
mod letter_note;
mod modifier;
mod number_note;
mod octave;
mod random;
mod scale;

pub use error::{ErrorKind, NoteError};
pub use letter_note::{
    lemma_first_degree_is_identity, lemma_transposition_keeps_octave,
    lemma_transposition_spells_interval, lemma_valid_transposition_succeeds, LetterNote,
};
pub use modifier::{lemma_flatten_undoes_sharpen, lemma_sharpen_undoes_flatten, Modifier};
pub use number_note::NumberNote;
pub use octave::Octave;
pub use scale::{interval_step, Degree, Letter};
