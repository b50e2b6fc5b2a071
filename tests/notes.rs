use crispii_notes::{
    interval_step, Degree, ErrorKind, Letter, LetterNote, Modifier, NoteError, NumberNote, Octave,
};

const ALL_MODIFIERS: [Modifier; 5] = [
    Modifier::DoubleFlat,
    Modifier::Flat,
    Modifier::Natural,
    Modifier::Sharp,
    Modifier::DoubleSharp,
];

#[test]
fn sharpen_walks_up_the_scale() {
    assert_eq!(Modifier::DoubleFlat.try_sharpen(), Ok(Modifier::Flat));
    assert_eq!(Modifier::Flat.try_sharpen(), Ok(Modifier::Natural));
    assert_eq!(Modifier::Natural.try_sharpen(), Ok(Modifier::Sharp));
    assert_eq!(Modifier::Sharp.try_sharpen(), Ok(Modifier::DoubleSharp));
}

#[test]
fn flatten_walks_down_the_scale() {
    assert_eq!(Modifier::DoubleSharp.try_flatten(), Ok(Modifier::Sharp));
    assert_eq!(Modifier::Sharp.try_flatten(), Ok(Modifier::Natural));
    assert_eq!(Modifier::Natural.try_flatten(), Ok(Modifier::Flat));
    assert_eq!(Modifier::Flat.try_flatten(), Ok(Modifier::DoubleFlat));
}

#[test]
fn sharpen_and_flatten_undo_each_other() {
    for m in ALL_MODIFIERS {
        if m != Modifier::DoubleSharp {
            assert_eq!(m.try_sharpen().unwrap().try_flatten(), Ok(m));
        }
        if m != Modifier::DoubleFlat {
            assert_eq!(m.try_flatten().unwrap().try_sharpen(), Ok(m));
        }
    }
}

#[test]
fn sharpen_and_flatten_fail_at_the_ends() {
    assert_eq!(
        Modifier::DoubleSharp.try_sharpen(),
        Err(NoteError::CannotSharpen(Modifier::DoubleSharp))
    );
    assert_eq!(
        Modifier::DoubleFlat.try_flatten(),
        Err(NoteError::CannotFlatten(Modifier::DoubleFlat))
    );
    assert_eq!(
        NoteError::CannotSharpen(Modifier::DoubleSharp).kind(),
        ErrorKind::ImpossibleOperation
    );
    assert_eq!(
        NoteError::CannotFlatten(Modifier::DoubleFlat).kind(),
        ErrorKind::ImpossibleOperation
    );
}

#[test]
fn modifier_order_and_default() {
    assert!(Modifier::DoubleFlat < Modifier::Flat);
    assert!(Modifier::Flat < Modifier::Natural);
    assert!(Modifier::Natural < Modifier::Sharp);
    assert!(Modifier::Sharp < Modifier::DoubleSharp);
    assert_eq!(Modifier::default(), Modifier::Natural);
    assert_eq!(Octave::default(), Octave::Four);
    assert_eq!(
        LetterNote::default(),
        LetterNote::C(Modifier::Natural, Octave::Four)
    );
    assert_eq!(
        NumberNote::default(),
        NumberNote::Four(Modifier::Natural, Octave::Four)
    );
}

#[test]
fn letter_note_accessors() {
    let n = LetterNote::G(Modifier::Flat, Octave::Seven);
    assert_eq!(n.get_modifier(), Modifier::Flat);
    assert_eq!(n.get_octave(), Octave::Seven);
    assert_eq!(n.letter(), Letter::G);
    assert_eq!(LetterNote::new(Letter::G, Modifier::Flat, Octave::Seven), n);
}

#[test]
fn number_note_accessors() {
    let n = NumberNote::Six(Modifier::Sharp, Octave::MinusOne);
    assert_eq!(n.get_modifier(), Modifier::Sharp);
    assert_eq!(n.get_octave(), Octave::MinusOne);
    assert_eq!(n.degree(), Degree::Six);
    assert_eq!(NumberNote::new(Degree::Six, Modifier::Sharp, Octave::MinusOne), n);
}

#[test]
fn letter_note_sharpen_and_flatten_keep_letter_and_octave() {
    let n = LetterNote::E(Modifier::Natural, Octave::Two);
    assert_eq!(n.try_sharpen(), Ok(LetterNote::E(Modifier::Sharp, Octave::Two)));
    assert_eq!(n.try_flatten(), Ok(LetterNote::E(Modifier::Flat, Octave::Two)));
    let top = LetterNote::A(Modifier::DoubleSharp, Octave::Nine);
    assert_eq!(
        top.try_sharpen(),
        Err(NoteError::CannotSharpen(Modifier::DoubleSharp))
    );
    let bottom = LetterNote::A(Modifier::DoubleFlat, Octave::Zero);
    assert_eq!(
        bottom.try_flatten(),
        Err(NoteError::CannotFlatten(Modifier::DoubleFlat))
    );
}

#[test]
fn number_note_sharpen_and_flatten_keep_degree_and_octave() {
    let n = NumberNote::Two(Modifier::Flat, Octave::Eight);
    assert_eq!(n.try_sharpen(), Ok(NumberNote::Two(Modifier::Natural, Octave::Eight)));
    assert_eq!(n.try_flatten(), Ok(NumberNote::Two(Modifier::DoubleFlat, Octave::Eight)));
    assert_eq!(
        NumberNote::Seven(Modifier::DoubleSharp, Octave::One).try_sharpen(),
        Err(NoteError::CannotSharpen(Modifier::DoubleSharp))
    );
    assert_eq!(
        NumberNote::One(Modifier::DoubleFlat, Octave::One).try_flatten(),
        Err(NoteError::CannotFlatten(Modifier::DoubleFlat))
    );
}

fn valid_roots() -> Vec<LetterNote> {
    (0u8..15).map(|i| LetterNote::from_sample(i, Octave::Three)).collect()
}

#[test]
fn first_degree_is_identity_for_every_valid_root() {
    for root in valid_roots() {
        let r = root
            .try_get_relative_note(NumberNote::One(Modifier::Natural, Octave::Six))
            .unwrap();
        assert_eq!(r.letter(), root.letter());
        assert_eq!(r.get_modifier(), root.get_modifier());
        assert_eq!(r, root);
    }
}

#[test]
fn c_major_scale() {
    let c = LetterNote::C(Modifier::Natural, Octave::Four);
    let expected = [
        LetterNote::C(Modifier::Natural, Octave::Four),
        LetterNote::D(Modifier::Natural, Octave::Four),
        LetterNote::E(Modifier::Natural, Octave::Four),
        LetterNote::F(Modifier::Natural, Octave::Four),
        LetterNote::G(Modifier::Natural, Octave::Four),
        LetterNote::A(Modifier::Natural, Octave::Four),
        LetterNote::B(Modifier::Natural, Octave::Four),
    ];
    for (i, want) in expected.iter().enumerate() {
        let interval = NumberNote::from_sample(i as u8, Modifier::Natural, Octave::Four);
        assert_eq!(c.try_get_relative_note(interval), Ok(*want));
    }
}

#[test]
fn d_major_third_is_f_sharp() {
    let d = LetterNote::D(Modifier::Natural, Octave::Four);
    assert_eq!(
        d.try_get_relative_note(NumberNote::Three(Modifier::Natural, Octave::Four)),
        Ok(LetterNote::F(Modifier::Sharp, Octave::Four))
    );
}

#[test]
fn f_perfect_fourth_is_b_flat() {
    let f = LetterNote::F(Modifier::Natural, Octave::Four);
    assert_eq!(
        f.try_get_relative_note(NumberNote::Four(Modifier::Natural, Octave::Four)),
        Ok(LetterNote::B(Modifier::Flat, Octave::Four))
    );
}

#[test]
fn double_sharp_root_is_refused() {
    let root = LetterNote::C(Modifier::DoubleSharp, Octave::Four);
    let r = root.try_get_relative_note(NumberNote::One(Modifier::Natural, Octave::Four));
    assert_eq!(r, Err(NoteError::InvalidRoot(root)));
    assert_eq!(r.unwrap_err().kind(), ErrorKind::ImpossibleOperation);
}

#[test]
fn double_flat_interval_is_refused() {
    let root = LetterNote::C(Modifier::Natural, Octave::Four);
    let r = root.try_get_relative_note(NumberNote::One(Modifier::DoubleFlat, Octave::Four));
    assert_eq!(r, Err(NoteError::ReservedModifier(Modifier::DoubleFlat)));
    let e = r.unwrap_err();
    assert_eq!(e.kind(), ErrorKind::InvalidArgument);
    assert_eq!(e.argument(), Some("number_note"));
}

#[test]
fn double_sharp_interval_is_refused() {
    let root = LetterNote::G(Modifier::Flat, Octave::Four);
    let r = root.try_get_relative_note(NumberNote::Five(Modifier::DoubleSharp, Octave::Four));
    assert_eq!(r, Err(NoteError::ReservedModifier(Modifier::DoubleSharp)));
}

#[test]
fn invalid_root_is_refused_before_invalid_interval() {
    let root = LetterNote::F(Modifier::Flat, Octave::Four);
    let r = root.try_get_relative_note(NumberNote::Two(Modifier::DoubleSharp, Octave::Four));
    assert_eq!(r, Err(NoteError::InvalidRoot(root)));
}

#[test]
fn root_validity_per_letter() {
    let letters = [
        Letter::C,
        Letter::D,
        Letter::E,
        Letter::F,
        Letter::G,
        Letter::A,
        Letter::B,
    ];
    for l in letters {
        for m in ALL_MODIFIERS {
            let n = LetterNote::new(l, m, Octave::Four);
            let want = match l {
                Letter::C => matches!(m, Modifier::Flat | Modifier::Natural | Modifier::Sharp),
                Letter::F => matches!(m, Modifier::Natural | Modifier::Sharp),
                _ => matches!(m, Modifier::Flat | Modifier::Natural),
            };
            assert_eq!(n.is_valid_root(), want);
        }
    }
}

#[test]
fn sharp_interval_on_sharp_result_gives_double_sharp() {
    let d = LetterNote::D(Modifier::Natural, Octave::Four);
    assert_eq!(
        d.try_get_relative_note(NumberNote::Three(Modifier::Sharp, Octave::Four)),
        Ok(LetterNote::F(Modifier::DoubleSharp, Octave::Four))
    );
}

#[test]
fn flat_interval_on_flat_result_gives_double_flat() {
    let f = LetterNote::F(Modifier::Natural, Octave::Four);
    assert_eq!(
        f.try_get_relative_note(NumberNote::Four(Modifier::Flat, Octave::Four)),
        Ok(LetterNote::B(Modifier::DoubleFlat, Octave::Four))
    );
}

#[test]
fn composition_reaches_double_sharp_from_sharp_roots() {
    let c = LetterNote::C(Modifier::Sharp, Octave::Four);
    let r = c.try_get_relative_note(NumberNote::Two(Modifier::Sharp, Octave::Four));
    assert_eq!(r, Ok(LetterNote::D(Modifier::DoubleSharp, Octave::Four)));
    let f = LetterNote::F(Modifier::Sharp, Octave::Four);
    assert_eq!(
        f.try_get_relative_note(NumberNote::Four(Modifier::Sharp, Octave::Four)),
        Ok(LetterNote::B(Modifier::Sharp, Octave::Four))
    );
    let b = LetterNote::B(Modifier::Natural, Octave::Four);
    assert_eq!(
        b.try_get_relative_note(NumberNote::Two(Modifier::Sharp, Octave::Four)),
        Ok(LetterNote::C(Modifier::DoubleSharp, Octave::Four))
    );
}

#[test]
fn flat_root_flat_interval_reaches_double_flat() {
    let e = LetterNote::E(Modifier::Flat, Octave::Four);
    assert_eq!(
        e.try_get_relative_note(NumberNote::Four(Modifier::Flat, Octave::Four)),
        Ok(LetterNote::A(Modifier::DoubleFlat, Octave::Four))
    );
    let c = LetterNote::C(Modifier::Flat, Octave::Four);
    assert_eq!(
        c.try_get_relative_note(NumberNote::Three(Modifier::Flat, Octave::Four)),
        Ok(LetterNote::E(Modifier::DoubleFlat, Octave::Four))
    );
}

#[test]
fn octave_is_kept_through_transposition() {
    for root in valid_roots() {
        for i in 0u8..7 {
            for m in [Modifier::Flat, Modifier::Natural, Modifier::Sharp] {
                let interval = NumberNote::from_sample(i, m, Octave::Nine);
                if let Ok(n) = root.try_get_relative_note(interval) {
                    assert_eq!(n.get_octave(), Octave::Three);
                }
            }
        }
    }
}

#[test]
fn interval_table_exceptions() {
    assert_eq!(interval_step(Letter::D, Degree::Three), (Letter::F, 1));
    assert_eq!(interval_step(Letter::D, Degree::Seven), (Letter::C, 1));
    assert_eq!(interval_step(Letter::E, Degree::Two), (Letter::F, 1));
    assert_eq!(interval_step(Letter::F, Degree::Four), (Letter::B, -1));
    assert_eq!(interval_step(Letter::G, Degree::Seven), (Letter::F, 1));
    assert_eq!(interval_step(Letter::B, Degree::Four), (Letter::E, 0));
    assert_eq!(interval_step(Letter::A, Degree::Five), (Letter::E, 0));
    assert_eq!(interval_step(Letter::C, Degree::Seven), (Letter::B, 0));
}

#[test]
fn a_major_scale() {
    let a = LetterNote::A(Modifier::Natural, Octave::Two);
    let got: Vec<LetterNote> = (0u8..7)
        .map(|i| {
            a.try_get_relative_note(NumberNote::from_sample(i, Modifier::Natural, Octave::Two))
                .unwrap()
        })
        .collect();
    assert_eq!(
        got,
        vec![
            LetterNote::A(Modifier::Natural, Octave::Two),
            LetterNote::B(Modifier::Natural, Octave::Two),
            LetterNote::C(Modifier::Sharp, Octave::Two),
            LetterNote::D(Modifier::Natural, Octave::Two),
            LetterNote::E(Modifier::Natural, Octave::Two),
            LetterNote::F(Modifier::Sharp, Octave::Two),
            LetterNote::G(Modifier::Sharp, Octave::Two),
        ]
    );
}

#[test]
fn rendering() {
    assert_eq!(Modifier::Natural.label(), "");
    assert_eq!(Modifier::DoubleFlat.label(), "Double Flat");
    assert_eq!(Octave::MinusOne.label(), "-1");
    assert_eq!(
        LetterNote::C(Modifier::Sharp, Octave::Four).to_string(),
        "CSharp(4)"
    );
    assert_eq!(LetterNote::E(Modifier::Natural, Octave::Zero).to_string(), "E(0)");
    assert_eq!(
        NumberNote::Seven(Modifier::DoubleSharp, Octave::MinusOne).to_string(),
        "7Double Sharp(-1)"
    );
}

#[test]
fn error_explanations() {
    assert_eq!(
        NoteError::CannotSharpen(Modifier::DoubleSharp).explanation(),
        "Cannot sharpen a Double Sharp Modifier"
    );
    assert_eq!(
        NoteError::CannotFlatten(Modifier::DoubleFlat).explanation(),
        "Cannot flatten a Double Flat Modifier"
    );
    assert_eq!(
        NoteError::InvalidRoot(LetterNote::D(Modifier::Sharp, Octave::Four)).explanation(),
        "DSharp(4) is not a valid root note"
    );
    assert_eq!(
        NoteError::ReservedModifier(Modifier::DoubleFlat).explanation(),
        "The Double Flat modifier should only ever be returned by transposition, not passed to it"
    );
    assert_eq!(NoteError::InvalidRoot(LetterNote::default()).argument(), None);
}

#[test]
fn samples_map_to_values() {
    assert_eq!(Modifier::from_sample(0), Modifier::DoubleFlat);
    assert_eq!(Modifier::from_sample(2), Modifier::Natural);
    assert_eq!(Modifier::from_sample(200), Modifier::DoubleSharp);
    assert_eq!(Octave::from_sample(0), Octave::MinusOne);
    assert_eq!(Octave::from_sample(10), Octave::Nine);
    assert_eq!(
        NumberNote::from_sample(3, Modifier::Flat, Octave::One),
        NumberNote::Four(Modifier::Flat, Octave::One)
    );
    assert_eq!(
        LetterNote::from_sample(0, Octave::One),
        LetterNote::C(Modifier::Flat, Octave::One)
    );
    assert_eq!(
        LetterNote::from_sample(8, Octave::One),
        LetterNote::F(Modifier::Sharp, Octave::One)
    );
    assert_eq!(
        LetterNote::from_sample(14, Octave::One),
        LetterNote::B(Modifier::Natural, Octave::One)
    );
    let roots = valid_roots();
    for w in roots.windows(2) {
        assert!(w[0] < w[1]);
    }
    assert!(roots.iter().all(|r| r.is_valid_root()));
}

#[test]
fn random_notes_vary_and_are_valid_roots() {
    let notes: Vec<LetterNote> = (0..200).map(|_| LetterNote::random()).collect();
    assert!(notes.iter().all(|n| n.is_valid_root()));
    assert!(notes.iter().any(|n| *n != notes[0]));
    let octaves: Vec<Octave> = (0..200).map(|_| Octave::random()).collect();
    assert!(octaves.iter().any(|o| *o != Octave::Nine));
    let modifiers: Vec<Modifier> = (0..200).map(|_| Modifier::random()).collect();
    assert!(modifiers.iter().any(|m| *m != Modifier::DoubleSharp));
    let intervals: Vec<NumberNote> = (0..200).map(|_| NumberNote::random()).collect();
    assert!(intervals.iter().any(|n| *n != intervals[0]));
}

fn semitones(n: &LetterNote) -> i32 {
    let natural = match n.letter() {
        Letter::C => 0,
        Letter::D => 2,
        Letter::E => 4,
        Letter::F => 5,
        Letter::G => 7,
        Letter::A => 9,
        Letter::B => 11,
    };
    let offset = match n.get_modifier() {
        Modifier::DoubleFlat => -2,
        Modifier::Flat => -1,
        Modifier::Natural => 0,
        Modifier::Sharp => 1,
        Modifier::DoubleSharp => 2,
    };
    natural + offset
}

#[test]
fn every_transposition_sounds_the_major_interval() {
    let major = [0, 2, 4, 5, 7, 9, 11];
    for root in valid_roots() {
        for i in 0u8..7 {
            for (m, k) in [(Modifier::Flat, -1), (Modifier::Natural, 0), (Modifier::Sharp, 1)] {
                let interval = NumberNote::from_sample(i, m, Octave::Four);
                let n = root.try_get_relative_note(interval).unwrap();
                let want = (semitones(&root) + major[i as usize] + k).rem_euclid(12);
                assert_eq!(semitones(&n).rem_euclid(12), want);
            }
        }
    }
}
