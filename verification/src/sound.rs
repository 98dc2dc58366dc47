//! The notification sound that the user picks, and what is played for it.
use crate::text::str_eq;
use vstd::prelude::*;

verus! {

/// The notification sound: one of three synthesized tones, silence, or an
/// audio file of the user's (`Custom` holds its absolute path).
#[derive(Debug, Clone, PartialEq, Eq)]
pub enum SoundChoice {
    Chime,
    Bell,
    Marimba,
    Silence,
    Custom(String),
}

impl Default for SoundChoice {
    fn default() -> (s: SoundChoice)
        ensures
            s == SoundChoice::Chime,
    {
        SoundChoice::Chime
    }
}

/// The built-in options, in the order of the settings' list (`Custom` has no
/// sensible default and is not among them).
pub open spec fn builtin_choices() -> Seq<SoundChoice> {
    seq![SoundChoice::Chime, SoundChoice::Bell, SoundChoice::Marimba, SoundChoice::Silence]
}

pub open spec fn sound_label(c: SoundChoice) -> Seq<char> {
    match c {
        SoundChoice::Chime => "Carillon"@,
        SoundChoice::Bell => "Cloche"@,
        SoundChoice::Marimba => "Marimba"@,
        SoundChoice::Silence => "Silencieux"@,
        SoundChoice::Custom(_) => "Personnalisé…"@,
    }
}

/// The stable identifier of an option in the settings' list.
pub open spec fn combo_id_of(c: SoundChoice) -> Seq<char> {
    match c {
        SoundChoice::Chime => "chime"@,
        SoundChoice::Bell => "bell"@,
        SoundChoice::Marimba => "marimba"@,
        SoundChoice::Silence => "silence"@,
        SoundChoice::Custom(_) => "custom"@,
    }
}

/// The built-in option whose identifier is `id`, if any.
pub open spec fn builtin_with_id(id: Seq<char>) -> Option<SoundChoice> {
    if id == "chime"@ {
        Some(SoundChoice::Chime)
    } else if id == "bell"@ {
        Some(SoundChoice::Bell)
    } else if id == "marimba"@ {
        Some(SoundChoice::Marimba)
    } else if id == "silence"@ {
        Some(SoundChoice::Silence)
    } else {
        None
    }
}

/// What to play for a notification.
#[derive(Debug, Clone, PartialEq, Eq)]
pub enum Playback {
    Nothing,
    /// Decode and play the audio file at this path.
    File(String),
    /// Two rising or falling notes.
    Chime { rising: bool },
    Bell,
    /// Two short percussive notes, rising or falling.
    Marimba { rising: bool },
}

/// What `play` plays: nothing for silence, the file for a custom sound, the
/// synthesized tone otherwise (the direction counts for the two-note tones
/// only).
pub open spec fn playback_of(c: SoundChoice, rising: bool) -> Playback {
    match c {
        SoundChoice::Silence => Playback::Nothing,
        SoundChoice::Custom(path) => Playback::File(path),
        SoundChoice::Chime => Playback::Chime { rising },
        SoundChoice::Bell => Playback::Bell,
        SoundChoice::Marimba => Playback::Marimba { rising },
    }
}

/// The built-in options.
pub fn builtin() -> (v: Vec<SoundChoice>)
    ensures
        v@ == builtin_choices(),
{
    let v = vec![SoundChoice::Chime, SoundChoice::Bell, SoundChoice::Marimba, SoundChoice::Silence];
    assert(v@ =~= builtin_choices());
    v
}

impl SoundChoice {
    pub fn label(&self) -> (s: &'static str)
        ensures
            s@ == sound_label(*self),
    {
        match self {
            SoundChoice::Chime => "Carillon",
            SoundChoice::Bell => "Cloche",
            SoundChoice::Marimba => "Marimba",
            SoundChoice::Silence => "Silencieux",
            SoundChoice::Custom(_) => "Personnalisé…",
        }
    }

    /// The identifier used in the settings' list (independent of the text
    /// shown, which may change).
    pub fn combo_id(&self) -> (s: &'static str)
        ensures
            s@ == combo_id_of(*self),
    {
        match self {
            SoundChoice::Chime => "chime",
            SoundChoice::Bell => "bell",
            SoundChoice::Marimba => "marimba",
            SoundChoice::Silence => "silence",
            SoundChoice::Custom(_) => "custom",
        }
    }

    /// Resolves the built-in options only: `Custom` needs a path, which the
    /// file chooser supplies.
    pub fn from_builtin_id(id: &str) -> (r: Option<SoundChoice>)
        ensures
            r == builtin_with_id(id@),
    {
        let choices = builtin();
        let n: usize = choices.len();
        let mut i: usize = 0;
        while i < n
            invariant
                n == choices@.len(),
                choices@ == builtin_choices(),
                i <= n,
                forall|k: int| 0 <= k < i ==> combo_id_of(#[trigger] choices@[k]) != id@,
            decreases n - i,
        {
            if str_eq(choices[i].combo_id(), id) {
                proof {
                    lemma_builtin_ids_distinct();
                }
                let found = if i == 0 {
                    SoundChoice::Chime
                } else if i == 1 {
                    SoundChoice::Bell
                } else if i == 2 {
                    SoundChoice::Marimba
                } else {
                    SoundChoice::Silence
                };
                return Some(found);
            }
            i = i + 1;
        }
        proof {
            assert(combo_id_of(choices@[0]) != id@);
            assert(combo_id_of(choices@[1]) != id@);
            assert(combo_id_of(choices@[2]) != id@);
            assert(combo_id_of(choices@[3]) != id@);
        }
        None
    }

    pub fn custom_path(&self) -> (r: Option<&str>)
        ensures
            match *self {
                SoundChoice::Custom(path) => r matches Some(p) && p@ == path@,
                _ => r is None,
            },
    {
        match self {
            SoundChoice::Custom(path) => Some(path.as_str()),
            _ => None,
        }
    }
}

/// What to play for `choice`, the melody rising or falling as `rising` says.
pub fn playback(choice: &SoundChoice, rising: bool) -> (p: Playback)
    ensures
        p == playback_of(*choice, rising),
{
    match choice {
        SoundChoice::Silence => Playback::Nothing,
        SoundChoice::Custom(path) => Playback::File(path.clone()),
        SoundChoice::Chime => Playback::Chime { rising },
        SoundChoice::Bell => Playback::Bell,
        SoundChoice::Marimba => Playback::Marimba { rising },
    }
}

/// The four built-in identifiers differ from each other and from "custom".
pub proof fn lemma_builtin_ids_distinct()
    ensures
        "chime"@ != "bell"@,
        "chime"@ != "marimba"@,
        "chime"@ != "silence"@,
        "chime"@ != "custom"@,
        "bell"@ != "marimba"@,
        "bell"@ != "silence"@,
        "bell"@ != "custom"@,
        "marimba"@ != "silence"@,
        "marimba"@ != "custom"@,
        "silence"@ != "custom"@,
{
    reveal_strlit("chime");
    reveal_strlit("bell");
    reveal_strlit("marimba");
    reveal_strlit("silence");
    reveal_strlit("custom");
    assert("chime"@[0] != "bell"@[0]);
    assert("chime"@[0] != "marimba"@[0]);
    assert("chime"@[0] != "silence"@[0]);
    assert("chime"@[1] != "custom"@[1]);
    assert("bell"@[0] != "marimba"@[0]);
    assert("bell"@[0] != "silence"@[0]);
    assert("bell"@[0] != "custom"@[0]);
    assert("marimba"@[0] != "silence"@[0]);
    assert("marimba"@[0] != "custom"@[0]);
    assert("silence"@[0] != "custom"@[0]);
}

/// Each built-in option is found again from its identifier, and no
/// identifier leads to a custom sound.
pub proof fn lemma_builtin_id_round_trip(c: SoundChoice)
    ensures
        builtin_choices().contains(c) ==> builtin_with_id(combo_id_of(c)) == Some(c),
        !(builtin_with_id(combo_id_of(c)) matches Some(SoundChoice::Custom(_))),
        c is Custom ==> builtin_with_id(combo_id_of(c)) is None,
{
    lemma_builtin_ids_distinct();
    if builtin_choices().contains(c) {
        let i: int = choose|i: int| 0 <= i < builtin_choices().len() && builtin_choices()[i] == c;
        assert(i == 0 || i == 1 || i == 2 || i == 3);
    }
}

/// Silence never plays anything and every other choice plays something;
/// a custom choice plays its own file; the direction of the melody changes
/// only the direction carried by the two-note tones, never which sound is
/// played.
pub proof fn lemma_playback_follows_choice(c: SoundChoice, r1: bool, r2: bool)
    ensures
        (playback_of(c, r1) is Nothing) <==> (c is Silence),
        c matches SoundChoice::Custom(path) ==> playback_of(c, r1) == Playback::File(path),
        (playback_of(c, r1) is File) <==> (c is Custom),
        (playback_of(c, r1) is Chime) <==> (c is Chime),
        (playback_of(c, r1) is Bell) <==> (c is Bell),
        (playback_of(c, r1) is Marimba) <==> (c is Marimba),
        playback_of(c, r1) matches Playback::Chime { rising } ==> rising == r1,
        playback_of(c, r1) matches Playback::Marimba { rising } ==> rising == r1,
        !(c is Chime) && !(c is Marimba) ==> playback_of(c, r1) == playback_of(c, r2),
{
}

} // verus!
