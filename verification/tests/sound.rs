use pomodorust::sound::{builtin, playback, Playback, SoundChoice};

#[test]
fn labels_and_ids() {
    let all = [
        (SoundChoice::Chime, "Carillon", "chime"),
        (SoundChoice::Bell, "Cloche", "bell"),
        (SoundChoice::Marimba, "Marimba", "marimba"),
        (SoundChoice::Silence, "Silencieux", "silence"),
        (SoundChoice::Custom("/a.wav".to_string()), "Personnalisé…", "custom"),
    ];
    for (c, label, id) in all {
        assert_eq!(c.label(), label);
        assert_eq!(c.combo_id(), id);
    }
}

#[test]
fn default_is_chime() {
    assert_eq!(SoundChoice::default(), SoundChoice::Chime);
}

#[test]
fn builtin_ids_round_trip() {
    let b = builtin();
    assert_eq!(b, vec![SoundChoice::Chime, SoundChoice::Bell, SoundChoice::Marimba, SoundChoice::Silence]);
    for c in b {
        assert_eq!(SoundChoice::from_builtin_id(c.combo_id()), Some(c));
    }
    assert_eq!(SoundChoice::from_builtin_id("custom"), None);
    assert_eq!(SoundChoice::from_builtin_id("Chime"), None);
    assert_eq!(SoundChoice::from_builtin_id(""), None);
}

#[test]
fn custom_path_only_for_custom() {
    assert_eq!(SoundChoice::Custom("/x/y.ogg".to_string()).custom_path(), Some("/x/y.ogg"));
    assert_eq!(SoundChoice::Bell.custom_path(), None);
}

#[test]
fn what_is_played() {
    assert_eq!(playback(&SoundChoice::Silence, true), Playback::Nothing);
    assert_eq!(playback(&SoundChoice::Custom("/s.flac".to_string()), false), Playback::File("/s.flac".to_string()));
    assert_eq!(playback(&SoundChoice::Chime, false), Playback::Chime { rising: false });
    assert_eq!(playback(&SoundChoice::Bell, false), Playback::Bell);
    assert_eq!(playback(&SoundChoice::Marimba, true), Playback::Marimba { rising: true });
}
