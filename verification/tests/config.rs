use pomodorust::config::{Config, Deletion, Preset, StoredConfig};
use pomodorust::sound::SoundChoice;

fn named_preset(name: &str, work: u32) -> Preset {
    Preset {
        name: name.to_string(),
        work_min: work,
        short_break_min: 5,
        long_break_min: 15,
        cycles_before_long_break: 4,
    }
}

fn config(names: &[&str], active: &str) -> Config {
    Config {
        presets: names.iter().enumerate().map(|(i, n)| named_preset(n, 10 + i as u32)).collect(),
        active_preset: active.to_string(),
        autostart: false,
        notification_sound: SoundChoice::Bell,
    }
}

#[test]
fn default_preset_is_classique() {
    let p = Preset::default_preset();
    assert_eq!(p.name, "Classique");
    assert_eq!((p.work_min, p.short_break_min, p.long_break_min, p.cycles_before_long_break), (25, 5, 15, 4));
}

#[test]
fn default_config() {
    let c = Config::default();
    assert_eq!(c.presets, vec![Preset::default_preset()]);
    assert_eq!(c.active_preset, "Classique");
    assert!(c.autostart);
    assert_eq!(c.notification_sound, SoundChoice::Chime);
}

#[test]
fn active_preset_is_the_first_of_its_name() {
    let c = config(&["A", "B", "B"], "B");
    assert_eq!(c.active_preset().work_min, 11);
    let c = config(&["A", "B"], "Z");
    assert_eq!(c.active_preset().name, "A");
}

#[test]
fn find_preset_gives_the_first_position() {
    let c = config(&["A", "B", "B"], "A");
    assert_eq!(c.find_preset("B"), Some(1));
    assert_eq!(c.find_preset("C"), None);
}

#[test]
fn ensure_valid_fixes_an_empty_list_and_an_unknown_name() {
    let mut c = config(&[], "X");
    c.ensure_valid();
    assert_eq!(c.presets, vec![Preset::default_preset()]);
    assert_eq!(c.active_preset, "Classique");
    let mut c = config(&["A", "B"], "X");
    c.ensure_valid();
    assert_eq!(c.active_preset, "A");
    let mut c = config(&["A", "B"], "B");
    c.ensure_valid();
    assert_eq!(c.active_preset, "B");
    assert_eq!(c.presets.len(), 2);
}

#[test]
fn from_loaded_saves_the_default_only_at_first_launch() {
    let (c, save) = Config::from_loaded(StoredConfig::Missing);
    assert!(save);
    assert_eq!(c, Config::default());
    let (c, save) = Config::from_loaded(StoredConfig::Unusable);
    assert!(!save);
    assert_eq!(c, Config::default());
    let (c, save) = Config::from_loaded(StoredConfig::Parsed(config(&["A"], "Q")));
    assert!(!save);
    assert_eq!(c.active_preset, "A");
    assert_eq!(c.notification_sound, SoundChoice::Bell);
}

#[test]
fn upsert_replaces_or_appends() {
    let mut c = config(&["A", "B"], "A");
    c.upsert_preset(named_preset("B", 99));
    assert_eq!(c.presets.len(), 2);
    assert_eq!(c.presets[1].work_min, 99);
    c.upsert_preset(named_preset("C", 7));
    assert_eq!(c.presets.len(), 3);
    assert_eq!(c.presets[2], named_preset("C", 7));
    assert_eq!(c.active_preset, "A");
    // What was saved is what is found again.
    assert!(c.set_active("C"));
    assert_eq!(c.active_preset(), &named_preset("C", 7));
}

#[test]
fn set_active_needs_an_existing_preset() {
    let mut c = config(&["A", "B"], "A");
    assert!(!c.set_active("Z"));
    assert_eq!(c.active_preset, "A");
    assert!(c.set_active("B"));
    assert_eq!(c.active_preset, "B");
}

#[test]
fn select_preset_sets_the_name() {
    let mut c = config(&["A", "B"], "A");
    c.select_preset("B");
    assert_eq!(c.active_preset, "B");
}

#[test]
fn delete_refuses_the_last_preset() {
    let mut c = config(&["A"], "A");
    assert_eq!(c.delete_preset("A"), Deletion::Refused);
    assert_eq!(c.presets.len(), 1);
}

#[test]
fn delete_keeps_the_others_and_moves_the_active_one() {
    let mut c = config(&["A", "B", "C"], "C");
    assert_eq!(c.delete_preset("B"), Deletion::Removed);
    assert_eq!(c.presets.iter().map(|p| p.name.as_str()).collect::<Vec<_>>(), vec!["A", "C"]);
    assert_eq!(c.active_preset, "C");
    assert_eq!(c.delete_preset("C"), Deletion::RemovedActive);
    assert_eq!(c.active_preset, "A");
    assert_eq!(c.presets.len(), 1);
    // Deleting a name that is not there removes nothing.
    let mut c = config(&["A", "B"], "A");
    assert_eq!(c.delete_preset("Z"), Deletion::Removed);
    assert_eq!(c.presets.len(), 2);
}

#[test]
fn preset_to_show_prefers_the_selection() {
    let c = config(&["A", "B"], "B");
    assert_eq!(c.preset_to_show(Some("A")).name, "A");
    assert_eq!(c.preset_to_show(None).name, "B");
    assert_eq!(c.preset_to_show(Some("Z")).name, "B");
}

#[test]
fn preset_names_must_not_be_empty() {
    assert_eq!(Config::check_preset_name(""), Err("Le nom du préréglage ne peut pas être vide."));
    assert_eq!(Config::check_preset_name("Mine"), Ok(()));
}
