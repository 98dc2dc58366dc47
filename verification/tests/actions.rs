use pomodorust::actions::{activate_preset, choose_preset_from_menu, remove_preset};
use pomodorust::config::{Config, Deletion, Preset};
use pomodorust::sound::SoundChoice;
use pomodorust::timer::Timer;

fn two_presets() -> Config {
    Config {
        presets: vec![
            Preset::default_preset(),
            Preset { name: "Court".to_string(), work_min: 15, ..Preset::default_preset() },
        ],
        active_preset: "Classique".to_string(),
        autostart: true,
        notification_sound: SoundChoice::Chime,
    }
}

fn running_timer(c: &Config) -> Timer {
    let mut t = Timer::new();
    t.start_at(c.active_preset(), 0);
    t
}

#[test]
fn choosing_from_the_menu_resets_the_timer() {
    let mut c = two_presets();
    let mut t = running_timer(&c);
    choose_preset_from_menu(&mut c, &mut t, "Court");
    assert_eq!(c.active_preset, "Court");
    assert_eq!(c.active_preset().work_min, 15);
    assert!(t.is_idle());
}

#[test]
fn activating_resets_only_when_done() {
    let mut c = two_presets();
    let mut t = running_timer(&c);
    assert!(!activate_preset(&mut c, &mut t, "Nope"));
    assert!(t.is_running());
    assert_eq!(c.active_preset, "Classique");
    assert!(activate_preset(&mut c, &mut t, "Court"));
    assert!(t.is_idle());
    assert_eq!(c.active_preset, "Court");
}

#[test]
fn removing_the_active_preset_resets_the_timer() {
    let mut c = two_presets();
    let mut t = running_timer(&c);
    assert_eq!(remove_preset(&mut c, &mut t, "Court"), Deletion::Removed);
    assert!(t.is_running());
    assert_eq!(remove_preset(&mut c, &mut t, "Classique"), Deletion::Refused);
    assert!(t.is_running());
    let mut c = two_presets();
    assert_eq!(remove_preset(&mut c, &mut t, "Classique"), Deletion::RemovedActive);
    assert!(t.is_idle());
    assert_eq!(c.active_preset, "Court");
}
