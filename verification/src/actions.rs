//! The user's changes of preset, which also reset the timer: a session
//! under way belongs to the preset it was started with.
use crate::config::{config_wf, has_named, without_named, Config, Deletion};
use crate::timer::{Timer, TimerState};
use vstd::prelude::*;

verus! {

/// A click on a preset of the tray menu: that preset becomes the active one
/// and the timer goes back to rest.
pub fn choose_preset_from_menu(config: &mut Config, timer: &mut Timer, name: &str)
    ensures
        final(config).active_preset@ == name@,
        final(config).presets == old(config).presets,
        final(config).autostart == old(config).autostart,
        final(config).notification_sound == old(config).notification_sound,
        final(timer)@ == TimerState::Idle,
{
    config.select_preset(name);
    timer.reset();
}

/// "Set as active" in the settings: where a preset has that name it becomes
/// the active one and the timer goes back to rest; otherwise nothing
/// changes. Says whether it happened.
pub fn activate_preset(config: &mut Config, timer: &mut Timer, name: &str) -> (done: bool)
    ensures
        done == has_named(old(config).presets@, name@),
        done ==> final(config).active_preset@ == name@ && final(timer)@ == TimerState::Idle,
        !done ==> *final(config) == *old(config) && final(timer)@ == old(timer)@,
        final(config).presets == old(config).presets,
        config_wf(*old(config)) ==> config_wf(*final(config)),
{
    if config.set_active(name) {
        timer.reset();
        true
    } else {
        false
    }
}

/// "Delete" in the settings: deletes the presets of that name unless only
/// one preset is left; where the active preset went, the timer goes back to
/// rest (and the first remaining preset is active).
pub fn remove_preset(config: &mut Config, timer: &mut Timer, name: &str) -> (d: Deletion)
    requires
        old(config).presets@.len() > 1 ==> exists|i: int|
            0 <= i < old(config).presets@.len() && (#[trigger] old(config).presets@[i]).name@
                != name@,
    ensures
        d == Deletion::Refused ==> *final(config) == *old(config) && final(timer)@ == old(timer)@,
        d == Deletion::Refused <==> old(config).presets@.len() <= 1,
        d != Deletion::Refused ==> final(config).presets@ == without_named(old(config).presets@, name@),
        d == Deletion::RemovedActive <==> (d != Deletion::Refused && old(config).active_preset@ == name@),
        d == Deletion::RemovedActive ==> final(timer)@ == TimerState::Idle
            && final(config).active_preset@ == final(config).presets@[0].name@,
        d == Deletion::Removed ==> final(timer)@ == old(timer)@
            && final(config).active_preset == old(config).active_preset,
        config_wf(*old(config)) ==> config_wf(*final(config)),
{
    let d = config.delete_preset(name);
    if d == Deletion::RemovedActive {
        timer.reset();
    }
    d
}

} // verus!
