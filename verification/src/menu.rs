//! The tray menu: the identifiers of its entries, the preset list it shows,
//! and what a click on an entry asks for.
use crate::config::Config;
use crate::text::{str_eq, strip_prefix};
use vstd::prelude::*;

verus! {

pub const ID_START_PAUSE: &'static str = "start_pause";

pub const ID_SKIP: &'static str = "skip";

pub const ID_RESET: &'static str = "reset";

pub const ID_SETTINGS: &'static str = "settings";

pub const ID_QUIT: &'static str = "quit";

/// The identifiers of the preset entries are this prefix followed by the
/// preset's name.
pub const PRESET_ID_PREFIX: &'static str = "preset:";

/// What a click on a menu entry asks for.
#[derive(Debug, Clone, PartialEq, Eq)]
pub enum MenuCommand {
    StartPause,
    Skip,
    Reset,
    Settings,
    Quit,
    /// Make the named preset the active one.
    SelectPreset(String),
}

/// `c` is what the entry of identifier `id` asks for (`None`: no entry of
/// the menu has that identifier).
pub open spec fn is_command_of(c: Option<MenuCommand>, id: Seq<char>) -> bool {
    if id == ID_START_PAUSE@ {
        c == Some(MenuCommand::StartPause)
    } else if id == ID_SKIP@ {
        c == Some(MenuCommand::Skip)
    } else if id == ID_RESET@ {
        c == Some(MenuCommand::Reset)
    } else if id == ID_SETTINGS@ {
        c == Some(MenuCommand::Settings)
    } else if id == ID_QUIT@ {
        c == Some(MenuCommand::Quit)
    } else if PRESET_ID_PREFIX@.len() <= id.len() && id.subrange(0, PRESET_ID_PREFIX@.len() as int)
        == PRESET_ID_PREFIX@ {
        c matches Some(MenuCommand::SelectPreset(name)) && name@ == id.subrange(
            PRESET_ID_PREFIX@.len() as int,
            id.len() as int,
        )
    } else {
        c is None
    }
}

impl MenuCommand {
    /// Reads the identifier of the clicked entry.
    pub fn from_id(id: &str) -> (c: Option<MenuCommand>)
        ensures
            is_command_of(c, id@),
    {
        if str_eq(id, ID_START_PAUSE) {
            Some(MenuCommand::StartPause)
        } else if str_eq(id, ID_SKIP) {
            Some(MenuCommand::Skip)
        } else if str_eq(id, ID_RESET) {
            Some(MenuCommand::Reset)
        } else if str_eq(id, ID_SETTINGS) {
            Some(MenuCommand::Settings)
        } else if str_eq(id, ID_QUIT) {
            Some(MenuCommand::Quit)
        } else {
            match strip_prefix(id, PRESET_ID_PREFIX) {
                Some(name) => {
                    assert(id@.subrange(0, PRESET_ID_PREFIX@.len() as int) =~= PRESET_ID_PREFIX@);
                    assert(id@.subrange(PRESET_ID_PREFIX@.len() as int, id@.len() as int)
                        =~= name@);
                    Some(MenuCommand::SelectPreset(String::from_str(name)))
                },
                None => None,
            }
        }
    }
}

/// An entry of the menu's preset list.
pub struct PresetEntry {
    pub id: String,
    pub label: String,
    /// The active preset's entry is checked.
    pub checked: bool,
}

/// `e` is the entry of the menu's preset list for the preset at position
/// `i` of `c`.
pub open spec fn is_entry_for(e: PresetEntry, c: Config, i: int) -> bool {
    &&& e.id@ == PRESET_ID_PREFIX@ + c.presets@[i].name@
    &&& e.label@ == c.presets@[i].name@
    &&& e.checked == (c.presets@[i].name@ == c.active_preset@)
}

/// The preset list of the menu: one entry per preset, in order.
pub fn preset_menu_entries(config: &Config) -> (v: Vec<PresetEntry>)
    ensures
        v@.len() == config.presets@.len(),
        forall|i: int| 0 <= i < v@.len() ==> is_entry_for(#[trigger] v@[i], *config, i),
{
    let n: usize = config.presets.len();
    let mut v: Vec<PresetEntry> = Vec::new();
    let mut i: usize = 0;
    while i < n
        invariant
            n == config.presets@.len(),
            i <= n,
            v@.len() == i,
            forall|k: int| 0 <= k < i ==> is_entry_for(#[trigger] v@[k], *config, k),
        decreases n - i,
    {
        let name = &config.presets[i].name;
        let mut id = String::from_str(PRESET_ID_PREFIX);
        id.append(name.as_str());
        let checked = *name == config.active_preset;
        v.push(PresetEntry { id, label: name.clone(), checked });
        i = i + 1;
    }
    v
}

/// The identifiers of the fixed entries differ from each other, and none of
/// them starts like a preset entry's.
pub proof fn lemma_fixed_ids_distinct()
    ensures
        ID_START_PAUSE@ != ID_SKIP@,
        ID_START_PAUSE@ != ID_RESET@,
        ID_START_PAUSE@ != ID_SETTINGS@,
        ID_START_PAUSE@ != ID_QUIT@,
        ID_SKIP@ != ID_RESET@,
        ID_SKIP@ != ID_SETTINGS@,
        ID_SKIP@ != ID_QUIT@,
        ID_RESET@ != ID_SETTINGS@,
        ID_RESET@ != ID_QUIT@,
        ID_SETTINGS@ != ID_QUIT@,
        PRESET_ID_PREFIX@.len() == 7,
        PRESET_ID_PREFIX@[0] == 'p',
        ID_START_PAUSE@[0] != 'p',
        ID_SKIP@[0] != 'p',
        ID_RESET@[0] != 'p',
        ID_SETTINGS@[0] != 'p',
        ID_QUIT@[0] != 'p',
{
    reveal_strlit("start_pause");
    reveal_strlit("skip");
    reveal_strlit("reset");
    reveal_strlit("settings");
    reveal_strlit("quit");
    reveal_strlit("preset:");
    assert(ID_START_PAUSE@[1] != ID_SKIP@[1]);
    assert(ID_START_PAUSE@[1] != ID_SETTINGS@[1]);
    assert(ID_SKIP@[1] != ID_SETTINGS@[1]);
    assert(ID_START_PAUSE@[0] != ID_RESET@[0]);
    assert(ID_START_PAUSE@[0] != ID_QUIT@[0]);
    assert(ID_SKIP@[0] != ID_RESET@[0]);
    assert(ID_SKIP@[0] != ID_QUIT@[0]);
    assert(ID_RESET@[0] != ID_SETTINGS@[0]);
    assert(ID_RESET@[0] != ID_QUIT@[0]);
    assert(ID_SETTINGS@[0] != ID_QUIT@[0]);
}

/// A click on a preset entry of the menu selects exactly that preset,
/// whatever its name.
pub proof fn lemma_preset_entry_selects_its_preset(e: PresetEntry, c: Config, i: int, cmd: Option<
    MenuCommand,
>)
    requires
        0 <= i < c.presets@.len(),
        is_entry_for(e, c, i),
        is_command_of(cmd, e.id@),
    ensures
        cmd matches Some(MenuCommand::SelectPreset(name)) && name@ == c.presets@[i].name@,
{
    lemma_fixed_ids_distinct();
    let id = e.id@;
    assert(id[0] == 'p');
    assert(id.subrange(0, 7) =~= PRESET_ID_PREFIX@);
    assert(id.subrange(7, id.len() as int) =~= c.presets@[i].name@);
}

} // verus!
