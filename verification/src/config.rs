//! Named presets of durations and the application's configuration.
use crate::sound::SoundChoice;
use vstd::prelude::*;

verus! {

/// A named preset of durations for the timer (durations in minutes).
#[derive(Debug, PartialEq)]
pub struct Preset {
    pub name: String,
    pub work_min: u32,
    pub short_break_min: u32,
    pub long_break_min: u32,
    pub cycles_before_long_break: u32,
}

/// The preset created on first launch: "Classique", 25 / 5 / 15 minutes, a
/// long break every 4 work sessions.
pub open spec fn is_default_preset(p: Preset) -> bool {
    &&& p.name@ == "Classique"@
    &&& p.work_min == 25
    &&& p.short_break_min == 5
    &&& p.long_break_min == 15
    &&& p.cycles_before_long_break == 4
}

impl Clone for Preset {
    fn clone(&self) -> (p: Preset)
        ensures
            p == *self,
    {
        Preset {
            name: self.name.clone(),
            work_min: self.work_min,
            short_break_min: self.short_break_min,
            long_break_min: self.long_break_min,
            cycles_before_long_break: self.cycles_before_long_break,
        }
    }
}

impl Preset {
    pub fn default_preset() -> (p: Preset)
        ensures
            is_default_preset(p),
    {
        Preset {
            name: String::from_str("Classique"),
            work_min: 25,
            short_break_min: 5,
            long_break_min: 15,
            cycles_before_long_break: 4,
        }
    }
}

/// The whole configuration of the application.
#[derive(Debug, Clone, PartialEq)]
pub struct Config {
    pub presets: Vec<Preset>,
    pub active_preset: String,
    pub autostart: bool,
    pub notification_sound: SoundChoice,
}

/// Whether some preset of `ps` is named `name`.
pub open spec fn has_named(ps: Seq<Preset>, name: Seq<char>) -> bool {
    exists|i: int| 0 <= i < ps.len() && (#[trigger] ps[i]).name@ == name
}

/// `j` is the first position of `ps` whose preset is named `name`.
pub open spec fn first_named(ps: Seq<Preset>, name: Seq<char>, j: int) -> bool {
    &&& 0 <= j < ps.len()
    &&& ps[j].name@ == name
    &&& forall|k: int| 0 <= k < j ==> (#[trigger] ps[k]).name@ != name
}

/// The presets of `ps` whose name is not `name`, in their order.
pub open spec fn without_named(ps: Seq<Preset>, name: Seq<char>) -> Seq<Preset>
    decreases ps.len(),
{
    if ps.len() == 0 {
        seq![]
    } else {
        let rest = without_named(ps.drop_last(), name);
        if ps.last().name@ == name {
            rest
        } else {
            rest.push(ps.last())
        }
    }
}

/// A configuration is sound when it has a preset and its active preset
/// names one of them.
pub open spec fn config_wf(c: Config) -> bool {
    &&& c.presets@.len() > 0
    &&& has_named(c.presets@, c.active_preset@)
}

/// `c2` is `c` made valid: an empty list of presets gets the default
/// preset, and an active name that no preset has is replaced by the first
/// preset's; nothing else changes.
pub open spec fn is_made_valid(c: Config, c2: Config) -> bool {
    &&& c.presets@.len() > 0 ==> c2.presets@ == c.presets@
    &&& c.presets@.len() == 0 ==> c2.presets@.len() == 1 && is_default_preset(c2.presets@[0])
    &&& has_named(c2.presets@, c.active_preset@) ==> c2.active_preset@ == c.active_preset@
    &&& !has_named(c2.presets@, c.active_preset@) ==> c2.active_preset@ == c2.presets@[0].name@
    &&& c2.autostart == c.autostart
    &&& c2.notification_sound == c.notification_sound
}

/// The preset that `active_preset` returns: the first one named after the
/// active preset, or the first preset where none is.
pub open spec fn active_preset_of(c: Config) -> Preset
    recommends
        c.presets@.len() > 0,
{
    if has_named(c.presets@, c.active_preset@) {
        c.presets@[choose|j: int| first_named(c.presets@, c.active_preset@, j)]
    } else {
        c.presets@[0]
    }
}

/// What was found of the configuration file on disk.
#[derive(Debug, Clone, PartialEq)]
pub enum StoredConfig {
    /// No file exists yet (the first launch).
    Missing,
    /// A file exists but could not be read or parsed.
    Unusable,
    /// The file's configuration, as parsed.
    Parsed(Config),
}

/// The outcome of a request to delete a preset.
#[derive(Debug, Clone, Copy, PartialEq, Eq, Structural)]
pub enum Deletion {
    /// The last preset is never deleted: nothing changed.
    Refused,
    /// The presets of that name are gone; the active preset is unchanged.
    Removed,
    /// The presets of that name are gone, the active one among them: the
    /// first remaining preset is now active.
    RemovedActive,
}

/// The first position is unique.
pub proof fn lemma_first_named_unique(ps: Seq<Preset>, name: Seq<char>, a: int, b: int)
    requires
        first_named(ps, name, a),
        first_named(ps, name, b),
    ensures
        a == b,
{
    if a < b {
        assert(ps[a].name@ != name);
    } else if b < a {
        assert(ps[b].name@ != name);
    }
}

/// A preset is kept by `without_named` exactly when its name differs.
pub proof fn lemma_without_named_members(ps: Seq<Preset>, name: Seq<char>)
    ensures
        forall|i: int|
            0 <= i < without_named(ps, name).len() ==> (#[trigger] without_named(ps, name)[i]).name@
                != name,
        forall|i: int|
            0 <= i < ps.len() && (#[trigger] ps[i]).name@ != name ==> without_named(
                ps,
                name,
            ).contains(ps[i]),
        without_named(ps, name).len() <= ps.len(),
    decreases ps.len(),
{
    if ps.len() > 0 {
        let init = ps.drop_last();
        lemma_without_named_members(init, name);
        assert forall|i: int| 0 <= i < ps.len() && (#[trigger] ps[i]).name@ != name implies without_named(
            ps,
            name,
        ).contains(ps[i]) by {
            if i < ps.len() - 1 {
                assert(init[i] == ps[i]);
                let w = without_named(init, name);
                let j: int = choose|j: int| 0 <= j < w.len() && w[j] == init[i];
                if ps.last().name@ != name {
                    assert(w.push(ps.last())[j] == ps[i]);
                }
            } else {
                assert(without_named(ps, name) == without_named(init, name).push(ps.last()));
                assert(without_named(ps, name)[without_named(init, name).len() as int] == ps[i]);
            }
        }
    }
}

impl Default for Config {
    /// One preset, the default one, active; autostart on; the chime.
    fn default() -> (c: Config)
        ensures
            c.presets@.len() == 1,
            is_default_preset(c.presets@[0]),
            c.active_preset@ == "Classique"@,
            c.autostart,
            c.notification_sound == SoundChoice::Chime,
    {
        let preset = Preset::default_preset();
        let active = preset.name.clone();
        let mut presets = Vec::new();
        presets.push(preset);
        Config {
            active_preset: active,
            presets,
            autostart: true,
            notification_sound: SoundChoice::default(),
        }
    }
}

impl Config {
    /// A preset's name may not be empty (the name is taken trimmed of
    /// surrounding white space).
    pub fn check_preset_name(name: &str) -> (r: Result<(), &'static str>)
        ensures
            r is Err <==> name@.len() == 0,
            r matches Err(msg) ==> msg@ == "Le nom du préréglage ne peut pas être vide."@,
    {
        if name.unicode_len() == 0 {
            Err("Le nom du préréglage ne peut pas être vide.")
        } else {
            Ok(())
        }
    }

    /// The position of the first preset named `name`.
    pub fn find_preset(&self, name: &str) -> (r: Option<usize>)
        ensures
            r matches Some(j) ==> first_named(self.presets@, name@, j as int),
            r is None <==> !has_named(self.presets@, name@),
    {
        let target = String::from_str(name);
        let n: usize = self.presets.len();
        let mut i: usize = 0;
        while i < n
            invariant
                n == self.presets@.len(),
                target@ == name@,
                i <= n,
                forall|k: int| 0 <= k < i ==> (#[trigger] self.presets@[k]).name@ != name@,
            decreases n - i,
        {
            if self.presets[i].name == target {
                return Some(i);
            }
            i = i + 1;
        }
        None
    }

    /// The active preset: the first one named after `active_preset`, or the
    /// first preset where none is.
    pub fn active_preset(&self) -> (p: &Preset)
        requires
            self.presets@.len() > 0,
        ensures
            *p == active_preset_of(*self),
    {
        match self.find_preset(self.active_preset.as_str()) {
            Some(j) => {
                proof {
                    let c: int = choose|j: int| first_named(self.presets@, self.active_preset@, j);
                    lemma_first_named_unique(self.presets@, self.active_preset@, c, j as int);
                }
                &self.presets[j]
            },
            None => &self.presets[0],
        }
    }

    /// Makes sure that there is a preset and that the active preset names
    /// one: an empty list gets the default preset, and an unknown active
    /// name is replaced by the first preset's.
    pub fn ensure_valid(&mut self)
        ensures
            is_made_valid(*old(self), *final(self)),
            config_wf(*final(self)),
    {
        if self.presets.len() == 0 {
            self.presets.push(Preset::default_preset());
        }
        if self.find_preset(self.active_preset.as_str()).is_none() {
            self.active_preset = self.presets[0].name.clone();
            assert(self.presets@[0].name@ == self.active_preset@);
        }
    }

    /// The configuration to run with, from what was found on disk: a parsed
    /// configuration made valid, or the default one where there was none to
    /// use. The flag says whether to write it back, which is so only when no
    /// file existed yet: a file that cannot be used is left as it is.
    pub fn from_loaded(stored: StoredConfig) -> (r: (Config, bool))
        ensures
            config_wf(r.0),
            r.1 == (stored is Missing),
            !(stored is Parsed) ==> r.0.presets@.len() == 1 && is_default_preset(r.0.presets@[0])
                && r.0.active_preset@ == "Classique"@ && r.0.autostart && r.0.notification_sound
                == SoundChoice::Chime,
            stored matches StoredConfig::Parsed(c) ==> is_made_valid(c, r.0),
    {
        match stored {
            StoredConfig::Parsed(mut cfg) => {
                cfg.ensure_valid();
                (cfg, false)
            },
            StoredConfig::Missing | StoredConfig::Unusable => {
                let cfg = Config::default();
                proof {
                    reveal_strlit("Classique");
                    assert(cfg.presets@[0].name@ == cfg.active_preset@);
                }
                let missing = matches!(stored, StoredConfig::Missing);
                (cfg, missing)
            },
        }
    }

    /// Saves `preset`: it replaces the first preset of the same name, or is
    /// added at the end where there is none.
    pub fn upsert_preset(&mut self, preset: Preset)
        ensures
            final(self).presets@ == upserted(old(self).presets@, preset),
            final(self).active_preset == old(self).active_preset,
            final(self).autostart == old(self).autostart,
            final(self).notification_sound == old(self).notification_sound,
            config_wf(*old(self)) ==> config_wf(*final(self)),
            has_named(final(self).presets@, preset.name@),
    {
        let ghost old_ps = self.presets@;
        match self.find_preset(preset.name.as_str()) {
            Some(j) => {
                self.presets.set(j, preset);
                assert(self.presets@[j as int].name@ == preset.name@);
                proof {
                    let c: int = choose|c: int| first_named(old_ps, preset.name@, c);
                    lemma_first_named_unique(old_ps, preset.name@, c, j as int);
                }
                proof {
                    if config_wf(*old(self)) {
                        let k: int = choose|k: int|
                            0 <= k < old_ps.len() && (#[trigger] old_ps[k]).name@
                                == self.active_preset@;
                        if k == j {
                            assert(self.presets@[k].name@ == self.active_preset@);
                        } else {
                            assert(self.presets@[k] == old_ps[k]);
                        }
                    }
                }
            },
            None => {
                self.presets.push(preset);
                assert(self.presets@[old_ps.len() as int] == preset);
                proof {
                    if config_wf(*old(self)) {
                        let k: int = choose|k: int|
                            0 <= k < old_ps.len() && (#[trigger] old_ps[k]).name@
                                == self.active_preset@;
                        assert(self.presets@[k] == old_ps[k]);
                    }
                }
            },
        }
    }

    /// Makes the preset named `name` the active one, if there is such a
    /// preset; says whether it did (the timer is then to be reset).
    pub fn set_active(&mut self, name: &str) -> (done: bool)
        ensures
            done == has_named(old(self).presets@, name@),
            done ==> final(self).active_preset@ == name@,
            !done ==> final(self).active_preset == old(self).active_preset,
            final(self).presets == old(self).presets,
            final(self).autostart == old(self).autostart,
            final(self).notification_sound == old(self).notification_sound,
            config_wf(*old(self)) ==> config_wf(*final(self)),
    {
        if self.find_preset(name).is_none() {
            return false;
        }
        self.active_preset = String::from_str(name);
        true
    }

    /// Makes `name` the active preset, as the tray menu's preset list does
    /// (its entries name the presets that exist).
    pub fn select_preset(&mut self, name: &str)
        ensures
            final(self).active_preset@ == name@,
            final(self).presets == old(self).presets,
            final(self).autostart == old(self).autostart,
            final(self).notification_sound == old(self).notification_sound,
            has_named(old(self).presets@, name@) ==> (config_wf(*final(self)) <==> old(self).presets@.len() > 0),
    {
        self.active_preset = String::from_str(name);
    }

    /// Deletes the presets named `name`, unless only one preset is left.
    /// Where the active preset was deleted, the first remaining one becomes
    /// active.
    pub fn delete_preset(&mut self, name: &str) -> (d: Deletion)
        requires
            old(self).presets@.len() > 1 ==> exists|i: int|
                0 <= i < old(self).presets@.len() && (#[trigger] old(self).presets@[i]).name@
                    != name@,
        ensures
            old(self).presets@.len() <= 1 ==> d == Deletion::Refused && *final(self) == *old(self),
            old(self).presets@.len() > 1 ==> {
                &&& final(self).presets@ == without_named(old(self).presets@, name@)
                &&& final(self).presets@.len() > 0
                &&& old(self).active_preset@ == name@ ==> d == Deletion::RemovedActive
                    && final(self).active_preset@ == final(self).presets@[0].name@
                &&& old(self).active_preset@ != name@ ==> d == Deletion::Removed
                    && final(self).active_preset == old(self).active_preset
            },
            final(self).autostart == old(self).autostart,
            final(self).notification_sound == old(self).notification_sound,
            config_wf(*old(self)) ==> config_wf(*final(self)),
    {
        if self.presets.len() <= 1 {
            return Deletion::Refused;
        }
        let ghost old_ps = self.presets@;
        let target = String::from_str(name);
        let n: usize = self.presets.len();
        let mut kept: Vec<Preset> = Vec::new();
        let mut i: usize = 0;
        while i < n
            invariant
                n == old_ps.len(),
                self.presets@ == old_ps,
                target@ == name@,
                i <= n,
                kept@ == without_named(old_ps.take(i as int), name@),
            decreases n - i,
        {
            assert(old_ps.take(i + 1).drop_last() =~= old_ps.take(i as int));
            assert(old_ps.take(i + 1).last() == old_ps[i as int]);
            if !(self.presets[i].name == target) {
                kept.push(self.presets[i].clone());
            }
            i = i + 1;
        }
        assert(old_ps.take(n as int) =~= old_ps);
        proof {
            lemma_without_named_members(old_ps, name@);
            let w: int = choose|w: int| 0 <= w < old_ps.len() && (#[trigger] old_ps[w]).name@ != name@;
            assert(kept@.contains(old_ps[w]));
        }
        self.presets = kept;
        let active_gone = self.active_preset == target;
        if active_gone {
            self.active_preset = self.presets[0].name.clone();
            assert(self.presets@[0].name@ == self.active_preset@);
            Deletion::RemovedActive
        } else {
            proof {
                if config_wf(*old(self)) {
                    let k: int = choose|k: int|
                        0 <= k < old_ps.len() && (#[trigger] old_ps[k]).name@
                            == self.active_preset@;
                    assert(self.presets@.contains(old_ps[k]));
                    let m: int = choose|m: int|
                        0 <= m < self.presets@.len() && self.presets@[m] == old_ps[k];
                    assert(self.presets@[m].name@ == self.active_preset@);
                }
            }
            Deletion::Removed
        }
    }

    /// The preset to show in the settings: the first one named `select`
    /// where given, else the first one named after the active preset; the
    /// active preset where there is none of that name.
    pub fn preset_to_show(&self, select: Option<&str>) -> (p: &Preset)
        requires
            self.presets@.len() > 0,
        ensures
            ({
                let name = match select {
                    Some(s) => s@,
                    None => self.active_preset@,
                };
                if has_named(self.presets@, name) {
                    exists|j: int| first_named(self.presets@, name, j) && *p == self.presets@[j]
                } else {
                    *p == active_preset_of(*self)
                }
            }),
    {
        let name = match select {
            Some(s) => s,
            None => self.active_preset.as_str(),
        };
        match self.find_preset(name) {
            Some(j) => &self.presets[j],
            None => self.active_preset(),
        }
    }
}

/// No two presets share a name.
pub open spec fn names_unique(ps: Seq<Preset>) -> bool {
    forall|i: int, j: int|
        0 <= i < ps.len() && 0 <= j < ps.len() && i != j ==> (#[trigger] ps[i]).name@ != (
        #[trigger] ps[j]).name@
}

/// The presets after saving `p` (as `upsert_preset` does).
pub open spec fn upserted(ps: Seq<Preset>, p: Preset) -> Seq<Preset> {
    if has_named(ps, p.name@) {
        ps.update(choose|j: int| first_named(ps, p.name@, j), p)
    } else {
        ps.push(p)
    }
}

/// In a sound configuration the active preset is the one named after it.
pub proof fn lemma_active_preset_is_named(c: Config)
    requires
        config_wf(c),
    ensures
        active_preset_of(c).name@ == c.active_preset@,
        c.presets@.contains(active_preset_of(c)),
{
    let k: int = choose|k: int| 0 <= k < c.presets@.len() && (#[trigger] c.presets@[k]).name@ == c.active_preset@;
    lemma_has_named_first(c.presets@, c.active_preset@, k);
}

/// Where some preset has a name, a first one has it.
pub proof fn lemma_has_named_first(ps: Seq<Preset>, name: Seq<char>, k: int)
    requires
        0 <= k < ps.len(),
        ps[k].name@ == name,
    ensures
        exists|j: int| first_named(ps, name, j),
    decreases k,
{
    if exists|m: int| 0 <= m < k && (#[trigger] ps[m]).name@ == name {
        let m: int = choose|m: int| 0 <= m < k && (#[trigger] ps[m]).name@ == name;
        lemma_has_named_first(ps, name, m);
    } else {
        assert(first_named(ps, name, k));
    }
}

/// Saving a preset and looking it up by name finds what was saved; saving
/// keeps the names unique, and the list grows only by a new name.
pub proof fn lemma_saved_preset_is_found(ps: Seq<Preset>, p: Preset)
    ensures
        exists|j: int| first_named(upserted(ps, p), p.name@, j),
        forall|j: int| first_named(upserted(ps, p), p.name@, j) ==> upserted(ps, p)[j] == p,
        names_unique(ps) ==> names_unique(upserted(ps, p)),
        upserted(ps, p).len() == ps.len() + (if has_named(ps, p.name@) {
            0int
        } else {
            1int
        }),
{
    let qs = upserted(ps, p);
    if has_named(ps, p.name@) {
        let k: int = choose|k: int| 0 <= k < ps.len() && (#[trigger] ps[k]).name@ == p.name@;
        lemma_has_named_first(ps, p.name@, k);
        let j: int = choose|j: int| first_named(ps, p.name@, j);
        assert(first_named(qs, p.name@, j));
        assert forall|m: int| first_named(qs, p.name@, m) implies qs[m] == p by {
            lemma_first_named_unique(qs, p.name@, m, j);
        }
        if names_unique(ps) {
            assert forall|a: int, b: int|
                0 <= a < qs.len() && 0 <= b < qs.len() && a != b implies (#[trigger] qs[a]).name@ != (
            #[trigger] qs[b]).name@ by {
                if a == j {
                    assert(ps[j].name@ == p.name@);
                    assert(ps[b].name@ != ps[j].name@);
                } else if b == j {
                    assert(ps[a].name@ != ps[j].name@);
                }
            }
        }
    } else {
        assert(qs[ps.len() as int] == p);
        lemma_has_named_first(qs, p.name@, ps.len() as int);
        assert forall|m: int| first_named(qs, p.name@, m) implies qs[m] == p by {
            if m < ps.len() {
                assert(ps[m].name@ == p.name@);
            }
        }
        if names_unique(ps) {
            assert forall|a: int, b: int|
                0 <= a < qs.len() && 0 <= b < qs.len() && a != b implies (#[trigger] qs[a]).name@ != (
            #[trigger] qs[b]).name@ by {
                if a == ps.len() {
                    assert(qs[b] == ps[b]);
                } else if b == ps.len() {
                    assert(qs[a] == ps[a]);
                }
            }
        }
    }
}

/// Deleting a preset removes every preset of that name and keeps the
/// others; in a configuration of more than one preset with unique names, it
/// can always be done and leaves a sound configuration whose active preset
/// was kept, or is the first remaining one.
pub proof fn lemma_delete_keeps_others(ps: Seq<Preset>, name: Seq<char>)
    ensures
        !has_named(without_named(ps, name), name),
        forall|i: int| 0 <= i < ps.len() && (#[trigger] ps[i]).name@ != name ==> without_named(ps, name).contains(ps[i]),
        names_unique(ps) && ps.len() > 1 ==> exists|i: int| 0 <= i < ps.len() && (#[trigger] ps[i]).name@ != name,
{
    lemma_without_named_members(ps, name);
    if names_unique(ps) && ps.len() > 1 {
        if ps[0].name@ == name {
            assert(ps[1].name@ != ps[0].name@);
        }
    }
}

} // verus!
