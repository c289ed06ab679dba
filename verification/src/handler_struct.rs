//! The state the bot keeps per guild, and the guilds it knows.
use vstd::prelude::*;
use std::collections::HashMap;
use crate::messages::linkmask::{ALinkmaskData, ALinkmaskSettings, LinkmaskSettingsView, initial_linkmask_settings};
use crate::messages::silence::{SilenceSettings, SilenceView, initial_silence};
use crate::messages::scan::ScannerSettings;

verus! {

/// Per guild settings.
pub struct GuildSettings {
    pub has_premium: bool,
    pub lmsettings: ALinkmaskSettings,
    pub silence_settings: SilenceSettings,
    pub scanner_settings: ScannerSettings,
}

/// The abstract content of [`GuildSettings`].
pub ghost struct GuildSettingsView {
    pub has_premium: bool,
    pub lmsettings: LinkmaskSettingsView,
    pub silence_settings: SilenceView,
    pub scanner_active: bool,
}

impl View for GuildSettings {
    type V = GuildSettingsView;

    open spec fn view(&self) -> GuildSettingsView {
        GuildSettingsView {
            has_premium: self.has_premium,
            lmsettings: self.lmsettings@,
            silence_settings: self.silence_settings@,
            scanner_active: self.scanner_settings.active,
        }
    }
}

/// Settings of a guild that has not changed them.
pub open spec fn initial_settings() -> GuildSettingsView {
    GuildSettingsView {
        has_premium: false,
        lmsettings: initial_linkmask_settings(),
        silence_settings: initial_silence(),
        scanner_active: true,
    }
}

impl GuildSettings {
    pub fn new() -> (r: Self)
        ensures
            r@ == initial_settings(),
    {
        GuildSettings {
            has_premium: false,
            lmsettings: ALinkmaskSettings::new(),
            silence_settings: SilenceSettings::new(),
            scanner_settings: ScannerSettings::new(),
        }
    }
}

/// Per guild records.
pub struct GuildData {
    pub lmdata: ALinkmaskData,
}

impl GuildData {
    pub fn new() -> (r: Self)
        ensures
            r.lmdata@ == Map::<u64, i64>::empty(),
    {
        GuildData { lmdata: ALinkmaskData::new() }
    }
}

/// Everything the bot keeps for one guild.
pub struct GuildInstance {
    pub gd: GuildData,
    pub gs: GuildSettings,
}

/// The abstract content of [`GuildInstance`]: the offense counts and the settings.
pub ghost struct GuildView {
    pub offenses: Map<u64, i64>,
    pub settings: GuildSettingsView,
}

impl View for GuildInstance {
    type V = GuildView;

    open spec fn view(&self) -> GuildView {
        GuildView { offenses: self.gd.lmdata@, settings: self.gs@ }
    }
}

/// A guild the bot has just joined: no offenses, settings as
/// [`initial_settings`] says.
pub open spec fn initial_guild() -> GuildView {
    GuildView { offenses: Map::empty(), settings: initial_settings() }
}

impl GuildInstance {
    pub fn new() -> (r: Self)
        ensures
            r@ == initial_guild(),
    {
        GuildInstance { gd: GuildData::new(), gs: GuildSettings::new() }
    }
}

/// The guilds the bot knows, by guild id.
pub struct GuildInstances {
    pub instances: HashMap<u64, GuildInstance>,
}

impl View for GuildInstances {
    type V = Map<u64, GuildView>;

    open spec fn view(&self) -> Map<u64, GuildView> {
        self.instances@.map_values(|g: GuildInstance| g@)
    }
}

impl GuildInstances {
    pub fn new() -> (r: Self)
        ensures
            r@ == Map::<u64, GuildView>::empty(),
    {
        let r = GuildInstances { instances: HashMap::new() };
        assert(r@ =~= Map::<u64, GuildView>::empty());
        r
    }

    /// A guild event: a guild the bot does not know yet starts with the
    /// initial state; a known guild keeps what was kept for it.
    pub fn guild_create(&mut self, guild_id: u64)
        ensures
            final(self)@ == if old(self)@.contains_key(guild_id) {
                old(self)@
            } else {
                old(self)@.insert(guild_id, initial_guild())
            },
    {
        broadcast use vstd::std_specs::hash::group_hash_axioms;

        if !self.instances.contains_key(&guild_id) {
            self.instances.insert(guild_id, GuildInstance::new());
            proof {
                assert(self@ =~= old(self)@.insert(guild_id, initial_guild()));
            }
        }
    }

    /// Takes the record of a known guild out, for a change to it.
    pub(crate) fn take(&mut self, guild_id: u64) -> (inst: GuildInstance)
        requires
            old(self)@.contains_key(guild_id),
        ensures
            inst@ == old(self)@[guild_id],
            final(self)@ == old(self)@.remove(guild_id),
    {
        broadcast use vstd::std_specs::hash::group_hash_axioms;

        let taken = self.instances.remove(&guild_id);
        proof {
            assert(self@ =~= old(self)@.remove(guild_id));
        }
        match taken {
            Some(inst) => inst,
            None => {
                proof {
                    assert(old(self).instances@.contains_key(guild_id));
                }
                GuildInstance::new()
            },
        }
    }

    /// Puts the record of a guild (back) in.
    pub(crate) fn put(&mut self, guild_id: u64, inst: GuildInstance)
        ensures
            final(self)@ == old(self)@.insert(guild_id, inst@),
    {
        broadcast use vstd::std_specs::hash::group_hash_axioms;

        self.instances.insert(guild_id, inst);
        proof {
            assert(self@ =~= old(self)@.insert(guild_id, inst@));
        }
    }

    /// Leaving a guild: everything kept for it is dropped.
    pub fn guild_delete(&mut self, guild_id: u64)
        ensures
            final(self)@ == old(self)@.remove(guild_id),
    {
        broadcast use vstd::std_specs::hash::group_hash_axioms;

        self.instances.remove(&guild_id);
        proof {
            assert(self@ =~= old(self)@.remove(guild_id));
        }
    }
}

} // verus!
