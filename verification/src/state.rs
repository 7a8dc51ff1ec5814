//! The store of the configuration: the one place where it is kept and
//! changed, and from which every reader gets a copy of its own.

use crate::config::app_config::{first_index, sources_wf, Platform, SourceView, SourcesConfig};
use crate::platform_ops::{with_change, with_platform_data, PlatformChange};
use vstd::prelude::*;

verus! {

/// Keeps the configuration and the path of the document that it is saved to.
pub struct StateManager {
    state: SourcesConfig,
    config_path: String,
}

/// What an update of the store hands back: whether the change could be
/// made, and the configuration after it, to be published to those who listen.
pub struct StateUpdate {
    /// `None` where the platform has no entry; else whether the change
    /// could be made in full.
    pub done: Option<bool>,
    /// A copy of the configuration as it is after the update.
    pub snapshot: SourcesConfig,
}

impl View for StateManager {
    type V = Seq<SourceView>;

    closed spec fn view(&self) -> Seq<SourceView> {
        self.state@
    }
}

impl StateManager {
    /// The path of the document that the configuration is saved to.
    pub closed spec fn path(&self) -> Seq<char> {
        self.config_path@
    }

    /// Creates a store that holds `state`, to be saved at `config_path`.
    pub fn new(config_path: String, state: SourcesConfig) -> (manager: Self)
        ensures
            manager@ == state@,
            manager.path() == config_path@,
    {
        StateManager { state, config_path }
    }

    /// Returns a copy of the configuration as it is now.
    pub fn get_state(&self) -> (snapshot: SourcesConfig)
        ensures
            snapshot@ == self@,
    {
        self.state.clone()
    }

    /// Returns the path of the document that the configuration is saved to.
    pub fn config_path(&self) -> (path: &str)
        ensures
            path@ == self.path(),
    {
        self.config_path.as_str()
    }

    /// Makes `change` to the first entry for `platform`, in full or not at
    /// all, and hands back a copy of the configuration as it is afterwards.
    /// The copy is taken in the same step as the change: it shows this
    /// change and nothing later.
    pub fn update_state(&mut self, platform: Platform, change: &PlatformChange) -> (update:
        StateUpdate)
        ensures
            ({
                let i = first_index(old(self)@, platform);
                if i == old(self)@.len() {
                    update.done == None::<bool> && final(self)@ == old(self)@
                } else {
                    &&& update.done == Some(change@.fits(old(self)@[i].config))
                    &&& final(self)@ == with_change(old(self)@, i, change@)
                    &&& !change@.fits(old(self)@[i].config) ==> final(self)@ == old(self)@
                }
            }),
            update.snapshot@ == final(self)@,
            final(self).path() == old(self).path(),
            sources_wf(old(self)@) ==> sources_wf(final(self)@),
    {
        let done = with_platform_data(&mut self.state, platform, change);
        StateUpdate { done, snapshot: self.state.clone() }
    }
}

} // verus!
