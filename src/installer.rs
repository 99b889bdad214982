//! The installer's bookkeeping: where its record lives, what it records, and
//! how recorded paths are found again.
use vstd::prelude::*;
use crate::config::{texts, with_item, Config, InstallationState};
use crate::paths::{join, join_path, BACKUP_SUFFIX};

verus! {

/// Name of the installation record inside the greetd directory.
pub const STATE_FILE_NAME: &'static str = "game-mode-state.json";

/// The installation record on a real system.
pub const SYSTEM_STATE_FILE: &'static str = "/etc/greetd/game-mode-state.json";

/// Where the installation record of `config` lives.
pub open spec fn state_file_for(config: Config) -> Seq<char> {
    if config.paths.virtual_root@.len() > 0 {
        join_path(config.layout().greetd_dir_path(), STATE_FILE_NAME@)
    } else {
        SYSTEM_STATE_FILE@
    }
}

/// `backup` without its backup suffix, when it ends with it.
pub open spec fn original_of(backup: Seq<char>) -> Option<Seq<char>> {
    let n = BACKUP_SUFFIX@.len();
    if backup.len() >= n && backup.subrange(backup.len() - n, backup.len() as int) == BACKUP_SUFFIX@ {
        Some(backup.subrange(0, backup.len() - n))
    } else {
        None
    }
}

/// The installer's state between runs.
#[derive(Debug)]
pub struct Installer {
    state: InstallationState,
    state_file: String,
    config: Config,
}

impl Installer {
    pub closed spec fn spec_state(&self) -> InstallationState {
        self.state
    }

    pub closed spec fn spec_state_file(&self) -> Seq<char> {
        self.state_file@
    }

    pub closed spec fn spec_config(&self) -> Config {
        self.config
    }

    /// Where the installation record of `config` lives.
    pub fn state_file_path(config: &Config) -> (r: String)
        ensures
            r@ == state_file_for(*config),
    {
        if config.is_virtual_mode() {
            let dir = config.get_greetd_dir();
            join(dir.as_str(), STATE_FILE_NAME)
        } else {
            SYSTEM_STATE_FILE.to_owned()
        }
    }

    /// An installer for `config`, resuming from the record `saved` where one
    /// was read, else from a fresh one.
    pub fn new(config: Config, saved: Option<InstallationState>) -> (r: Self)
        ensures
            r.spec_config() == config,
            r.spec_state_file() == state_file_for(config),
            saved is Some ==> r.spec_state() == saved->Some_0,
            saved is None ==> !r.spec_state().installed && !r.spec_state().greeter_user_configured
                && r.spec_state().modified_files@.len() == 0 && r.spec_state().backup_files@.len()
                == 0,
    {
        let state_file = Self::state_file_path(&config);
        let state = match saved {
            Some(s) => s,
            None => InstallationState::new(),
        };
        Installer { state, state_file, config }
    }

    pub fn is_installed(&self) -> (r: bool)
        ensures
            r == self.spec_state().installed,
    {
        self.state.installed
    }

    pub fn state(&self) -> (r: &InstallationState)
        ensures
            *r == self.spec_state(),
    {
        &self.state
    }

    pub fn state_file(&self) -> (r: &String)
        ensures
            r@ == self.spec_state_file(),
    {
        &self.state_file
    }

    pub fn config(&self) -> (r: &Config)
        ensures
            *r == self.spec_config(),
    {
        &self.config
    }

    /// Records a file that the installation wrote, once.
    pub fn record_modified_file(&mut self, path: String)
        ensures
            texts(final(self).spec_state().modified_files@) == with_item(
                texts(old(self).spec_state().modified_files@),
                path@,
            ),
            final(self).spec_state().backup_files == old(self).spec_state().backup_files,
            final(self).spec_state().installed == old(self).spec_state().installed,
            final(self).spec_state().greeter_user_configured == old(
                self,
            ).spec_state().greeter_user_configured,
            final(self).spec_state_file() == old(self).spec_state_file(),
            final(self).spec_config() == old(self).spec_config(),
    {
        self.state.add_modified_file(path);
    }

    /// Records a backup that the installation made, once.
    pub fn record_backup_file(&mut self, path: String)
        ensures
            texts(final(self).spec_state().backup_files@) == with_item(
                texts(old(self).spec_state().backup_files@),
                path@,
            ),
            final(self).spec_state().modified_files == old(self).spec_state().modified_files,
            final(self).spec_state().installed == old(self).spec_state().installed,
            final(self).spec_state().greeter_user_configured == old(
                self,
            ).spec_state().greeter_user_configured,
            final(self).spec_state_file() == old(self).spec_state_file(),
            final(self).spec_config() == old(self).spec_config(),
    {
        self.state.add_backup_file(path);
    }

    /// Notes that the greeter account has been set up.
    pub fn mark_greeter_configured(&mut self)
        ensures
            final(self).spec_state().greeter_user_configured,
            final(self).spec_state().installed == old(self).spec_state().installed,
            final(self).spec_state().modified_files == old(self).spec_state().modified_files,
            final(self).spec_state().backup_files == old(self).spec_state().backup_files,
            final(self).spec_state_file() == old(self).spec_state_file(),
            final(self).spec_config() == old(self).spec_config(),
    {
        self.state.greeter_user_configured = true;
    }

    /// Notes that the installation is complete.
    pub fn mark_installed(&mut self)
        ensures
            final(self).spec_state().installed,
            final(self).spec_state().greeter_user_configured == old(
                self,
            ).spec_state().greeter_user_configured,
            final(self).spec_state().modified_files == old(self).spec_state().modified_files,
            final(self).spec_state().backup_files == old(self).spec_state().backup_files,
            final(self).spec_state_file() == old(self).spec_state_file(),
            final(self).spec_config() == old(self).spec_config(),
    {
        self.state.installed = true;
    }

    /// Where a recorded path is now: below the virtual root in virtual mode,
    /// as recorded otherwise.
    pub fn resolve_recorded_path(&self, path: &String) -> (r: String)
        ensures
            r@ == if self.spec_config().paths.virtual_root@.len() > 0 {
                join_path(self.spec_config().paths.virtual_root@, path@)
            } else {
                path@
            },
    {
        if self.config.is_virtual_mode() {
            join(self.config.paths.virtual_root.as_str(), path.as_str())
        } else {
            path.clone()
        }
    }
}

/// The file that `backup` saved: its path without the backup suffix.
pub fn original_of_backup(backup: &str) -> (r: Option<String>)
    ensures
        r is Some <==> original_of(backup@) is Some,
        r is Some ==> r->Some_0@ == original_of(backup@)->Some_0,
{
    let n = backup.unicode_len();
    let k = BACKUP_SUFFIX.unicode_len();
    if n < k {
        return None;
    }
    let tail = backup.substring_char(n - k, n).to_owned();
    let suffix = BACKUP_SUFFIX.to_owned();
    if tail.eq(&suffix) {
        Some(backup.substring_char(0, n - k).to_owned())
    } else {
        None
    }
}

} // verus!
