//! The daemon's settings, fixed when it is built, and the record of what an
//! installation changed.
use vstd::prelude::*;
use crate::paths::{join_path, PathManager, PathManagerView};

verus! {

pub const GREETD_DIR: &'static str = "/etc/greetd";
pub const CONFIG_FILE: &'static str = "config.toml";
pub const GAME_MODE_CONFIG: &'static str = "game_mode_login.toml";
pub const GREETER_USER: &'static str = "greeter";
pub const INPUT_GROUP: &'static str = "input";
pub const VIDEO_GROUP: &'static str = "video";
pub const VT_NUMBER: u32 = 1;

pub const SERVICE_NAME: &'static str = "greetd";
pub const RESTART_COMMAND: &'static str = "systemctl restart greetd";
pub const SERVICE_DEPENDENCY: &'static str = "greetd.service";

pub const DEBUG_MODE: bool = true;

pub const SERVICE_FILE: &'static str = "game-mode.service";
pub const LOGS_DIR: &'static str = "logs";
pub const SUDOERS_PATH: &'static str = "/etc/sudoers.d/greeter-greetd";
pub const SYSTEMD_SERVICE_PATH: &'static str = "/etc/systemd/system/game-mode.service";
pub const BINARY_PATH: &'static str = "/usr/local/bin/game-mode";

pub open spec fn texts(v: Seq<String>) -> Seq<Seq<char>> {
    v.map_values(|s: String| s@)
}

/// `v` with `item` at its end, unless it is there already.
pub open spec fn with_item(v: Seq<Seq<char>>, item: Seq<char>) -> Seq<Seq<char>> {
    if v.contains(item) {
        v
    } else {
        v.push(item)
    }
}

/// What an installation changed, so that it can be undone.
#[derive(Debug)]
pub struct InstallationState {
    pub installed: bool,
    pub modified_files: Vec<String>,
    pub backup_files: Vec<String>,
    pub greeter_user_configured: bool,
}

fn contains_text(v: &Vec<String>, item: &String) -> (r: bool)
    ensures
        r == texts(v@).contains(item@),
{
    let mut i: usize = 0;
    while i < v.len()
        invariant
            i <= v.len(),
            forall|k: int| 0 <= k < i ==> v@[k]@ != item@,
        decreases v.len() - i,
    {
        if v[i].eq(item) {
            assert(texts(v@)[i as int] == item@);
            return true;
        }
        i = i + 1;
    }
    proof {
        if texts(v@).contains(item@) {
            let k = choose|k: int| 0 <= k < texts(v@).len() && texts(v@)[k] == item@;
            assert(v@[k]@ == item@);
        }
    }
    false
}

fn push_unique(v: &mut Vec<String>, item: String)
    ensures
        texts(final(v)@) == with_item(texts(old(v)@), item@),
        texts(old(v)@).no_duplicates() ==> texts(final(v)@).no_duplicates(),
{
    if !contains_text(v, &item) {
        let ghost before = texts(v@);
        v.push(item);
        assert(texts(v@) =~= before.push(item@));
    }
}

impl InstallationState {
    /// Nothing installed, nothing recorded.
    pub fn new() -> (r: Self)
        ensures
            !r.installed,
            !r.greeter_user_configured,
            r.modified_files@.len() == 0,
            r.backup_files@.len() == 0,
    {
        InstallationState {
            installed: false,
            modified_files: Vec::new(),
            backup_files: Vec::new(),
            greeter_user_configured: false,
        }
    }

    /// Records a file that the installation wrote, once.
    pub fn add_modified_file(&mut self, path: String)
        ensures
            texts(final(self).modified_files@) == with_item(texts(old(self).modified_files@), path@),
            texts(old(self).modified_files@).no_duplicates() ==> texts(
                final(self).modified_files@,
            ).no_duplicates(),
            final(self).backup_files == old(self).backup_files,
            final(self).installed == old(self).installed,
            final(self).greeter_user_configured == old(self).greeter_user_configured,
    {
        push_unique(&mut self.modified_files, path);
    }

    /// Records a backup that the installation made, once.
    pub fn add_backup_file(&mut self, path: String)
        ensures
            texts(final(self).backup_files@) == with_item(texts(old(self).backup_files@), path@),
            texts(old(self).backup_files@).no_duplicates() ==> texts(
                final(self).backup_files@,
            ).no_duplicates(),
            final(self).modified_files == old(self).modified_files,
            final(self).installed == old(self).installed,
            final(self).greeter_user_configured == old(self).greeter_user_configured,
    {
        push_unique(&mut self.backup_files, path);
    }
}

/// Where the files live. A non-empty `virtual_root` puts them all below it.
#[derive(Debug)]
pub struct Paths {
    pub virtual_root: String,
    pub greetd_dir: String,
    pub config_file: String,
    pub game_mode_config: String,
}

/// The login service.
#[derive(Debug)]
pub struct Service {
    pub name: String,
    pub restart_command: String,
    pub dependency: String,
}

#[derive(Debug)]
pub struct GameMode {
    pub debug: bool,
}

/// The greeter's account and the groups it needs to read the controller.
#[derive(Debug)]
pub struct Permissions {
    pub greeter_user: String,
    pub required_groups: Vec<String>,
}

/// The virtual terminal that the greeter runs on.
#[derive(Debug)]
pub struct Terminal {
    pub vt: u32,
}

/// The daemon's settings.
#[derive(Debug)]
pub struct Config {
    pub paths: Paths,
    pub service: Service,
    pub game_mode: GameMode,
    pub permissions: Permissions,
    pub terminal: Terminal,
}

impl Config {
    /// Where the files live, as the path getters resolve them.
    pub open spec fn layout(&self) -> PathManagerView {
        PathManagerView {
            root: self.paths.virtual_root@,
            greetd_dir: self.paths.greetd_dir@,
            config_file: self.paths.config_file@,
            game_mode_config: self.paths.game_mode_config@,
        }
    }

    fn path_manager(&self) -> (r: PathManager)
        ensures
            r@ == self.layout(),
    {
        PathManager::new(
            self.paths.virtual_root.as_str(),
            self.paths.greetd_dir.as_str(),
            self.paths.config_file.as_str(),
            self.paths.game_mode_config.as_str(),
        )
    }

    /// The built-in settings, on the real system (no virtual root).
    pub fn load() -> (r: Self)
        ensures
            r.paths.virtual_root@.len() == 0,
            r.paths.greetd_dir@ == GREETD_DIR@,
            r.paths.config_file@ == CONFIG_FILE@,
            r.paths.game_mode_config@ == GAME_MODE_CONFIG@,
            r.service.name@ == SERVICE_NAME@,
            r.service.restart_command@ == RESTART_COMMAND@,
            r.service.dependency@ == SERVICE_DEPENDENCY@,
            r.game_mode.debug == DEBUG_MODE,
            r.permissions.greeter_user@ == GREETER_USER@,
            texts(r.permissions.required_groups@) == seq![INPUT_GROUP@, VIDEO_GROUP@],
            r.terminal.vt == VT_NUMBER,
    {
        let groups = vec![INPUT_GROUP.to_owned(), VIDEO_GROUP.to_owned()];
        assert(texts(groups@) =~= seq![INPUT_GROUP@, VIDEO_GROUP@]);
        let virtual_root = String::new();
        Config {
            paths: Paths {
                virtual_root,
                greetd_dir: GREETD_DIR.to_owned(),
                config_file: CONFIG_FILE.to_owned(),
                game_mode_config: GAME_MODE_CONFIG.to_owned(),
            },
            service: Service {
                name: SERVICE_NAME.to_owned(),
                restart_command: RESTART_COMMAND.to_owned(),
                dependency: SERVICE_DEPENDENCY.to_owned(),
            },
            game_mode: GameMode { debug: DEBUG_MODE },
            permissions: Permissions { greeter_user: GREETER_USER.to_owned(), required_groups: groups },
            terminal: Terminal { vt: VT_NUMBER },
        }
    }

    pub fn is_virtual_mode(&self) -> (r: bool)
        ensures
            r == (self.paths.virtual_root@.len() > 0),
    {
        !self.paths.virtual_root.as_str().is_empty()
    }

    pub fn get_greetd_dir(&self) -> (r: String)
        ensures
            r@ == self.layout().greetd_dir_path(),
    {
        self.path_manager().get_greetd_dir()
    }

    pub fn get_config_path(&self) -> (r: String)
        ensures
            r@ == self.layout().config_path(),
    {
        self.path_manager().get_config_path()
    }

    pub fn get_default_config_path(&self) -> (r: String)
        ensures
            r@ == self.layout().default_config_path(),
    {
        self.path_manager().get_default_config_path()
    }

    pub fn get_game_mode_config_path(&self) -> (r: String)
        ensures
            r@ == self.layout().game_mode_config_path(),
    {
        self.path_manager().get_game_mode_config_path()
    }

    /// Where the active configuration is saved while game mode is on.
    pub fn get_backup_path(&self) -> (r: String)
        ensures
            r@ == self.layout().backup_path(),
    {
        self.path_manager().get_backup_path()
    }

    /// Where the running instance records its process id.
    pub fn get_lock_path(&self) -> (r: String)
        ensures
            r@ == self.layout().lock_path(),
    {
        self.path_manager().get_lock_path()
    }

    pub fn get_service_file_path(&self) -> (r: String)
        ensures
            r@ == join_path(self.layout().greetd_dir_path(), SERVICE_FILE@),
    {
        self.path_manager().in_greetd_dir(SERVICE_FILE)
    }

    pub fn get_logs_dir(&self) -> (r: String)
        ensures
            r@ == join_path(self.layout().greetd_dir_path(), LOGS_DIR@),
    {
        self.path_manager().in_greetd_dir(LOGS_DIR)
    }

    pub fn get_sudoers_path(&self) -> (r: String)
        ensures
            r@ == join_path(self.layout().root, SUDOERS_PATH@),
    {
        self.path_manager().below_root(SUDOERS_PATH)
    }

    pub fn get_systemd_service_path(&self) -> (r: String)
        ensures
            r@ == join_path(self.layout().root, SYSTEMD_SERVICE_PATH@),
    {
        self.path_manager().below_root(SYSTEMD_SERVICE_PATH)
    }

    pub fn get_binary_path(&self) -> (r: String)
        ensures
            r@ == join_path(self.layout().root, BINARY_PATH@),
    {
        self.path_manager().below_root(BINARY_PATH)
    }
}

} // verus!
