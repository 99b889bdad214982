use game_mode::config::{Config, InstallationState};
use game_mode::installer::{original_of_backup, Installer};

#[test]
fn load_gives_the_built_in_settings() {
    let config = Config::load();
    assert!(!config.is_virtual_mode());
    assert_eq!(config.paths.greetd_dir, "/etc/greetd");
    assert_eq!(config.permissions.greeter_user, "greeter");
    assert_eq!(config.permissions.required_groups, vec!["input".to_string(), "video".to_string()]);
    assert_eq!(config.terminal.vt, 1);
    assert_eq!(config.service.restart_command, "systemctl restart greetd");
    assert!(config.game_mode.debug);
}

#[test]
fn config_paths_on_the_real_system() {
    let config = Config::load();
    assert_eq!(config.get_greetd_dir(), "/etc/greetd");
    assert_eq!(config.get_config_path(), "/etc/greetd/config.toml");
    assert_eq!(config.get_default_config_path(), "/etc/greetd/config_default.toml");
    assert_eq!(config.get_game_mode_config_path(), "/etc/greetd/game_mode_login.toml");
    assert_eq!(config.get_backup_path(), "/etc/greetd/config.toml.bak");
    assert_eq!(config.get_lock_path(), "/etc/greetd/game-mode.lock");
    assert_eq!(config.get_logs_dir(), "/etc/greetd/logs");
    assert_eq!(config.get_service_file_path(), "/etc/greetd/game-mode.service");
    assert_eq!(config.get_sudoers_path(), "/etc/sudoers.d/greeter-greetd");
    assert_eq!(config.get_systemd_service_path(), "/etc/systemd/system/game-mode.service");
    assert_eq!(config.get_binary_path(), "/usr/local/bin/game-mode");
}

#[test]
fn config_paths_below_a_virtual_root() {
    let mut config = Config::load();
    config.paths.virtual_root = "/tmp/vr".to_string();
    assert!(config.is_virtual_mode());
    assert_eq!(config.get_config_path(), "/tmp/vr/etc/greetd/config.toml");
    assert_eq!(config.get_binary_path(), "/tmp/vr/usr/local/bin/game-mode");
    assert_eq!(Installer::state_file_path(&config), "/tmp/vr/etc/greetd/game-mode-state.json");
}

#[test]
fn installation_state_records_each_file_once() {
    let mut state = InstallationState::new();
    assert!(!state.installed);
    state.add_modified_file("/etc/greetd/a.toml".to_string());
    state.add_modified_file("/etc/greetd/b.toml".to_string());
    state.add_modified_file("/etc/greetd/a.toml".to_string());
    assert_eq!(state.modified_files, vec!["/etc/greetd/a.toml".to_string(), "/etc/greetd/b.toml".to_string()]);
    assert!(state.backup_files.is_empty());
    state.add_backup_file("/etc/greetd/config.toml.bak".to_string());
    state.add_backup_file("/etc/greetd/config.toml.bak".to_string());
    assert_eq!(state.backup_files, vec!["/etc/greetd/config.toml.bak".to_string()]);
}

#[test]
fn installer_starts_fresh_or_from_a_saved_record() {
    let installer = Installer::new(Config::load(), None);
    assert!(!installer.is_installed());
    assert_eq!(installer.state_file(), "/etc/greetd/game-mode-state.json");

    let mut saved = InstallationState::new();
    saved.installed = true;
    let mut installer = Installer::new(Config::load(), Some(saved));
    assert!(installer.is_installed());
    installer.record_modified_file("/usr/local/bin/game-mode".to_string());
    installer.record_modified_file("/usr/local/bin/game-mode".to_string());
    assert_eq!(installer.state().modified_files.len(), 1);
}

#[test]
fn recorded_paths_move_below_the_virtual_root() {
    let installer = Installer::new(Config::load(), None);
    assert_eq!(installer.resolve_recorded_path(&"/etc/greetd/x".to_string()), "/etc/greetd/x");
    let mut config = Config::load();
    config.paths.virtual_root = "/tmp/vr".to_string();
    let installer = Installer::new(config, None);
    assert_eq!(installer.resolve_recorded_path(&"/etc/greetd/x".to_string()), "/tmp/vr/etc/greetd/x");
}

#[test]
fn backup_names_give_back_the_original() {
    assert_eq!(original_of_backup("/etc/greetd/config.toml.bak"), Some("/etc/greetd/config.toml".to_string()));
    assert_eq!(original_of_backup("/etc/greetd/config.toml"), None);
    assert_eq!(original_of_backup("bak"), None);
}

#[test]
fn installer_marks_progress_in_its_record() {
    let mut installer = Installer::new(Config::load(), None);
    installer.mark_greeter_configured();
    assert!(installer.state().greeter_user_configured);
    assert!(!installer.is_installed());
    installer.record_backup_file("/etc/greetd/config.toml.bak".to_string());
    installer.mark_installed();
    assert!(installer.is_installed());
    assert_eq!(installer.state().backup_files, vec!["/etc/greetd/config.toml.bak".to_string()]);
    assert_eq!(installer.config().terminal.vt, 1);
}
