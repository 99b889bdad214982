use std::path::PathBuf;

use game_mode::paths::{join, PathManager};

#[test]
fn test_path_manager() {
    let manager = PathManager::new("/", "/etc/greetd", "config.toml", "game_mode_login.toml");

    assert_eq!(PathBuf::from(manager.get_greetd_dir()), PathBuf::from("/etc/greetd"));
    assert_eq!(PathBuf::from(manager.get_config_path()), PathBuf::from("/etc/greetd/config.toml"));
    assert_eq!(
        PathBuf::from(manager.get_default_config_path()),
        PathBuf::from("/etc/greetd/config_default.toml")
    );
    assert_eq!(
        PathBuf::from(manager.get_game_mode_config_path()),
        PathBuf::from("/etc/greetd/game_mode_login.toml")
    );
}

#[test]
fn test_path_manager_with_virtual_root() {
    let manager = PathManager::new("/tmp/test", "/etc/greetd", "config.toml", "game_mode_login.toml");

    assert_eq!(PathBuf::from(manager.get_greetd_dir()), PathBuf::from("/tmp/test/etc/greetd"));
    assert_eq!(
        PathBuf::from(manager.get_config_path()),
        PathBuf::from("/tmp/test/etc/greetd/config.toml")
    );
    assert_eq!(
        PathBuf::from(manager.get_default_config_path()),
        PathBuf::from("/tmp/test/etc/greetd/config_default.toml")
    );
    assert_eq!(
        PathBuf::from(manager.get_game_mode_config_path()),
        PathBuf::from("/tmp/test/etc/greetd/game_mode_login.toml")
    );
}

#[test]
fn join_puts_exactly_one_slash_between_parts() {
    assert_eq!(join("/", "/etc/greetd"), "/etc/greetd");
    assert_eq!(join("", "/etc/greetd"), "/etc/greetd");
    assert_eq!(join("/tmp/test/", "etc"), "/tmp/test/etc");
    assert_eq!(join("/tmp//", "//etc"), "/tmp/etc");
}

#[test]
fn backup_and_lock_paths_sit_beside_the_config() {
    let manager = PathManager::new("", "/etc/greetd", "config.toml", "game_mode_login.toml");
    assert_eq!(manager.get_backup_path(), "/etc/greetd/config.toml.bak");
    assert_eq!(manager.get_lock_path(), "/etc/greetd/game-mode.lock");
    assert_eq!(manager.below_root("/usr/local/bin/game-mode"), "/usr/local/bin/game-mode");
    assert_eq!(manager.in_greetd_dir("logs"), "/etc/greetd/logs");
}
