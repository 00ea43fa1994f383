use lfg::config::{default_windows, Config, TmuxWindow};

#[test]
fn test_default_config() {
    let config = Config::default();
    assert_eq!(config.windows.len(), 4);
    assert_eq!(config.windows[0].name, "rails");
    assert_eq!(config.windows[1].name, "tailwind");
    assert_eq!(config.windows[2].name, "omnara");
    assert_eq!(config.windows[3].name, "shell");
}

#[test]
fn test_default_windows() {
    let windows = default_windows();
    assert_eq!(windows.len(), 4);

    assert_eq!(windows[0].name, "rails");
    assert_eq!(windows[0].command, Some("bin/rails s".to_string()));

    assert_eq!(windows[1].name, "tailwind");
    assert_eq!(windows[1].command, Some("bin/rails tailwind:watch".to_string()));

    assert_eq!(windows[2].name, "omnara");
    assert_eq!(windows[2].command, Some("omnara --dangerously-skip-permissions".to_string()));

    assert_eq!(windows[3].name, "shell");
    assert_eq!(windows[3].command, None);
}

#[test]
fn test_tmux_window_with_command() {
    let window = TmuxWindow {
        name: "test".to_string(),
        command: Some("echo hello".to_string()),
    };

    assert_eq!(window.name, "test");
    assert_eq!(window.command, Some("echo hello".to_string()));
}

#[test]
fn test_tmux_window_without_command() {
    let window = TmuxWindow {
        name: "shell".to_string(),
        command: None,
    };

    assert_eq!(window.name, "shell");
    assert_eq!(window.command, None);
}

#[test]
fn test_tmux_window_clone() {
    let window = TmuxWindow {
        name: "test".to_string(),
        command: Some("echo test".to_string()),
    };

    let cloned = window.clone();
    assert_eq!(cloned.name, "test");
    assert_eq!(cloned.command, Some("echo test".to_string()));
}

#[test]
fn test_config_clone() {
    let config = Config {
        windows: vec![
            TmuxWindow {
                name: "test".to_string(),
                command: None,
            },
        ],
    };

    let cloned = config.clone();
    assert_eq!(cloned.windows.len(), 1);
    assert_eq!(cloned.windows[0].name, "test");
}

#[test]
fn test_config_debug() {
    let config = Config::default();
    let debug_str = format!("{:?}", config);
    assert!(debug_str.contains("Config"));
    assert!(debug_str.contains("windows"));
}
