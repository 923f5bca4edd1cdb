use codex_core::shell::{
    default_user_shell, detect_shell_type, get_shell, get_shell_by_model_provided_path, BashShell,
    HostShells, Platform, PowerShellConfig, Shell, ShellType, ZshShell, BASH_FALLBACK_PATH,
    POWERSHELL_FALLBACK_PATH, ZSH_FALLBACK_PATH,
};

fn path(p: &str) -> String {
    p.to_string()
}

fn unix_host() -> HostShells {
    HostShells {
        platform: Platform::Other,
        user_shell: Some("/bin/bash".to_string()),
        files: vec![
            "/bin/bash".to_string(),
            "/bin/zsh".to_string(),
            "/opt/zsh".to_string(),
        ],
        zsh: Some("/bin/zsh".to_string()),
        bash: Some("/usr/bin/bash".to_string()),
        pwsh: None,
        powershell: None,
    }
}

fn windows_host() -> HostShells {
    HostShells {
        platform: Platform::Windows,
        user_shell: None,
        files: vec![],
        zsh: None,
        bash: None,
        pwsh: Some(r"C:\tools\pwsh.exe".to_string()),
        powershell: Some(r"C:\tools\powershell.exe".to_string()),
    }
}

#[test]
fn test_detect_shell_type() {
    assert_eq!(detect_shell_type(&path("zsh"), false), Some(ShellType::Zsh));
    assert_eq!(detect_shell_type(&path("bash"), false), Some(ShellType::Bash));
    assert_eq!(detect_shell_type(&path("pwsh"), false), Some(ShellType::PowerShell));
    assert_eq!(detect_shell_type(&path("powershell"), false), Some(ShellType::PowerShell));
    assert_eq!(detect_shell_type(&path("fish"), false), None);
    assert_eq!(detect_shell_type(&path("other"), false), None);
    assert_eq!(detect_shell_type(&path("/bin/zsh"), false), Some(ShellType::Zsh));
    assert_eq!(detect_shell_type(&path("/bin/bash"), false), Some(ShellType::Bash));
    assert_eq!(detect_shell_type(&path("powershell.exe"), false), Some(ShellType::PowerShell));
    assert_eq!(detect_shell_type(&path("/usr/local/bin/pwsh"), false), Some(ShellType::PowerShell));
    assert_eq!(
        detect_shell_type(
            &path("C:\\windows\\System32\\WindowsPowerShell\\v1.0\\powershell.exe"),
            true
        ),
        Some(ShellType::PowerShell)
    );
    assert_eq!(detect_shell_type(&path("pwsh.exe"), false), Some(ShellType::PowerShell));
    assert_eq!(detect_shell_type(&path("/usr/local/bin/pwsh"), false), Some(ShellType::PowerShell));
}

#[test]
fn detects_zsh() {
    let zsh_shell = get_shell(ShellType::Zsh, None, &unix_host()).unwrap();

    let ZshShell { shell_path } = match zsh_shell {
        Shell::Zsh(zsh_shell) => zsh_shell,
        _ => panic!("expected zsh shell"),
    };

    assert_eq!(shell_path, "/bin/zsh");
}

#[test]
fn detects_bash() {
    let bash_shell = get_shell(ShellType::Bash, None, &unix_host()).unwrap();
    let BashShell { shell_path } = match bash_shell {
        Shell::Bash(bash_shell) => bash_shell,
        _ => panic!("expected bash shell"),
    };

    assert!(
        shell_path == "/bin/bash" || shell_path == "/usr/bin/bash",
        "shell path: {shell_path:?}",
    );
}

#[test]
fn finds_poweshell() {
    let powershell_shell = get_shell(ShellType::PowerShell, None, &windows_host()).unwrap();
    let PowerShellConfig { shell_path } = match powershell_shell {
        Shell::PowerShell(powershell_shell) => powershell_shell,
        _ => panic!("expected powershell shell"),
    };

    assert!(shell_path.ends_with("pwsh.exe") || shell_path.ends_with("powershell.exe"));
}

#[test]
fn detects_powershell_as_default() {
    let PowerShellConfig { shell_path } =
        match default_user_shell(&windows_host()) {
            Shell::PowerShell(powershell_shell) => powershell_shell,
            _ => panic!("expected powershell shell"),
        };

    assert!(shell_path.ends_with("pwsh.exe") || shell_path.ends_with("powershell.exe"));
}

#[test]
fn test_current_shell_detects_zsh() {
    let host = HostShells {
        user_shell: Some("/bin/zsh".to_string()),
        ..unix_host()
    };
    match default_user_shell(&host) {
        Shell::Zsh(zsh) => assert_eq!(zsh.shell_path, "/bin/zsh"),
        other => panic!("expected zsh, got {other:?}"),
    }
}

#[test]
fn a_path_of_the_model_that_exists_is_used() {
    match get_shell_by_model_provided_path(&path("/opt/zsh"), &unix_host()) {
        Shell::Zsh(zsh) => assert_eq!(zsh.shell_path, "/opt/zsh"),
        other => panic!("expected zsh, got {other:?}"),
    }
    assert!(matches!(
        get_shell_by_model_provided_path(&path("/bin/fish"), &unix_host()),
        Shell::Unknown
    ));
}

#[test]
fn a_path_of_windows_that_the_model_gives_names_a_shell() {
    let provided = path(r"D:\apps\pwsh.exe");
    let host = HostShells {
        files: vec![provided.clone()],
        ..windows_host()
    };
    match get_shell_by_model_provided_path(&provided, &host) {
        Shell::PowerShell(p) => assert_eq!(p.shell_path, provided),
        other => panic!("expected powershell, got {other:?}"),
    }
    assert_eq!(detect_shell_type(&provided, false), None);
}

#[test]
fn no_shell_without_a_file_or_a_search_result() {
    let host = HostShells {
        platform: Platform::Other,
        user_shell: None,
        files: vec![],
        zsh: None,
        bash: None,
        pwsh: None,
        powershell: None,
    };
    assert!(get_shell(ShellType::Zsh, None, &host).is_none());
    assert!(matches!(default_user_shell(&host), Shell::Unknown));
    for (shell_type, file) in [
        (ShellType::Zsh, ZSH_FALLBACK_PATH),
        (ShellType::Bash, BASH_FALLBACK_PATH),
        (ShellType::PowerShell, POWERSHELL_FALLBACK_PATH),
    ] {
        let host = HostShells {
            files: vec![file.to_string()],
            ..host.clone()
        };
        let shell = get_shell(shell_type, None, &host).expect("a shell");
        assert_eq!(shell.derive_exec_args("ls", true)[0], file);
    }
}

#[test]
fn the_command_is_the_last_argument_of_a_known_shell() {
    let bash = Shell::Bash(BashShell {
        shell_path: "/bin/bash".to_string(),
    });
    assert_eq!(bash.derive_exec_args("ls -la", true), ["/bin/bash", "-lc", "ls -la"]);
    assert_eq!(bash.derive_exec_args("ls -la", false), ["/bin/bash", "-c", "ls -la"]);
    let zsh = Shell::Zsh(ZshShell {
        shell_path: "/bin/zsh".to_string(),
    });
    assert_eq!(zsh.derive_exec_args("ls -la", true), ["/bin/zsh", "-lc", "ls -la"]);
    let pwsh = Shell::PowerShell(PowerShellConfig {
        shell_path: "pwsh.exe".to_string(),
    });
    assert_eq!(pwsh.derive_exec_args("ls", true), ["pwsh.exe", "-Command", "ls"]);
    assert_eq!(pwsh.derive_exec_args("ls", false), ["pwsh.exe", "-NoProfile", "-Command", "ls"]);
}

#[test]
fn without_a_shell_the_command_is_split_into_words() {
    assert_eq!(Shell::Unknown.derive_exec_args("echo 'a b' c", true), ["echo", "a b", "c"]);
    assert_eq!(Shell::Unknown.derive_exec_args("echo 'open", true), ["echo 'open"]);
}

#[test]
fn shells_are_named_by_their_executable() {
    let zsh = Shell::Zsh(ZshShell {
        shell_path: "/bin/zsh".to_string(),
    });
    assert_eq!(zsh.name(false), Some("zsh".to_string()));
    let pwsh = Shell::PowerShell(PowerShellConfig {
        shell_path: r"C:\tools\pwsh.exe".to_string(),
    });
    assert_eq!(pwsh.name(true), Some("pwsh".to_string()));
    assert_eq!(Shell::Unknown.name(false), None);
}
