use codex_core::command_safety::windows_safe_commands::{
    is_powershell_executable, is_safe_command_windows, is_safe_git_command, is_safe_ripgrep,
    split_into_commands, try_parse_powershell_command_sequence,
};

/// Converts a slice of string literals into owned `String`s for the tests.
fn vec_str(args: &[&str]) -> Vec<String> {
    args.iter().map(ToString::to_string).collect()
}

#[test]
fn recognizes_safe_powershell_wrappers() {
    assert!(is_safe_command_windows(&vec_str(&[
        "powershell.exe",
        "-NoLogo",
        "-Command",
        "Get-ChildItem -Path .",
    ])));

    assert!(is_safe_command_windows(&vec_str(&[
        "powershell.exe",
        "-NoProfile",
        "-Command",
        "git status",
    ])));

    assert!(is_safe_command_windows(&vec_str(&[
        "powershell.exe",
        "Get-Content",
        "Cargo.toml",
    ])));

    // pwsh parity
    assert!(is_safe_command_windows(&vec_str(&[
        "pwsh.exe",
        "-NoProfile",
        "-Command",
        "Get-ChildItem",
    ])));
}

#[test]
fn allows_read_only_pipelines_and_git_usage() {
    assert!(is_safe_command_windows(&vec_str(&[
        "pwsh",
        "-NoLogo",
        "-NoProfile",
        "-Command",
        "rg --files-with-matches foo | Measure-Object | Select-Object -ExpandProperty Count",
    ])));

    assert!(is_safe_command_windows(&vec_str(&[
        "pwsh",
        "-NoLogo",
        "-NoProfile",
        "-Command",
        "Get-Content foo.rs | Select-Object -Skip 200",
    ])));

    assert!(is_safe_command_windows(&vec_str(&[
        "pwsh",
        "-NoLogo",
        "-NoProfile",
        "-Command",
        "git -c core.pager=cat show HEAD:foo.rs",
    ])));

    assert!(is_safe_command_windows(&vec_str(&[
        "pwsh",
        "-Command",
        "-git cat-file -p HEAD:foo.rs",
    ])));

    assert!(is_safe_command_windows(&vec_str(&[
        "pwsh",
        "-Command",
        "(Get-Content foo.rs -Raw)",
    ])));

    assert!(is_safe_command_windows(&vec_str(&[
        "pwsh",
        "-Command",
        "Get-Item foo.rs | Select-Object Length",
    ])));
}

#[test]
fn rejects_powershell_commands_with_side_effects() {
    assert!(!is_safe_command_windows(&vec_str(&[
        "powershell.exe",
        "-NoLogo",
        "-Command",
        "Remove-Item foo.txt",
    ])));

    assert!(!is_safe_command_windows(&vec_str(&[
        "powershell.exe",
        "-NoProfile",
        "-Command",
        "rg --pre cat",
    ])));

    assert!(!is_safe_command_windows(&vec_str(&[
        "powershell.exe",
        "-Command",
        "Set-Content foo.txt 'hello'",
    ])));

    // Redirections are blocked
    assert!(!is_safe_command_windows(&vec_str(&[
        "powershell.exe",
        "-Command",
        "echo hi > out.txt",
    ])));
    assert!(!is_safe_command_windows(&vec_str(&[
        "powershell.exe",
        "-Command",
        "Get-Content x | Out-File y",
    ])));
    assert!(!is_safe_command_windows(&vec_str(&[
        "powershell.exe",
        "-Command",
        "Write-Output foo 2> err.txt",
    ])));

    // Call operator is blocked
    assert!(!is_safe_command_windows(&vec_str(&[
        "powershell.exe",
        "-Command",
        "& Remove-Item foo",
    ])));

    // Chained safe + unsafe must fail
    assert!(!is_safe_command_windows(&vec_str(&[
        "powershell.exe",
        "-Command",
        "Get-ChildItem; Remove-Item foo",
    ])));
    // Nested unsafe cmdlet inside safe command must fail
    assert!(!is_safe_command_windows(&vec_str(&[
        "powershell.exe",
        "-Command",
        "Write-Output (Set-Content foo6.txt 'abc')",
    ])));
    // Additional nested unsafe cmdlet examples must fail
    assert!(!is_safe_command_windows(&vec_str(&[
        "powershell.exe",
        "-Command",
        "Write-Host (Remove-Item foo.txt)",
    ])));
    assert!(!is_safe_command_windows(&vec_str(&[
        "powershell.exe",
        "-Command",
        "Get-Content (New-Item bar.txt)",
    ])));
}

#[test]
fn an_empty_command_is_not_safe() {
    assert!(!is_safe_command_windows(&vec_str(&[])));
    assert!(!is_safe_command_windows(&vec_str(&["pwsh"])));
    assert!(!is_safe_command_windows(&vec_str(&["cmd.exe", "/c", "dir"])));
}

#[test]
fn powershell_is_known_by_its_name_in_any_case() {
    assert!(is_powershell_executable("PowerShell.EXE"));
    assert!(is_powershell_executable("pwsh"));
    assert!(!is_powershell_executable("/usr/local/bin/pwsh"));
    assert!(!is_powershell_executable("bash"));
}

#[test]
fn a_chain_is_safe_only_where_both_ends_are() {
    for (script, safe) in [
        ("Get-ChildItem ; Get-Content foo", true),
        ("Get-ChildItem; Get-Content foo", false),
        ("Get-ChildItem && git status", true),
        ("Get-ChildItem && Remove-Item foo", false),
        ("Remove-Item foo || Get-ChildItem", false),
    ] {
        assert_eq!(
            is_safe_command_windows(&vec_str(&["pwsh", "-Command", script])),
            safe,
            "script: {script}"
        );
    }
}

#[test]
fn words_are_split_into_commands_at_separators() {
    let commands = split_into_commands(vec_str(&["a", "b", "|", "c", ";", "d"]));
    assert_eq!(
        commands,
        Some(vec![vec_str(&["a", "b"]), vec_str(&["c"]), vec_str(&["d"])])
    );
    assert_eq!(split_into_commands(vec_str(&["|", "c"])), None);
}

#[test]
fn a_script_is_read_with_shell_quoting() {
    assert_eq!(
        try_parse_powershell_command_sequence(&vec_str(&[
            "pwsh",
            "-Command",
            "Get-Content 'a b' | Measure-Object"
        ])),
        Some(vec![
            vec_str(&["Get-Content", "a b"]),
            vec_str(&["Measure-Object"])
        ])
    );
    assert_eq!(
        try_parse_powershell_command_sequence(&vec_str(&["pwsh", "-Command", "echo 'open"])),
        None
    );
}

#[test]
fn git_and_ripgrep_are_safe_only_without_side_effects() {
    assert!(is_safe_git_command(&vec_str(&["git", "status"])));
    assert!(is_safe_git_command(&vec_str(&["git", "-c", "core.pager=cat", "log"])));
    assert!(!is_safe_git_command(&vec_str(&["git", "push"])));
    assert!(!is_safe_git_command(&vec_str(&["git"])));
    assert!(is_safe_ripgrep(&vec_str(&["rg", "foo"])));
    assert!(!is_safe_ripgrep(&vec_str(&["rg", "--pre", "cat"])));
    assert!(!is_safe_ripgrep(&vec_str(&["rg", "--search-zip", "x"])));
}
