use codex_core::exec_policy::{
    collect_policy_files, commands_to_check, create_approval_requirement_for_command,
    evaluate_with_policy, exec_policy_for, policy_dir, sort_paths, Decision, DirEntry, DirListing,
    Evaluation, ExecPolicyError, PolicyRead,
};
use codex_core::protocol::AskForApproval;
use codex_core::tools::sandboxing::ApprovalRequirement;

const FORBIDDEN_REASON: &str = "execpolicy forbids this command";
const PROMPT_REASON: &str = "execpolicy requires approval for this command";

#[test]
fn returns_empty_policy_when_feature_disabled() {
    assert_eq!(policy_dir(false, "/home/codex", false), None);
    assert_eq!(policy_dir(true, "/home/codex", false), Some("/home/codex/policy".to_string()));
}

#[test]
fn collect_policy_files_returns_empty_when_dir_missing() {
    let files = collect_policy_files("/home/codex/policy", DirListing::NotFound, false)
        .expect("collect policy files");
    assert!(files.is_empty());
}

fn entry(path: &str, is_file: bool) -> Result<DirEntry, String> {
    Ok(DirEntry {
        path: path.to_string(),
        is_file,
    })
}

#[test]
fn loads_policies_from_policy_subdirectory() {
    let files = collect_policy_files(
        "/p",
        DirListing::Entries(vec![
            entry("/p/b.codexpolicy", true),
            entry("/p/deny.codexpolicy", true),
            entry("/p/a.txt", true),
            entry("/p/dir.codexpolicy", false),
            entry("/p/a.codexpolicy", true),
        ]),
        false,
    )
    .expect("policy files");
    assert_eq!(
        files,
        vec!["/p/a.codexpolicy", "/p/b.codexpolicy", "/p/deny.codexpolicy"]
    );
}

#[test]
fn a_directory_that_cannot_be_read_is_an_error() {
    let err = collect_policy_files("/p", DirListing::Unreadable("denied".to_string()), false)
        .unwrap_err();
    assert_eq!(err.message(), "failed to read execpolicy files from /p: denied");
    let err = collect_policy_files(
        "/p",
        DirListing::Entries(vec![entry("/p/a", true), Err("gone".to_string())]),
        false,
    )
    .unwrap_err();
    assert_eq!(err.message(), "failed to read execpolicy files from /p: gone");
}

#[test]
fn the_first_file_that_fails_is_the_error() {
    assert!(matches!(
        exec_policy_for(vec![("/a".to_string(), PolicyRead::Parsed)]),
        Ok(1)
    ));
    let err = exec_policy_for(vec![
        ("/a".to_string(), PolicyRead::Parsed),
        ("/b".to_string(), PolicyRead::Unreadable("denied".to_string())),
        ("/c".to_string(), PolicyRead::Unparsable("syntax".to_string())),
    ])
    .unwrap_err();
    assert_eq!(err.message(), "failed to read execpolicy file /b: denied");
    let err = exec_policy_for(vec![(
        "/c".to_string(),
        PolicyRead::Unparsable("syntax".to_string()),
    )])
    .unwrap_err();
    assert!(matches!(err, ExecPolicyError::ParsePolicy { .. }));
    assert_eq!(err.message(), "failed to parse execpolicy file /c: syntax");
}

#[test]
fn paths_are_sorted_by_their_parts() {
    let list: Vec<String> = ["/p/b", "/p/a/z", "/p/a-b", "/p/a"]
        .iter()
        .map(|s| s.to_string())
        .collect();
    let mut expected: Vec<std::path::PathBuf> = list.iter().map(std::path::PathBuf::from).collect();
    expected.sort();
    let sorted: Vec<std::path::PathBuf> = sort_paths(list, false)
        .iter()
        .map(std::path::PathBuf::from)
        .collect();
    assert_eq!(sorted, expected);
}

#[test]
fn paths_that_compare_equal_keep_their_order() {
    let list: Vec<String> = ["/p/b/", "/p//a", "/p/./a", "/p/b", "/p/a"]
        .iter()
        .map(|s| s.to_string())
        .collect();
    assert_eq!(
        sort_paths(list, false),
        ["/p//a", "/p/./a", "/p/a", "/p/b/", "/p/b"]
    );
}

#[test]
fn paths_of_windows_are_sorted_by_their_prefixes_first() {
    let list: Vec<String> = [r"b\a", r"\b", r"D:\a", r"c:\b", r"C:/a", r"\\server\share\a"]
        .iter()
        .map(|s| s.to_string())
        .collect();
    assert_eq!(
        sort_paths(list, true),
        [r"\\server\share\a", r"C:/a", r"c:\b", r"D:\a", r"\b", r"b\a"]
    );
    assert_eq!(
        policy_dir(true, r"C:\Users\me\.codex", true),
        Some(r"C:\Users\me\.codex\policy".to_string())
    );
    let files = collect_policy_files(
        r"C:\p",
        DirListing::Entries(vec![
            entry(r"C:\p\b.codexpolicy", true),
            entry(r"C:\p\a.codexpolicy", true),
            entry(r"C:\p.codexpolicy\a", true),
        ]),
        true,
    )
    .expect("policy files");
    assert_eq!(files, [r"C:\p\a.codexpolicy", r"C:\p\b.codexpolicy"]);
}

#[test]
fn evaluates_bash_lc_inner_commands() {
    let forbidden_script: Vec<String> = ["bash", "-lc", "rm -rf /tmp"]
        .iter()
        .map(|s| s.to_string())
        .collect();
    let inner: Vec<String> = ["rm", "-rf", "/tmp"].iter().map(|s| s.to_string()).collect();
    assert_eq!(
        commands_to_check(Some(vec![inner.clone()]), forbidden_script.clone()),
        vec![inner]
    );
    assert_eq!(commands_to_check(None, forbidden_script.clone()), vec![forbidden_script]);

    let requirement = evaluate_with_policy(
        Evaluation::Match(Decision::Forbidden),
        AskForApproval::OnRequest,
    )
    .expect("expected match for forbidden command");

    assert_eq!(
        requirement,
        ApprovalRequirement::Forbidden {
            reason: FORBIDDEN_REASON.to_string()
        }
    );
}

#[test]
fn approval_requirement_prefers_execpolicy_match() {
    let requirement = create_approval_requirement_for_command(
        Evaluation::Match(Decision::Prompt),
        AskForApproval::OnRequest,
        false,
    );

    assert_eq!(
        requirement,
        ApprovalRequirement::NeedsApproval {
            reason: Some(PROMPT_REASON.to_string())
        }
    );
}

#[test]
fn approval_requirement_respects_approval_policy() {
    let requirement = create_approval_requirement_for_command(
        Evaluation::Match(Decision::Prompt),
        AskForApproval::Never,
        false,
    );

    assert_eq!(
        requirement,
        ApprovalRequirement::Forbidden {
            reason: PROMPT_REASON.to_string()
        }
    );
}

#[test]
fn approval_requirement_falls_back_to_heuristics() {
    let requirement = create_approval_requirement_for_command(
        Evaluation::NoMatch,
        AskForApproval::UnlessTrusted,
        true,
    );

    assert_eq!(requirement, ApprovalRequirement::NeedsApproval { reason: None });
    assert_eq!(
        create_approval_requirement_for_command(
            Evaluation::NoMatch,
            AskForApproval::UnlessTrusted,
            false,
        ),
        ApprovalRequirement::Skip
    );
    assert_eq!(
        create_approval_requirement_for_command(
            Evaluation::Match(Decision::Allow),
            AskForApproval::UnlessTrusted,
            true,
        ),
        ApprovalRequirement::Skip
    );
}
