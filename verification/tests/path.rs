use codex_core::path::{extension, file_name, file_stem, is_absolute, join, same_path};
use std::path::Path;

const PATHS: [&str; 26] = [
    "", "/", "//", ".", "..", "a", "/a", "a/", "a//b", "a/./b", "./a", "a/..", "/..", "a/.", "/.",
    ".hidden", "a.txt", "a.tar.gz", "a.", ".a.b", "..b", "/usr/bin/pwsh.exe", "a b/ü.ö", "...",
    "x/..a", "/x/.",
];

#[test]
fn paths_are_read_as_std_reads_them() {
    for p in PATHS {
        let std_path = Path::new(p);
        let name = std_path.file_name().map(|s| s.to_string_lossy().to_string());
        let stem = std_path.file_stem().map(|s| s.to_string_lossy().to_string());
        let end = std_path.extension().map(|s| s.to_string_lossy().to_string());
        assert_eq!(file_name(p, false), name, "name of {p:?}");
        assert_eq!(file_stem(p, false), stem, "stem of {p:?}");
        assert_eq!(extension(p, false), end, "extension of {p:?}");
        assert_eq!(is_absolute(p, false), std_path.is_absolute(), "{p:?}");
        for q in PATHS {
            assert_eq!(same_path(p, q, false), std_path == Path::new(q), "{p:?} and {q:?}");
            assert_eq!(
                join(p, q, false),
                std_path.join(q).to_string_lossy(),
                "{p:?} joined with {q:?}"
            );
        }
    }
}

#[test]
fn prefixes_of_windows_make_a_path_absolute() {
    for p in [
        r"C:\windows", "c:/windows", r"C:\", r"\\server\share", r"\\server\share\x", "//server/share",
        r"\\?\C:\x", r"\\?\C:", r"\\?\UNC\server\share", r"\\?\pictures", r"\\.\COM42",
    ] {
        assert!(is_absolute(p, true), "{p:?}");
        assert!(!is_absolute(p, false) || p.starts_with('/'), "{p:?}");
    }
    for p in ["", "c:temp", "C:", r"\temp", "/temp", "temp", r"\\server", r"\\", "1:\\x", "é:\\x"] {
        assert!(!is_absolute(p, true), "{p:?}");
    }
}

#[test]
fn components_of_windows_are_told_apart() {
    assert_eq!(file_name(r"C:\a\b.exe", true).as_deref(), Some("b.exe"));
    assert_eq!(file_name("C:/a/b.exe", true).as_deref(), Some("b.exe"));
    assert_eq!(file_name(r"C:b.exe", true).as_deref(), Some("b.exe"));
    assert_eq!(file_stem(r"C:\a\b.tar.gz\", true).as_deref(), Some("b.tar"));
    assert_eq!(extension(r"C:\a.b\c", true), None);
    assert_eq!(extension(r"C:\a.b\c.d", true).as_deref(), Some("d"));
    assert_eq!(file_name(r"C:\", true), None);
    assert_eq!(file_name("C:", true), None);
    assert_eq!(file_name(r"\\server\share", true), None);
    assert_eq!(file_name(r"\\server\share\x", true).as_deref(), Some("x"));
    assert_eq!(file_name(r"\\?\C:\a/b", true).as_deref(), Some("a/b"));
    assert_eq!(file_name(r"\\?\UNC\server\share\x", true).as_deref(), Some("x"));
    assert_eq!(file_name(r"\\.\COM42", true), None);
    assert_eq!(file_name(r"C:\a\b.exe", false).as_deref(), Some(r"C:\a\b.exe"));
}

#[test]
fn paths_of_windows_that_are_written_differently_are_the_same() {
    assert!(same_path(r"C:\a\b", "c:/a//./b/", true));
    assert!(same_path("//server/share/x", r"\\server\share\x", true));
    assert!(same_path(r"C:.\a", "C:a", true));
    assert!(!same_path(r"C:\a", "C:a", true));
    assert!(!same_path(r"C:\a", r"D:\a", true));
    assert!(!same_path(r"C:\a", r"\\?\C:\a", true));
    assert!(!same_path(r"C:\A", r"C:\a", true));
    assert!(!same_path(r"\\?\C:\a\.", r"\\?\C:\a", true));
    assert!(!same_path(r"a\b", "a/b", false));
}

#[test]
fn paths_of_windows_are_joined() {
    assert_eq!(join(r"C:\a", "b", true), r"C:\a\b");
    assert_eq!(join(r"C:\a\", "b", true), r"C:\a\b");
    assert_eq!(join("C:/a/", "b", true), "C:/a/b");
    assert_eq!(join("C:", "b", true), "C:b");
    assert_eq!(join(r"C:\a", r"D:\b", true), r"D:\b");
    assert_eq!(join(r"C:\a", "D:b", true), "D:b");
    assert_eq!(join(r"C:\a", r"\b", true), r"C:\b");
    assert_eq!(join(r"\\server\share\a", "/b", true), r"\\server\share/b");
    assert_eq!(join("", "b", true), "b");
    assert_eq!(join(r"C:\a", "", true), r"C:\a\");
    assert_eq!(join(r"\\?\C:\a\b", r"..\c/./d", true), r"\\?\C:\a\c\d");
    assert_eq!(join(r"\\?\C:\a", r"\b", true), r"\\?\C:\b");
    assert_eq!(join(r"\\?\C:\", r"..\..", true), r"\\?\C:\");
    assert_eq!(join(r"\\?\pictures", "kittens", true), r"\\?\pictures\kittens");
}
