use articulator::text::{
    file_extension, file_stem, str_equal, str_starts_with, to_forward_slashes,
};

#[test]
fn stems() {
    assert_eq!(file_stem("backup.ps1"), "backup");
    assert_eq!(file_stem("a.b.ps1"), "a.b");
    assert_eq!(file_stem("backup.db.py"), "backup.db");
    assert_eq!(file_stem("noext"), "noext");
    assert_eq!(file_stem(".profile"), ".profile");
    assert_eq!(file_stem(".hidden.sh"), ".hidden");
    assert_eq!(file_stem("trailing."), "trailing");
    assert_eq!(file_stem(""), "");
}

#[test]
fn extensions() {
    assert_eq!(file_extension("backup.ps1"), "ps1");
    assert_eq!(file_extension("a.b.py"), "py");
    assert_eq!(file_extension("noext"), "");
    assert_eq!(file_extension(".profile"), "");
    assert_eq!(file_extension(".hidden.sh"), "sh");
    assert_eq!(file_extension("trailing."), "");
    assert_eq!(file_extension(".."), "");
    assert_eq!(file_extension("ünï.çødé"), "çødé");
}

#[test]
fn names_with_extension_split_back() {
    for f in ["deploy.sh", "backup.db.py", ".hidden.sh"] {
        assert_eq!(format!("{}.{}", file_stem(f), file_extension(f)), f);
    }
}

#[test]
fn forward_slashes() {
    assert_eq!(to_forward_slashes("scripts\\ret_immediately\\x.ps1"), "scripts/ret_immediately/x.ps1");
    assert_eq!(to_forward_slashes("scripts/x.py"), "scripts/x.py");
    assert_eq!(to_forward_slashes(""), "");
}

#[test]
fn prefixes() {
    assert!(str_starts_with("scripts/ret_immediately/x.py", "scripts/ret_immediately/"));
    assert!(!str_starts_with("scripts/tools/ret_immediately/x.py", "scripts/ret_immediately/"));
    assert!(str_starts_with("abc", ""));
    assert!(!str_starts_with("ab", "abc"));
}

#[test]
fn equality() {
    assert!(str_equal("backup", "backup"));
    assert!(!str_equal("backup", "backups"));
    assert!(!str_equal("abc", "abd"));
}
