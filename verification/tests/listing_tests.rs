use articulator::listing::{
    find_script, get_script, not_found_message, script_list_from_entries, DirEntryInfo,
    ScriptListError, ScriptLookupError,
};
use articulator::scripts::{script_file_name, Script, ScriptKind, TypedScript};

fn entry(is_file: bool, file_name: &str, rel: &str, full: &str) -> DirEntryInfo {
    DirEntryInfo {
        is_file,
        file_name: String::from(file_name),
        relative_path: String::from(rel),
        full_path: String::from(full),
    }
}

fn sample_entries() -> Vec<DirEntryInfo> {
    vec![
        entry(false, "scripts", "scripts", "/srv/scripts"),
        entry(true, "backup.ps1", "scripts\\backup.ps1", "/srv/scripts/backup.ps1"),
        entry(false, "ret_immediately", "scripts\\ret_immediately", "/srv/scripts/ret_immediately"),
        entry(true, "sleep.py", "scripts\\ret_immediately\\sleep.py", "/srv/scripts/ret_immediately/sleep.py"),
        entry(true, "clean.v2.sh", "scripts/clean.v2.sh", "/srv/scripts/clean.v2.sh"),
    ]
}

#[test]
fn listing_keeps_files_in_order() {
    let list = script_list_from_entries(&sample_entries()).unwrap();
    assert_eq!(list.len(), 3);
    assert_eq!(list[0].get_name(), "backup");
    assert_eq!(list[0].get_relative_path(), "scripts/backup.ps1");
    assert_eq!(list[0].script_kind(), ScriptKind::PowerShell);
    assert_eq!(list[1].get_name(), "sleep");
    assert_eq!(list[1].get_relative_path(), "scripts/ret_immediately/sleep.py");
    assert_eq!(list[2].get_name(), "clean.v2");
    assert_eq!(list[2].get_extension(), ".sh");
}

#[test]
fn listing_of_nothing_is_empty() {
    assert!(script_list_from_entries(&Vec::new()).unwrap().is_empty());
    let dirs = vec![entry(false, "scripts", "scripts", "/srv/scripts")];
    assert!(script_list_from_entries(&dirs).unwrap().is_empty());
}

#[test]
fn listing_fails_on_unknown_type() {
    let mut es = sample_entries();
    es.push(entry(true, "notes.txt", "scripts\\notes.txt", "/srv/scripts/notes.txt"));
    es.push(entry(true, "readme", "scripts\\readme", "/srv/scripts/readme"));
    match script_list_from_entries(&es) {
        Err(ScriptListError::UnknownScriptType { path }) => assert_eq!(path, "/srv/scripts/notes.txt"),
        Ok(_) => panic!("expected a failure"),
    }
}

#[test]
fn listing_fails_on_file_without_extension() {
    let es = vec![entry(true, "tool", "scripts/tool", "/srv/scripts/tool")];
    match script_list_from_entries(&es) {
        Err(ScriptListError::UnknownScriptType { path }) => assert_eq!(path, "/srv/scripts/tool"),
        Ok(_) => panic!("expected a failure"),
    }
}

#[test]
fn listed_file_name_is_the_file_itself() {
    let es = vec![entry(true, "deploy.ps1", "scripts/deploy.ps1", "/srv/scripts/deploy.ps1")];
    let list = script_list_from_entries(&es).unwrap();
    assert_eq!(script_file_name(&list[0]), "deploy.ps1");
}

#[test]
fn multi_dot_name_is_file_name_without_extension() {
    let es = vec![entry(true, "backup.db.py", "scripts\\tools\\backup.db.py", "/app/scripts/tools/backup.db.py")];
    let list = script_list_from_entries(&es).unwrap();
    assert_eq!(list.len(), 1);
    assert_eq!(list[0].get_name(), "backup.db");
    assert_eq!(script_file_name(&list[0]), "backup.db.py");
    assert_eq!(list[0].get_relative_path(), "scripts/tools/backup.db.py");
}

#[test]
fn not_found_text() {
    assert_eq!(not_found_message("x"), "Script with name x not found.");
}

#[test]
fn find_gives_first_match() {
    let es = vec![
        entry(true, "dup.ps1", "scripts/dup.ps1", "/a"),
        entry(true, "dup.py", "scripts/dup.py", "/b"),
    ];
    let list = script_list_from_entries(&es).unwrap();
    let found = find_script(list, "dup").unwrap();
    assert!(matches!(found, TypedScript::PowerShell(_)));
    let list = script_list_from_entries(&es).unwrap();
    assert!(find_script(list, "missing").is_none());
}

#[test]
fn get_script_outcomes() {
    let list = script_list_from_entries(&sample_entries());
    let s = get_script(list, "sleep").ok().unwrap();
    assert_eq!(s.get_extension(), ".py");
    match get_script(script_list_from_entries(&sample_entries()), "nope") {
        Err(ScriptLookupError::NotFound { name }) => assert_eq!(name, "nope"),
        _ => panic!("expected NotFound"),
    }
    let failed = Err(ScriptListError::UnknownScriptType { path: String::from("/x") });
    assert!(matches!(get_script(failed, "sleep"), Err(ScriptLookupError::ListFailed(_))));
}
