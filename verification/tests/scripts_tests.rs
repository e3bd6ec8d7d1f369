use articulator::scripts::{
    candidate_path, check_is_executable, construct_script, construct_script_binary,
    get_platform_dependent_extension, get_type_kind_for_ext, generic_get_full_path, is_started_later,
    script_file_name,
    select_location, BinaryScript, PowerShellScript, PythonScript, Script, ScriptKind,
    ScriptLocation, ShellScript, TargetFamily, TypedScript, IMMEDIATE_RET_PATH, SCRIPTS_DIR,
};

fn s(x: &str) -> String {
    String::from(x)
}

#[test]
fn kind_for_known_extensions() {
    assert_eq!(get_type_kind_for_ext("ps1"), ScriptKind::PowerShell);
    assert_eq!(get_type_kind_for_ext("py"), ScriptKind::Python);
    assert_eq!(get_type_kind_for_ext("sh"), ScriptKind::Shell);
}

#[test]
fn kind_for_unknown_extensions() {
    assert_eq!(get_type_kind_for_ext(""), ScriptKind::Unknown);
    assert_eq!(get_type_kind_for_ext("txt"), ScriptKind::Unknown);
    assert_eq!(get_type_kind_for_ext(".ps1"), ScriptKind::Unknown);
    assert_eq!(get_type_kind_for_ext("PS1"), ScriptKind::Unknown);
    assert_eq!(get_type_kind_for_ext("ps"), ScriptKind::Unknown);
}

#[test]
fn platform_extension_of_binaries() {
    assert_eq!(get_platform_dependent_extension(TargetFamily::Windows), ".exe");
    assert_eq!(get_platform_dependent_extension(TargetFamily::Unix), "");
}

#[test]
fn construct_powershell_script() {
    let sc = construct_script(s("backup"), s("scripts/backup.ps1"), s("ps1")).unwrap();
    assert!(matches!(sc, TypedScript::PowerShell(_)));
    assert_eq!(sc.get_name(), "backup");
    assert_eq!(sc.get_relative_path(), "scripts/backup.ps1");
    assert_eq!(sc.get_extension(), ".ps1");
    assert_eq!(sc.script_kind(), ScriptKind::PowerShell);
}

#[test]
fn construct_python_and_shell_scripts() {
    let py = construct_script(s("report"), s("scripts/report.py"), s("py")).unwrap();
    assert!(matches!(py, TypedScript::Python(_)));
    assert_eq!(py.get_extension(), ".py");
    assert_eq!(py.script_kind(), ScriptKind::Python);
    let sh = construct_script(s("clean"), s("scripts/clean.sh"), s("sh")).unwrap();
    assert!(matches!(sh, TypedScript::Shell(_)));
    assert_eq!(sh.get_extension(), ".sh");
    assert_eq!(sh.get_name(), "clean");
    assert_eq!(sh.script_kind(), ScriptKind::Shell);
}

#[test]
fn construct_unknown_is_none() {
    assert!(construct_script(s("notes"), s("scripts/notes.txt"), s("txt")).is_none());
    assert!(construct_script(s("x"), s("scripts/x"), s("")).is_none());
}

#[test]
fn binary_construction_gives_none() {
    assert!(!check_is_executable("/opt/app/scripts/tool"));
    assert!(construct_script_binary(s("tool"), s("scripts/tool"), "/opt/app/scripts/tool").is_none());
}

#[test]
fn typed_constructors_record_kind_of_extension() {
    let p = PowerShellScript::new(s("a"), s("scripts/a.ps1"), s("ps1"));
    assert_eq!(p.get_extension(), ".ps1");
    assert_eq!(p.get_name(), "a");
    let odd = PythonScript::new(s("b"), s("scripts/b.py"), s("txt"));
    assert_eq!(odd.get_extension(), ".py");
    assert_eq!(TypedScript::Python(odd).script_kind(), ScriptKind::Unknown);
    let sh = ShellScript::new(s("c"), s("scripts/c.sh"), s("sh"));
    assert_eq!(sh.get_relative_path(), "scripts/c.sh");
}

#[test]
fn binary_script_extension_depends_on_platform() {
    let w = BinaryScript::new(s("tool"), s("scripts/tool.exe"), TargetFamily::Windows);
    assert_eq!(w.get_extension(), ".exe");
    let u = BinaryScript::new(s("tool"), s("scripts/tool"), TargetFamily::Unix);
    assert_eq!(u.get_extension(), "");
    assert_eq!(TypedScript::Binary(u).script_kind(), ScriptKind::Binary);
}

#[test]
fn command_lines() {
    let p = PowerShellScript::new(s("a"), s("scripts/a.ps1"), s("ps1"));
    let c = p.command("/srv/scripts/a.ps1");
    assert_eq!(c.program, "powershell.exe");
    assert_eq!(c.args, vec![s("-executionpolicy"), s("bypass"), s("-File"), s("/srv/scripts/a.ps1")]);
    let py = PythonScript::new(s("b"), s("scripts/b.py"), s("py"));
    let c = py.command("/srv/scripts/b.py");
    assert_eq!(c.program, "python");
    assert_eq!(c.args, vec![s("/srv/scripts/b.py")]);
    let sh = ShellScript::new(s("c"), s("scripts/c.sh"), s("sh"));
    let c = sh.command("/srv/scripts/c.sh");
    assert_eq!(c.program, "sh");
    assert_eq!(c.args, vec![s("/srv/scripts/c.sh")]);
    let b = BinaryScript::new(s("d"), s("scripts/d"), TargetFamily::Unix);
    let c = TypedScript::Binary(b).command("/srv/scripts/d");
    assert_eq!(c.program, "/srv/scripts/d");
    assert!(c.args.is_empty());
}

#[test]
fn file_name_and_candidate_paths() {
    let sc = construct_script(s("backup"), s("scripts/backup.ps1"), s("ps1")).unwrap();
    assert_eq!(script_file_name(&sc), "backup.ps1");
    assert_eq!(candidate_path(&sc, ScriptLocation::Main), "scripts/backup.ps1");
    assert_eq!(
        candidate_path(&sc, ScriptLocation::ImmediateReturn),
        "scripts/ret_immediately/backup.ps1"
    );
    assert_eq!(SCRIPTS_DIR, "scripts");
    assert_eq!(IMMEDIATE_RET_PATH, "ret_immediately");
}

#[test]
fn location_prefers_main_folder() {
    assert_eq!(select_location(true, true, true), Some(ScriptLocation::Main));
    assert_eq!(select_location(true, false, false), Some(ScriptLocation::Main));
    assert_eq!(select_location(false, true, true), Some(ScriptLocation::ImmediateReturn));
    assert_eq!(select_location(false, false, true), Some(ScriptLocation::Listed));
    assert_eq!(select_location(false, false, false), None);
}

#[test]
fn generic_get_full_path_follows_location() {
    let sc = construct_script(s("sleep"), s("scripts/ret_immediately/sleep.ps1"), s("ps1")).unwrap();
    assert_eq!(
        generic_get_full_path(&sc, false, true, true),
        Some((ScriptLocation::ImmediateReturn, s("scripts/ret_immediately/sleep.ps1")))
    );
    assert_eq!(
        generic_get_full_path(&sc, true, true, true),
        Some((ScriptLocation::Main, s("scripts/sleep.ps1")))
    );
    assert_eq!(generic_get_full_path(&sc, false, false, false), None);
}

#[test]
fn subfolder_scripts_are_found_where_listed() {
    let sc = construct_script(s("x"), s("scripts/tools/x.py"), s("py")).unwrap();
    assert_eq!(candidate_path(&sc, ScriptLocation::Listed), "scripts/tools/x.py");
    assert_eq!(
        generic_get_full_path(&sc, false, false, true),
        Some((ScriptLocation::Listed, s("scripts/tools/x.py")))
    );
    assert!(!is_started_later(&sc, ScriptLocation::Listed));
    let later = construct_script(s("n"), s("scripts/ret_immediately/deep/n.sh"), s("sh")).unwrap();
    assert!(is_started_later(&later, ScriptLocation::Listed));
    assert!(is_started_later(&later, ScriptLocation::ImmediateReturn));
    assert!(!is_started_later(&later, ScriptLocation::Main));
}
