//! Script kinds, the script types that the server knows how to run, and
//! where a script's file is looked for.

use vstd::prelude::*;
use crate::text::{str_equal, str_starts_with};

verus! {

/// What kind of script a file extension names.
#[derive(PartialEq, Eq, Structural, Debug, Clone, Copy)]
pub enum ScriptKind {
    PowerShell,
    Python,
    Shell,
    Binary,
    Unknown,
}

/// The program that runs a script.
#[derive(PartialEq, Eq, Structural, Debug, Clone, Copy)]
pub enum Runner {
    PowerShell,
    Python,
    Shell,
    Native,
}

/// The family of the platform the server runs on; it decides the file
/// extension of native executables.
#[derive(PartialEq, Eq, Structural, Debug, Clone, Copy)]
pub enum TargetFamily {
    Windows,
    Unix,
}

/// The folder, next to the server's executable, that holds the scripts.
pub const SCRIPTS_DIR: &'static str = "scripts";

/// The sub-folder of the scripts folder whose scripts are answered at once
/// and started a little later.
pub const IMMEDIATE_RET_PATH: &'static str = "ret_immediately";

/// The kind of script that a file extension (without its dot) names.
pub open spec fn kind_for_ext(ext: Seq<char>) -> ScriptKind {
    if ext == "ps1"@ {
        ScriptKind::PowerShell
    } else if ext == "py"@ {
        ScriptKind::Python
    } else if ext == "sh"@ {
        ScriptKind::Shell
    } else {
        ScriptKind::Unknown
    }
}

/// The kind of script that a file extension (without its dot) names:
/// `ps1`, `py` and `sh` are known, anything else is `Unknown`.
pub fn get_type_kind_for_ext(string: &str) -> (r: ScriptKind)
    ensures
        r == kind_for_ext(string@),
{
    if str_equal(string, "ps1") {
        ScriptKind::PowerShell
    } else if str_equal(string, "py") {
        ScriptKind::Python
    } else if str_equal(string, "sh") {
        ScriptKind::Shell
    } else {
        ScriptKind::Unknown
    }
}

/// The extension, with its dot, of native executables on a platform family.
pub open spec fn binary_extension(family: TargetFamily) -> Seq<char> {
    match family {
        TargetFamily::Windows => ".exe"@,
        TargetFamily::Unix => ""@,
    }
}

/// The extension, with its dot, of native executables on a platform family.
pub fn get_platform_dependent_extension(family: TargetFamily) -> (r: &'static str)
    ensures
        r@ == binary_extension(family),
{
    match family {
        TargetFamily::Windows => ".exe",
        TargetFamily::Unix => "",
    }
}

/// What a script is, as its contracts speak of it.
pub struct ScriptView {
    pub runner: Runner,
    pub kind: ScriptKind,
    pub name: Seq<char>,
    pub relative_path: Seq<char>,
    pub extension: Seq<char>,
}

/// The program and arguments that run the script file at `path`.
pub open spec fn command_of(runner: Runner, path: Seq<char>) -> (Seq<char>, Seq<Seq<char>>) {
    match runner {
        Runner::PowerShell => (
            "powershell.exe"@,
            seq!["-executionpolicy"@, "bypass"@, "-File"@, path],
        ),
        Runner::Python => ("python"@, seq![path]),
        Runner::Shell => ("sh"@, seq![path]),
        Runner::Native => (path, Seq::empty()),
    }
}

/// A program with its arguments.
pub struct CommandLine {
    pub program: String,
    pub args: Vec<String>,
}

impl View for CommandLine {
    type V = (Seq<char>, Seq<Seq<char>>);

    open spec fn view(&self) -> (Seq<char>, Seq<Seq<char>>) {
        (self.program@, self.args@.map_values(|a: String| a@))
    }
}

/// A script the server can list and run.
pub trait Script {
    spec fn describe(&self) -> ScriptView;

    /// The script's name: its file name without its extension.
    fn get_name(&self) -> (r: &str)
        ensures
            r@ == self.describe().name,
    ;

    /// The script's path relative to the server's folder, with `/` between
    /// its parts.
    fn get_relative_path(&self) -> (r: &str)
        ensures
            r@ == self.describe().relative_path,
    ;

    /// The extension, with its dot, that the script's file carries.
    fn get_extension(&self) -> (r: &str)
        ensures
            r@ == self.describe().extension,
    ;

    /// The command that runs the script's file at `full_path`.
    fn command(&self, full_path: &str) -> (r: CommandLine)
        ensures
            r@ == command_of(self.describe().runner, full_path@),
    ;
}

fn one_arg(path: &str) -> (r: Vec<String>)
    ensures
        r@.map_values(|a: String| a@) == seq![path@],
{
    let mut v: Vec<String> = Vec::new();
    v.push(String::from_str(path));
    assert(v@.map_values(|a: String| a@) =~= seq![path@]);
    v
}

/// A PowerShell script, run by `powershell.exe`.
pub struct PowerShellScript {
    name: String,
    relative_path: String,
    script_kind: ScriptKind,
}

impl PowerShellScript {
    /// A PowerShell script named `n` at `p`, whose kind is the one that the
    /// extension `e` names.
    pub fn new(n: String, p: String, e: String) -> (r: PowerShellScript)
        ensures
            r.describe() == (ScriptView {
                runner: Runner::PowerShell,
                kind: kind_for_ext(e@),
                name: n@,
                relative_path: p@,
                extension: ".ps1"@,
            }),
    {
        let k = get_type_kind_for_ext(e.as_str());
        PowerShellScript { name: n, relative_path: p, script_kind: k }
    }
}

impl Script for PowerShellScript {
    closed spec fn describe(&self) -> ScriptView {
        ScriptView {
            runner: Runner::PowerShell,
            kind: self.script_kind,
            name: self.name@,
            relative_path: self.relative_path@,
            extension: ".ps1"@,
        }
    }

    fn get_name(&self) -> (r: &str) {
        self.name.as_str()
    }

    fn get_relative_path(&self) -> (r: &str) {
        self.relative_path.as_str()
    }

    fn get_extension(&self) -> (r: &str) {
        ".ps1"
    }

    fn command(&self, full_path: &str) -> (r: CommandLine) {
        let mut args: Vec<String> = Vec::new();
        args.push(String::from_str("-executionpolicy"));
        args.push(String::from_str("bypass"));
        args.push(String::from_str("-File"));
        args.push(String::from_str(full_path));
        let r = CommandLine { program: String::from_str("powershell.exe"), args };
        assert(r@.1 =~= seq!["-executionpolicy"@, "bypass"@, "-File"@, full_path@]);
        r
    }
}

/// A Python script, run by `python`.
pub struct PythonScript {
    name: String,
    relative_path: String,
    script_kind: ScriptKind,
}

impl PythonScript {
    /// A Python script named `n` at `p`, whose kind is the one that the
    /// extension `e` names.
    pub fn new(n: String, p: String, e: String) -> (r: PythonScript)
        ensures
            r.describe() == (ScriptView {
                runner: Runner::Python,
                kind: kind_for_ext(e@),
                name: n@,
                relative_path: p@,
                extension: ".py"@,
            }),
    {
        let k = get_type_kind_for_ext(e.as_str());
        PythonScript { name: n, relative_path: p, script_kind: k }
    }
}

impl Script for PythonScript {
    closed spec fn describe(&self) -> ScriptView {
        ScriptView {
            runner: Runner::Python,
            kind: self.script_kind,
            name: self.name@,
            relative_path: self.relative_path@,
            extension: ".py"@,
        }
    }

    fn get_name(&self) -> (r: &str) {
        self.name.as_str()
    }

    fn get_relative_path(&self) -> (r: &str) {
        self.relative_path.as_str()
    }

    fn get_extension(&self) -> (r: &str) {
        ".py"
    }

    fn command(&self, full_path: &str) -> (r: CommandLine) {
        CommandLine { program: String::from_str("python"), args: one_arg(full_path) }
    }
}

/// A shell script, run by `sh`.
pub struct ShellScript {
    name: String,
    relative_path: String,
    script_kind: ScriptKind,
}

impl ShellScript {
    /// A shell script named `n` at `p`, whose kind is the one that the
    /// extension `e` names.
    pub fn new(n: String, p: String, e: String) -> (r: ShellScript)
        ensures
            r.describe() == (ScriptView {
                runner: Runner::Shell,
                kind: kind_for_ext(e@),
                name: n@,
                relative_path: p@,
                extension: ".sh"@,
            }),
    {
        let k = get_type_kind_for_ext(e.as_str());
        ShellScript { name: n, relative_path: p, script_kind: k }
    }
}

impl Script for ShellScript {
    closed spec fn describe(&self) -> ScriptView {
        ScriptView {
            runner: Runner::Shell,
            kind: self.script_kind,
            name: self.name@,
            relative_path: self.relative_path@,
            extension: ".sh"@,
        }
    }

    fn get_name(&self) -> (r: &str) {
        self.name.as_str()
    }

    fn get_relative_path(&self) -> (r: &str) {
        self.relative_path.as_str()
    }

    fn get_extension(&self) -> (r: &str) {
        ".sh"
    }

    fn command(&self, full_path: &str) -> (r: CommandLine) {
        CommandLine { program: String::from_str("sh"), args: one_arg(full_path) }
    }
}

/// A native executable, run directly.
pub struct BinaryScript {
    name: String,
    relative_path: String,
    script_kind: ScriptKind,
    family: TargetFamily,
}

impl BinaryScript {
    /// A native executable named `n` at `p`, on a platform of `family`.
    pub fn new(n: String, p: String, family: TargetFamily) -> (r: BinaryScript)
        ensures
            r.describe() == (ScriptView {
                runner: Runner::Native,
                kind: ScriptKind::Binary,
                name: n@,
                relative_path: p@,
                extension: binary_extension(family),
            }),
    {
        BinaryScript { name: n, relative_path: p, script_kind: ScriptKind::Binary, family }
    }
}

impl Script for BinaryScript {
    closed spec fn describe(&self) -> ScriptView {
        ScriptView {
            runner: Runner::Native,
            kind: self.script_kind,
            name: self.name@,
            relative_path: self.relative_path@,
            extension: binary_extension(self.family),
        }
    }

    fn get_name(&self) -> (r: &str) {
        self.name.as_str()
    }

    fn get_relative_path(&self) -> (r: &str) {
        self.relative_path.as_str()
    }

    fn get_extension(&self) -> (r: &str) {
        get_platform_dependent_extension(self.family)
    }

    fn command(&self, full_path: &str) -> (r: CommandLine) {
        let r = CommandLine { program: String::from_str(full_path), args: Vec::new() };
        assert(r@.1 =~= Seq::<Seq<char>>::empty());
        r
    }
}

/// A script of one of the types the server knows.
pub enum TypedScript {
    PowerShell(PowerShellScript),
    Python(PythonScript),
    Shell(ShellScript),
    Binary(BinaryScript),
}

impl Script for TypedScript {
    closed spec fn describe(&self) -> ScriptView {
        match self {
            TypedScript::PowerShell(s) => s.describe(),
            TypedScript::Python(s) => s.describe(),
            TypedScript::Shell(s) => s.describe(),
            TypedScript::Binary(s) => s.describe(),
        }
    }

    fn get_name(&self) -> (r: &str) {
        match self {
            TypedScript::PowerShell(s) => s.get_name(),
            TypedScript::Python(s) => s.get_name(),
            TypedScript::Shell(s) => s.get_name(),
            TypedScript::Binary(s) => s.get_name(),
        }
    }

    fn get_relative_path(&self) -> (r: &str) {
        match self {
            TypedScript::PowerShell(s) => s.get_relative_path(),
            TypedScript::Python(s) => s.get_relative_path(),
            TypedScript::Shell(s) => s.get_relative_path(),
            TypedScript::Binary(s) => s.get_relative_path(),
        }
    }

    fn get_extension(&self) -> (r: &str) {
        match self {
            TypedScript::PowerShell(s) => s.get_extension(),
            TypedScript::Python(s) => s.get_extension(),
            TypedScript::Shell(s) => s.get_extension(),
            TypedScript::Binary(s) => s.get_extension(),
        }
    }

    fn command(&self, full_path: &str) -> (r: CommandLine) {
        match self {
            TypedScript::PowerShell(s) => s.command(full_path),
            TypedScript::Python(s) => s.command(full_path),
            TypedScript::Shell(s) => s.command(full_path),
            TypedScript::Binary(s) => s.command(full_path),
        }
    }
}

impl TypedScript {
    /// The kind that the script records.
    pub fn script_kind(&self) -> (r: ScriptKind)
        ensures
            r == self.describe().kind,
    {
        match self {
            TypedScript::PowerShell(s) => s.script_kind,
            TypedScript::Python(s) => s.script_kind,
            TypedScript::Shell(s) => s.script_kind,
            TypedScript::Binary(s) => s.script_kind,
        }
    }
}

/// What an optional script is, as the contracts speak of it.
pub open spec fn describe_option(o: Option<TypedScript>) -> Option<ScriptView> {
    match o {
        Some(s) => Some(s.describe()),
        None => None,
    }
}

/// The script that a file named `name` at `path` with extension `ext`
/// (without its dot) stands for; none where the extension names no kind the
/// server can run.
pub open spec fn script_for_ext(name: Seq<char>, path: Seq<char>, ext: Seq<char>) -> Option<
    ScriptView,
> {
    match kind_for_ext(ext) {
        ScriptKind::PowerShell => Some(
            ScriptView {
                runner: Runner::PowerShell,
                kind: ScriptKind::PowerShell,
                name,
                relative_path: path,
                extension: ".ps1"@,
            },
        ),
        ScriptKind::Python => Some(
            ScriptView {
                runner: Runner::Python,
                kind: ScriptKind::Python,
                name,
                relative_path: path,
                extension: ".py"@,
            },
        ),
        ScriptKind::Shell => Some(
            ScriptView {
                runner: Runner::Shell,
                kind: ScriptKind::Shell,
                name,
                relative_path: path,
                extension: ".sh"@,
            },
        ),
        _ => None,
    }
}

/// The script that a file with the given name, relative path and extension
/// (without its dot) stands for; `None` where the extension names no kind of
/// script.
pub fn construct_script(name: String, path: String, extension: String) -> (r: Option<TypedScript>)
    ensures
        describe_option(r) == script_for_ext(name@, path@, extension@),
{
    let script_kind = get_type_kind_for_ext(extension.as_str());
    match script_kind {
        ScriptKind::PowerShell => Some(
            TypedScript::PowerShell(PowerShellScript::new(name, path, extension)),
        ),
        ScriptKind::Python => Some(TypedScript::Python(PythonScript::new(name, path, extension))),
        ScriptKind::Shell => Some(TypedScript::Shell(ShellScript::new(name, path, extension))),
        ScriptKind::Binary => None,
        ScriptKind::Unknown => None,
    }
}

/// Whether the file at `path` may be run as a native executable; no file is
/// taken for one.
pub fn check_is_executable(path: &str) -> (r: bool)
    ensures
        !r,
{
    false
}

/// The script that a file without an extension stands for: none, since no
/// file is taken for a native executable.
pub fn construct_script_binary(name: String, rel_path: String, full_path: &str) -> (r: Option<
    TypedScript,
>)
    ensures
        r is None,
{
    match check_is_executable(full_path) {
        true => None,
        false => None,
    }
}

/// Where, under the server's folder, a script's file is looked for.
#[derive(PartialEq, Eq, Structural, Debug, Clone, Copy)]
pub enum ScriptLocation {
    /// The scripts folder itself.
    Main,
    /// The sub-folder of scripts that are answered at once.
    ImmediateReturn,
    /// The path at which the script was listed.
    Listed,
}

/// The file name of a script: its name followed by its extension.
pub open spec fn file_name_of(d: ScriptView) -> Seq<char> {
    d.name + d.extension
}

/// The scripts folder, relative to the server's folder and ending in `/`.
pub open spec fn main_folder() -> Seq<char> {
    SCRIPTS_DIR@ + "/"@
}

/// The sub-folder of scripts answered at once, relative to the server's
/// folder and ending in `/`.
pub open spec fn immediate_folder() -> Seq<char> {
    SCRIPTS_DIR@ + "/"@ + IMMEDIATE_RET_PATH@ + "/"@
}

/// The path, relative to the server's folder, at which a script's file is
/// looked for in a location: its file name in the scripts folder, its file
/// name in the sub-folder of scripts answered at once, or the path at which
/// it was listed.
pub open spec fn location_path(location: ScriptLocation, d: ScriptView) -> Seq<char> {
    match location {
        ScriptLocation::Main => main_folder() + file_name_of(d),
        ScriptLocation::ImmediateReturn => immediate_folder() + file_name_of(d),
        ScriptLocation::Listed => d.relative_path,
    }
}

/// A script whose file was taken from a location is answered at once and
/// started later: where the file is in the sub-folder of scripts answered at
/// once, or anywhere below it.
pub open spec fn starts_later(location: ScriptLocation, d: ScriptView) -> bool {
    match location {
        ScriptLocation::Main => false,
        ScriptLocation::ImmediateReturn => true,
        ScriptLocation::Listed => immediate_folder().is_prefix_of(d.relative_path),
    }
}

/// The file name of a script: its name followed by its extension.
pub fn script_file_name<T: Script>(script: &T) -> (r: String)
    ensures
        r@ == file_name_of(script.describe()),
{
    let mut r = String::from_str(script.get_name());
    r.append(script.get_extension());
    r
}

/// The path, relative to the server's folder, at which a script's file is
/// looked for in a location.
pub fn candidate_path<T: Script>(script: &T, location: ScriptLocation) -> (r: String)
    ensures
        r@ == location_path(location, script.describe()),
{
    match location {
        ScriptLocation::Listed => String::from_str(script.get_relative_path()),
        _ => {
            let mut r = String::from_str(SCRIPTS_DIR);
            r.append("/");
            if location == ScriptLocation::ImmediateReturn {
                r.append(IMMEDIATE_RET_PATH);
                r.append("/");
            }
            r.append(script.get_name());
            r.append(script.get_extension());
            proof {
                assert(r@ =~= location_path(location, script.describe()));
            }
            r
        },
    }
}

/// Whether a script whose file was taken from `location` is answered at once
/// and started later.
pub fn is_started_later<T: Script>(script: &T, location: ScriptLocation) -> (r: bool)
    ensures
        r == starts_later(location, script.describe()),
{
    match location {
        ScriptLocation::Main => false,
        ScriptLocation::ImmediateReturn => true,
        ScriptLocation::Listed => {
            let mut folder = String::from_str(SCRIPTS_DIR);
            folder.append("/");
            folder.append(IMMEDIATE_RET_PATH);
            folder.append("/");
            proof {
                assert(folder@ =~= immediate_folder());
            }
            str_starts_with(script.get_relative_path(), folder.as_str())
        },
    }
}

/// The location a script's file is taken from, given where it was found: the
/// scripts folder first, then the sub-folder of scripts answered at once,
/// then the path at which the script was listed.
pub open spec fn chosen_location(in_main: bool, in_immediate: bool, in_listed: bool) -> Option<
    ScriptLocation,
> {
    if in_main {
        Some(ScriptLocation::Main)
    } else if in_immediate {
        Some(ScriptLocation::ImmediateReturn)
    } else if in_listed {
        Some(ScriptLocation::Listed)
    } else {
        None
    }
}

/// The location a script's file is taken from, given whether it exists in
/// the scripts folder, in the sub-folder of scripts answered at once and at
/// the path at which it was listed; `None` where it is in none of them.
pub fn select_location(in_main: bool, in_immediate: bool, in_listed: bool) -> (r: Option<
    ScriptLocation,
>)
    ensures
        r == chosen_location(in_main, in_immediate, in_listed),
{
    if in_main {
        Some(ScriptLocation::Main)
    } else if in_immediate {
        Some(ScriptLocation::ImmediateReturn)
    } else if in_listed {
        Some(ScriptLocation::Listed)
    } else {
        None
    }
}

/// Where a script's file is taken from, and its path relative to the
/// server's folder, given whether the file exists at each of the places it is
/// looked for (the caller looks): the first of them, in the order of
/// `chosen_location`, where it exists; `None` where it is in none.
pub fn generic_get_full_path<T: Script>(
    script: &T,
    in_main: bool,
    in_immediate: bool,
    in_listed: bool,
) -> (r: Option<(ScriptLocation, String)>)
    ensures
        match chosen_location(in_main, in_immediate, in_listed) {
            Some(l) => r matches Some((found, p)) && found == l && p@ == location_path(
                l,
                script.describe(),
            ),
            None => r is None,
        },
{
    match select_location(in_main, in_immediate, in_listed) {
        Some(l) => Some((l, candidate_path(script, l))),
        None => None,
    }
}

/// Whether a script's file exists at a location, given what was found at
/// each of the places it is looked for.
pub open spec fn found_at(
    location: ScriptLocation,
    in_main: bool,
    in_immediate: bool,
    in_listed: bool,
) -> bool {
    match location {
        ScriptLocation::Main => in_main,
        ScriptLocation::ImmediateReturn => in_immediate,
        ScriptLocation::Listed => in_listed,
    }
}

/// The place of a location in the order in which a script's file is looked
/// for.
pub open spec fn search_rank(location: ScriptLocation) -> int {
    match location {
        ScriptLocation::Main => 0,
        ScriptLocation::ImmediateReturn => 1,
        ScriptLocation::Listed => 2,
    }
}

/// A script's file is taken from where it exists, and from the first such
/// place in the order scripts folder, `scripts/ret_immediately/`, listed
/// path; it is reported missing exactly when it exists at none of them.
pub proof fn lemma_location_is_first_found(in_main: bool, in_immediate: bool, in_listed: bool)
    ensures
        chosen_location(in_main, in_immediate, in_listed) matches Some(l) ==> found_at(
            l,
            in_main,
            in_immediate,
            in_listed,
        ) && forall|m: ScriptLocation|
            search_rank(m) < search_rank(l) ==> !found_at(m, in_main, in_immediate, in_listed),
        chosen_location(in_main, in_immediate, in_listed) is None <==> (!in_main && !in_immediate
            && !in_listed),
        in_main ==> chosen_location(in_main, in_immediate, in_listed) == Some(ScriptLocation::Main),
        !in_main && in_immediate ==> chosen_location(in_main, in_immediate, in_listed) == Some(
            ScriptLocation::ImmediateReturn,
        ),
{
}

/// Only a script whose file is in `scripts/ret_immediately/`, or below it, is
/// started later, whatever its kind or extension: never one found in the
/// scripts folder, always one found in that sub-folder, and one found where
/// it was listed exactly when its listed path begins with
/// `scripts/ret_immediately/`.
pub proof fn lemma_started_later_only_below_immediate_folder(d: ScriptView)
    ensures
        !starts_later(ScriptLocation::Main, d),
        starts_later(ScriptLocation::ImmediateReturn, d),
        starts_later(ScriptLocation::Listed, d) <==> (d.relative_path.len() >= 24
            && d.relative_path.subrange(0, 24) == "scripts/ret_immediately/"@),
{
    reveal_strlit("scripts");
    reveal_strlit("/");
    reveal_strlit("ret_immediately");
    reveal_strlit("scripts/ret_immediately/");
    assert(immediate_folder() =~= "scripts/ret_immediately/"@);
    if d.relative_path.len() >= 24 && d.relative_path.subrange(0, 24) == "scripts/ret_immediately/"@ {
        assert(immediate_folder().is_prefix_of(d.relative_path));
    }
}

/// The command that runs a script hands it the script's full path as it is:
/// the path is the only argument of `python` and of `sh`, the argument after
/// `-executionpolicy bypass -File` of `powershell.exe`, and the program
/// itself for a native executable.
pub proof fn lemma_command_passes_path_unchanged(p: Seq<char>)
    ensures
        command_of(Runner::Python, p) == ("python"@, seq![p]),
        command_of(Runner::Shell, p) == ("sh"@, seq![p]),
        command_of(Runner::PowerShell, p) == (
            "powershell.exe"@,
            seq!["-executionpolicy"@, "bypass"@, "-File"@, p],
        ),
        command_of(Runner::Native, p) == (p, Seq::<Seq<char>>::empty()),
        forall|r: Runner|
            r != Runner::Native ==> (#[trigger] command_of(r, p)).1.len() > 0 && command_of(
                r,
                p,
            ).1.last() == p,
{
    assert forall|r: Runner| r != Runner::Native implies (#[trigger] command_of(r, p)).1.len() > 0
        && command_of(r, p).1.last() == p by {
        match r {
            Runner::PowerShell => {
                assert(command_of(r, p).1.len() == 4);
            },
            _ => {},
        }
    }
}

} // verus!
