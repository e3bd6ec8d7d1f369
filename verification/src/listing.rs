//! The list of scripts built from the files found in the scripts folder,
//! and the lookup of a script by its name.

use vstd::prelude::*;
use crate::text::{
    lemma_stem_dot_extension,
    extension_of,
    file_extension,
    file_stem,
    forward_slashes,
    stem_of,
    str_equal,
    to_forward_slashes,
};
use crate::scripts::{
    Runner,
    location_path,
    main_folder,
    ScriptLocation,
    file_name_of,
    kind_for_ext,
    ScriptKind,
    construct_script,
    construct_script_binary,
    describe_option,
    script_for_ext,
    Script,
    ScriptView,
    TypedScript,
};

verus! {

/// A file system entry met while walking the scripts folder.
pub struct DirEntryInfo {
    /// Whether the entry is a regular file.
    pub is_file: bool,
    /// The entry's file name.
    pub file_name: String,
    /// The entry's path relative to the server's folder, with the platform's
    /// separators.
    pub relative_path: String,
    /// The entry's full path, as error messages show it.
    pub full_path: String,
}

/// Why the list of scripts could not be built.
#[derive(Debug)]
pub enum ScriptListError {
    /// A file whose type names no kind of script; it holds the file's full
    /// path.
    UnknownScriptType { path: String },
}

/// Why a script could not be looked up.
#[derive(Debug)]
pub enum ScriptLookupError {
    /// The list of scripts could not be built.
    ListFailed(ScriptListError),
    /// No script has the name asked for; it holds that name.
    NotFound { name: String },
}

/// The message of the error for a script name that no script has.
pub open spec fn not_found_text(name: Seq<char>) -> Seq<char> {
    "Script with name "@ + name + " not found."@
}

/// The message of the error for a script name that no script has.
pub fn not_found_message(name: &str) -> (r: String)
    ensures
        r@ == not_found_text(name@),
{
    let mut r = String::from_str("Script with name ");
    r.append(name);
    r.append(" not found.");
    proof {
        assert(r@ =~= not_found_text(name@));
    }
    r
}

/// What a sequence of scripts is, as the contracts speak of it.
pub open spec fn describe_all(scripts: Seq<TypedScript>) -> Seq<ScriptView> {
    scripts.map_values(|s: TypedScript| s.describe())
}

/// The script that a file entry stands for: a file without an extension
/// stands for none, and one with an extension stands for the script of the
/// kind it names, named by the file's stem, at the entry's relative path
/// with forward slashes.
pub open spec fn entry_script(e: DirEntryInfo) -> Option<ScriptView> {
    let ext = extension_of(e.file_name@);
    if ext.len() == 0 {
        None
    } else {
        script_for_ext(stem_of(e.file_name@), forward_slashes(e.relative_path@), ext)
    }
}

/// The list of scripts that a walk of the scripts folder gives, in the
/// order of the walk: entries that are no files are passed over, and the
/// first file that stands for no script makes the listing fail with its full
/// path.
pub open spec fn listing(entries: Seq<DirEntryInfo>) -> Result<Seq<ScriptView>, Seq<char>>
    decreases entries.len(),
{
    if entries.len() == 0 {
        Ok(Seq::empty())
    } else {
        match listing(entries.drop_last()) {
            Err(p) => Err(p),
            Ok(prev) => {
                let e = entries.last();
                if !e.is_file {
                    Ok(prev)
                } else {
                    match entry_script(e) {
                        Some(s) => Ok(prev.push(s)),
                        None => Err(e.full_path@),
                    }
                }
            },
        }
    }
}

/// A file whose extension names a kind of script stands for a script of
/// that kind, named by the file name without its extension, whose file name
/// (its name followed by its extension) is the file's own name; its file is
/// looked for again at the path at which it was listed, and a file listed in
/// the scripts folder itself is the one found there first.
pub proof fn lemma_entry_script_file_name(e: DirEntryInfo)
    requires
        kind_for_ext(extension_of(e.file_name@)) != ScriptKind::Unknown,
    ensures
        entry_script(e) matches Some(d) && d.name == stem_of(e.file_name@) && d.kind
            == kind_for_ext(extension_of(e.file_name@)) && file_name_of(d) == e.file_name@
            && location_path(ScriptLocation::Listed, d) == forward_slashes(e.relative_path@)
            && (forward_slashes(e.relative_path@) == main_folder() + e.file_name@
            ==> location_path(ScriptLocation::Main, d) == location_path(
            ScriptLocation::Listed,
            d,
        )),
{
    let f = e.file_name@;
    let ext = extension_of(f);
    reveal_strlit("ps1");
    reveal_strlit("py");
    reveal_strlit("sh");
    reveal_strlit(".ps1");
    reveal_strlit(".py");
    reveal_strlit(".sh");
    assert(ext.len() > 0);
    lemma_stem_dot_extension(f);
    let d = entry_script(e)->Some_0;
    assert(d.extension =~= seq!['.'] + ext);
    assert(file_name_of(d) =~= f);
}

/// How many of the entries are files.
pub open spec fn file_count(entries: Seq<DirEntryInfo>) -> nat
    decreases entries.len(),
{
    if entries.len() == 0 {
        0
    } else {
        file_count(entries.drop_last()) + if entries.last().is_file {
            1nat
        } else {
            0nat
        }
    }
}

/// Every file found is listed: the listing succeeds exactly when every file
/// of the walk stands for a script, and then it holds one script per file.
pub proof fn lemma_listing_succeeds_iff_all_files_known(entries: Seq<DirEntryInfo>)
    ensures
        (listing(entries) is Ok) <==> (forall|i: int|
            0 <= i < entries.len() && (#[trigger] entries[i]).is_file ==> entry_script(
                entries[i],
            ) is Some),
        listing(entries) matches Ok(l) ==> l.len() == file_count(entries),
    decreases entries.len(),
{
    if entries.len() > 0 {
        let prefix = entries.drop_last();
        lemma_listing_succeeds_iff_all_files_known(prefix);
        assert forall|i: int| 0 <= i < prefix.len() implies prefix[i] == entries[i] by {}
        if listing(prefix) is Err {
            let k = choose|k: int|
                !(0 <= k < prefix.len() && (#[trigger] prefix[k]).is_file ==> entry_script(
                    prefix[k],
                ) is Some);
            assert(entries[k] == prefix[k]);
        }
    }
}

/// The files of a walk, in walk order.
pub open spec fn file_entries(entries: Seq<DirEntryInfo>) -> Seq<DirEntryInfo> {
    entries.filter(|e: DirEntryInfo| e.is_file)
}

/// The program that runs a script of a known kind.
pub open spec fn runner_for_kind(kind: ScriptKind) -> Runner {
    match kind {
        ScriptKind::PowerShell => Runner::PowerShell,
        ScriptKind::Python => Runner::Python,
        ScriptKind::Shell => Runner::Shell,
        _ => Runner::Native,
    }
}

/// `d` is the script that the file `f` holds: named by the file name without
/// its extension, at the file's relative path with forward slashes, carrying
/// a dot and the file's extension, of the (known) kind that extension names
/// and run by that kind's program; its name and extension give the file name
/// back.
pub open spec fn is_script_of_file(d: ScriptView, f: DirEntryInfo) -> bool {
    let ext = extension_of(f.file_name@);
    &&& d.name == stem_of(f.file_name@)
    &&& d.relative_path == forward_slashes(f.relative_path@)
    &&& d.extension == seq!['.'] + ext
    &&& d.kind == kind_for_ext(ext)
    &&& d.kind != ScriptKind::Unknown
    &&& d.runner == runner_for_kind(d.kind)
    &&& d.name + d.extension == f.file_name@
}

/// The script a file entry stands for, where it stands for one, is the
/// script that file holds.
pub proof fn lemma_entry_script_is_script_of_file(e: DirEntryInfo)
    ensures
        entry_script(e) matches Some(d) ==> is_script_of_file(d, e),
{
    let f = e.file_name@;
    let ext = extension_of(f);
    reveal_strlit("ps1");
    reveal_strlit("py");
    reveal_strlit("sh");
    reveal_strlit(".ps1");
    reveal_strlit(".py");
    reveal_strlit(".sh");
    if entry_script(e) is Some {
        let d = entry_script(e)->Some_0;
        assert(ext.len() > 0);
        lemma_stem_dot_extension(f);
        assert(d.extension =~= seq!['.'] + ext);
        assert(d.name + d.extension =~= f);
    }
}

/// A successful listing holds, in walk order, exactly one script per file of
/// the walk: the script that file holds (its name, relative path with forward
/// slashes, extension, kind and program all taken from that file).
pub proof fn lemma_listing_is_scripts_of_files(entries: Seq<DirEntryInfo>)
    ensures
        listing(entries) matches Ok(l) ==> l.len() == file_entries(entries).len() && forall|k: int|
            0 <= k < l.len() ==> is_script_of_file(#[trigger] l[k], file_entries(entries)[k]),
    decreases entries.len(),
{
    reveal(Seq::filter);
    if entries.len() > 0 {
        let prefix = entries.drop_last();
        lemma_listing_is_scripts_of_files(prefix);
        let e = entries.last();
        lemma_entry_script_is_script_of_file(e);
        if listing(entries) is Ok {
            let l = listing(entries)->Ok_0;
            let prev = listing(prefix)->Ok_0;
            assert(file_entries(entries) == if e.is_file {
                file_entries(prefix).push(e)
            } else {
                file_entries(prefix)
            });
            if e.is_file {
                assert(l == prev.push(entry_script(e)->Some_0));
                assert forall|k: int| 0 <= k < l.len() implies is_script_of_file(
                    #[trigger] l[k],
                    file_entries(entries)[k],
                ) by {
                    if k < prev.len() {
                        assert(l[k] == prev[k]);
                        assert(file_entries(entries)[k] == file_entries(prefix)[k]);
                    }
                }
            }
        }
    } else {
        assert(file_entries(entries) =~= Seq::<DirEntryInfo>::empty());
    }
}

/// Once a prefix of the walk fails, every longer prefix fails the same way.
proof fn lemma_listing_failure_persists(entries: Seq<DirEntryInfo>, i: int, p: Seq<char>)
    requires
        0 <= i <= entries.len(),
        listing(entries.take(i)) == Err::<Seq<ScriptView>, Seq<char>>(p),
    ensures
        listing(entries) == Err::<Seq<ScriptView>, Seq<char>>(p),
    decreases entries.len() - i,
{
    if i < entries.len() {
        assert(entries.take(i + 1).drop_last() =~= entries.take(i));
        lemma_listing_failure_persists(entries, i + 1, p);
    } else {
        assert(entries.take(i) =~= entries);
    }
}

/// The script that one file stands for.
fn script_for_entry(e: &DirEntryInfo) -> (r: Option<TypedScript>)
    ensures
        describe_option(r) == entry_script(*e),
{
    let name = file_stem(e.file_name.as_str());
    let rel_path = to_forward_slashes(e.relative_path.as_str());
    let path_ext = file_extension(e.file_name.as_str());
    if path_ext.unicode_len() == 0 {
        construct_script_binary(name, rel_path, e.full_path.as_str())
    } else {
        construct_script(name, rel_path, path_ext)
    }
}

/// The list of scripts that the entries of a walk of the scripts folder
/// stand for, in the order of the walk; the first file that stands for no
/// script makes it fail.
pub fn script_list_from_entries(entries: &Vec<DirEntryInfo>) -> (r: Result<
    Vec<TypedScript>,
    ScriptListError,
>)
    ensures
        match r {
            Ok(v) => listing(entries@) == Ok::<Seq<ScriptView>, Seq<char>>(describe_all(v@)),
            Err(ScriptListError::UnknownScriptType { path }) => listing(entries@) == Err::<
                Seq<ScriptView>,
                Seq<char>,
            >(path@),
        },
{
    let mut scripts: Vec<TypedScript> = Vec::new();
    let n = entries.len();
    let mut i: usize = 0;
    proof {
        assert(entries@.take(0) =~= Seq::<DirEntryInfo>::empty());
        assert(describe_all(scripts@) =~= Seq::<ScriptView>::empty());
    }
    while i < n
        invariant
            n == entries@.len(),
            i <= n,
            listing(entries@.take(i as int)) == Ok::<Seq<ScriptView>, Seq<char>>(
                describe_all(scripts@),
            ),
        decreases n - i,
    {
        let e = &entries[i];
        let ghost prev = describe_all(scripts@);
        proof {
            assert(entries@.take(i + 1).drop_last() =~= entries@.take(i as int));
            assert(entries@.take(i + 1).last() == entries@[i as int]);
            assert(listing(entries@.take(i + 1)) == (if !e.is_file {
                Ok::<Seq<ScriptView>, Seq<char>>(prev)
            } else {
                match entry_script(*e) {
                    Some(s) => Ok(prev.push(s)),
                    None => Err(e.full_path@),
                }
            }));
        }
        if e.is_file {
            match script_for_entry(e) {
                Some(s) => {
                    let ghost d = s.describe();
                    scripts.push(s);
                    proof {
                        assert(describe_all(scripts@) =~= prev.push(d));
                    }
                },
                None => {
                    let path = String::from_str(e.full_path.as_str());
                    proof {
                        lemma_listing_failure_persists(entries@, i + 1, path@);
                    }
                    return Err(ScriptListError::UnknownScriptType { path });
                },
            }
        }
        i = i + 1;
    }
    proof {
        assert(entries@.take(n as int) =~= entries@);
    }
    Ok(scripts)
}

/// `i` is the position of the first script named `name`.
pub open spec fn first_named(scripts: Seq<ScriptView>, name: Seq<char>, i: int) -> bool {
    &&& 0 <= i < scripts.len()
    &&& scripts[i].name == name
    &&& forall|j: int| 0 <= j < i ==> scripts[j].name != name
}

/// The first script of the list named `name`; `None` where none is.
pub fn find_script(scripts: Vec<TypedScript>, name: &str) -> (r: Option<TypedScript>)
    ensures
        match r {
            Some(s) => exists|i: int| #[trigger]
                first_named(describe_all(scripts@), name@, i) && s.describe() == scripts@[i].describe(),
            None => forall|i: int|
                0 <= i < scripts@.len() ==> (#[trigger] scripts@[i]).describe().name != name@,
        },
{
    let ghost all = scripts@;
    let mut list = scripts;
    let n = list.len();
    let mut i: usize = 0;
    while i < n
        invariant
            list@ == all,
            all == scripts@,
            n == all.len(),
            i <= n,
            forall|j: int| 0 <= j < i ==> (#[trigger] all[j]).describe().name != name@,
        decreases n - i,
    {
        if str_equal(list[i].get_name(), name) {
            let s = list.remove(i);
            proof {
                let d = describe_all(all);
                assert forall|j: int| 0 <= j < i implies d[j].name != name@ by {
                    assert(d[j] == all[j].describe());
                }
                assert(d[i as int] == all[i as int].describe());
                assert(first_named(d, name@, i as int));
                assert(first_named(describe_all(all), name@, i as int) && s.describe()
                    == all[i as int].describe());
            }
            return Some(s);
        }
        i = i + 1;
    }
    None
}

/// The script named `name` in a list of scripts, or why there is none: the
/// list could not be built, or no script in it has that name.
pub fn get_script(list: Result<Vec<TypedScript>, ScriptListError>, name: &str) -> (r: Result<
    TypedScript,
    ScriptLookupError,
>)
    ensures
        match list {
            Err(e) => r == Err::<TypedScript, ScriptLookupError>(ScriptLookupError::ListFailed(e)),
            Ok(v) => match r {
                Ok(s) => exists|i: int|
                    first_named(describe_all(v@), name@, i) && s.describe() == v@[i].describe(),
                Err(ScriptLookupError::NotFound { name: missing }) => missing@ == name@ && forall|
                    i: int,
                | 0 <= i < v@.len() ==> (#[trigger] v@[i]).describe().name != name@,
                Err(ScriptLookupError::ListFailed(_)) => false,
            },
        },
{
    match list {
        Err(e) => Err(ScriptLookupError::ListFailed(e)),
        Ok(v) => match find_script(v, name) {
            Some(s) => Ok(s),
            None => Err(ScriptLookupError::NotFound { name: String::from_str(name) }),
        },
    }
}

} // verus!
