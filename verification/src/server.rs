//! The server's decisions around its requests: the address it binds, the
//! links of its main page, and the steps of a request to run a script.

use vstd::prelude::*;
use crate::scripts::{is_started_later, starts_later, Script, ScriptLocation, TypedScript};
use crate::listing::{describe_all, find_script, first_named};
use crate::reply::{generic_error_handler, is_error_reply, is_ok_reply, ok_reply, HttpReply};

verus! {

/// The address the server binds when it is given none.
pub const DEFAULT_SERVER_HOSTNAME: &'static str = "localhost:3000";

/// The body of the reply to a script that is started later.
pub const EARLY_RETURN_MESSAGE: &'static str = "Attempted to kick off early-return script.";

/// The address the server binds: the one it was given, or the default.
pub fn server_hostname(arg_hostname: Option<String>) -> (r: String)
    ensures
        r@ == match arg_hostname {
            Some(name) => name@,
            None => DEFAULT_SERVER_HOSTNAME@,
        },
{
    match arg_hostname {
        Some(name) => name,
        None => String::from_str(DEFAULT_SERVER_HOSTNAME),
    }
}

/// The markup of the main page's link to the script named `name`.
pub open spec fn link_markup(name: Seq<char>) -> Seq<char> {
    "<a href=\"/scr/"@ + name + "\">"@ + name + "</a>"@
}

/// The main page's link to the script named `name`: an anchor to its run
/// address, showing its name.
pub fn script_link(name: &str) -> (r: String)
    ensures
        r@ == link_markup(name@),
{
    let mut r = String::from_str("<a href=\"/scr/");
    r.append(name);
    r.append("\">");
    r.append(name);
    r.append("</a>");
    proof {
        assert(r@ =~= link_markup(name@));
    }
    r
}

/// The main page's links, one per script, in the order of the list.
pub fn script_links(scripts: &Vec<TypedScript>) -> (r: Vec<String>)
    ensures
        r@.len() == scripts@.len(),
        forall|i: int|
            0 <= i < r@.len() ==> (#[trigger] r@[i])@ == link_markup(scripts@[i].describe().name),
{
    let mut out: Vec<String> = Vec::new();
    let n = scripts.len();
    let mut i: usize = 0;
    while i < n
        invariant
            n == scripts@.len(),
            i <= n,
            out@.len() == i,
            forall|j: int|
                0 <= j < i ==> (#[trigger] out@[j])@ == link_markup(scripts@[j].describe().name),
        decreases n - i,
    {
        out.push(script_link(scripts[i].get_name()));
        i = i + 1;
    }
    out
}

/// The next step of a request to run a script.
pub enum HandlerStep {
    /// Send this reply; the request is done.
    Reply(HttpReply),
    /// Look for this script's file, then pass what was found to `on_located`.
    Locate(TypedScript),
    /// Send this reply now, and start this script a little later.
    StartLater(TypedScript, HttpReply),
    /// Run this script now, and reply with what `generic_run` makes of it.
    RunNow(TypedScript),
}

/// The step of a request to run the script named `name`, once the list of
/// scripts is known: look for the file of the first script of that name; the
/// error reply where the list could not be built or no script has that name.
pub fn on_script_list<E>(list: Result<Vec<TypedScript>, E>, name: &str) -> (r: HandlerStep)
    ensures
        match list {
            Err(_) => r matches HandlerStep::Reply(rep) && is_error_reply(rep),
            Ok(v) => match r {
                HandlerStep::Locate(s) => exists|i: int|
                    #[trigger] first_named(describe_all(v@), name@, i) && s.describe()
                        == v@[i].describe(),
                HandlerStep::Reply(rep) => is_error_reply(rep) && forall|i: int|
                    0 <= i < v@.len() ==> (#[trigger] v@[i]).describe().name != name@,
                _ => false,
            },
        },
{
    match list {
        Err(_) => HandlerStep::Reply(generic_error_handler()),
        Ok(v) => match find_script(v, name) {
            Some(s) => HandlerStep::Locate(s),
            None => HandlerStep::Reply(generic_error_handler()),
        },
    }
}

/// The step of a request to run `script`, once its file was looked for,
/// given where it was found: the error reply where it was not found; where it
/// was found in the sub-folder of scripts answered at once (or listed below
/// it), a reply now and the script started later; otherwise the script run
/// now.
pub fn on_located(script: TypedScript, found: Option<ScriptLocation>) -> (r: HandlerStep)
    ensures
        match found {
            None => r matches HandlerStep::Reply(rep) && is_error_reply(rep),
            Some(l) => if starts_later(l, script.describe()) {
                r matches HandlerStep::StartLater(s, rep) && s == script && is_ok_reply(
                    rep,
                    EARLY_RETURN_MESSAGE@,
                )
            } else {
                r == HandlerStep::RunNow(script)
            },
        },
{
    match found {
        None => HandlerStep::Reply(generic_error_handler()),
        Some(l) => {
            if is_started_later(&script, l) {
                HandlerStep::StartLater(script, ok_reply(String::from_str(EARLY_RETURN_MESSAGE)))
            } else {
                HandlerStep::RunNow(script)
            }
        },
    }
}

/// The next step of a request for the main page or for the list of scripts.
pub enum ListingStep {
    /// Render these scripts, and reply with what was rendered.
    Render(Vec<TypedScript>),
    /// Send this reply; the request is done.
    Reply(HttpReply),
}

/// The step of a request for the main page or for the list of scripts, once
/// the list is known: render it where it could be built, the error reply
/// where it could not.
pub fn on_listing<E>(list: Result<Vec<TypedScript>, E>) -> (r: ListingStep)
    ensures
        match list {
            Ok(v) => r == ListingStep::Render(v),
            Err(_) => r matches ListingStep::Reply(rep) && is_error_reply(rep),
        },
{
    match list {
        Ok(v) => ListingStep::Render(v),
        Err(_) => ListingStep::Reply(generic_error_handler()),
    }
}

/// A link's run address names the script the link shows: after the fixed
/// opening `<a href="/scr/` comes the name, then `">`, the same name again,
/// and `</a>`.
pub proof fn lemma_link_names_its_script(name: Seq<char>)
    ensures
        link_markup(name).len() == 2 * name.len() + 20,
        link_markup(name).subrange(0, 14) == "<a href=\"/scr/"@,
        link_markup(name).subrange(14, 14 + name.len() as int) == name,
        link_markup(name).subrange(14 + name.len() as int, 16 + name.len() as int) == "\">"@,
        link_markup(name).subrange(16 + name.len() as int, 16 + 2 * name.len() as int) == name,
        link_markup(name).subrange(16 + 2 * name.len() as int, 20 + 2 * name.len() as int) == "</a>"@,
{
    reveal_strlit("<a href=\"/scr/");
    reveal_strlit("\">");
    reveal_strlit("</a>");
    let m = link_markup(name);
    let n = name.len() as int;
    assert(m.subrange(0, 14) =~= "<a href=\"/scr/"@);
    assert(m.subrange(14, 14 + n) =~= name);
    assert(m.subrange(14 + n, 16 + n) =~= "\">"@);
    assert(m.subrange(16 + n, 16 + 2 * n) =~= name);
    assert(m.subrange(16 + 2 * n, 20 + 2 * n) =~= "</a>"@);
}

} // verus!
