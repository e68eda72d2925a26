//! The request loop's decisions: for each request, what to answer, what to have done,
//! and whether to go on. The caller sends `before`, performs `action`, and sends
//! `after` only when the action succeeded.
use vstd::prelude::*;
use crate::command::{Launch, launch_is, pass_launch};
use crate::launcher::{ContextOption, PluginResponse, Request};
use crate::pass_menu::{self, all_actions, matching_ids, shows};
use crate::menu;
use crate::todo::{Session, parse_task_on, parsed_summary, parsed_due, build_menu, offers, task_line};
use crate::date::Date;

verus! {

/// Work that only the caller can do.
pub enum Action {
    /// Launch a program and do not wait for it.
    Launch(Launch),
    /// Publish the session's task to the calendar with this index.
    Publish(usize),
}

/// The outcome of one request.
pub struct Step {
    pub before: Vec<PluginResponse>,
    pub action: Option<Action>,
    pub after: Vec<PluginResponse>,
    pub error: Option<String>,
    pub keep_going: bool,
}

/// The search term without any leading `pass ` keywords.
pub open spec fn trim_keyword(s: Seq<char>) -> Seq<char>
    decreases s.len(),
{
    if s.len() >= 5 && s.take(5) == seq!['p', 'a', 's', 's', ' '] {
        trim_keyword(s.skip(5))
    } else {
        s
    }
}

/// Drops every leading `pass ` from `term`.
pub fn trim_pass_keyword(term: &str) -> (r: &str)
    ensures
        r@ == trim_keyword(term@),
{
    let n = term.unicode_len();
    let mut i: usize = 0;
    assert(term@.skip(0) =~= term@);
    while n - i >= 5 && term.get_char(i) == 'p' && term.get_char(i + 1) == 'a' && term.get_char(i + 2)
        == 's' && term.get_char(i + 3) == 's' && term.get_char(i + 4) == ' '
        invariant
            i <= n,
            n == term@.len(),
            trim_keyword(term@) == trim_keyword(term@.skip(i as int)),
        decreases n - i,
    {
        let ghost rest = term@.skip(i as int);
        assert(rest.take(5) =~= seq!['p', 'a', 's', 's', ' ']);
        assert(rest.skip(5) =~= term@.skip(i + 5));
        i = i + 5;
    }
    let ghost rest = term@.skip(i as int);
    proof {
        if rest.len() >= 5 && rest.take(5) == seq!['p', 'a', 's', 's', ' '] {
            assert(rest[0] == rest.take(5)[0]);
            assert(rest[1] == rest.take(5)[1]);
            assert(rest[2] == rest.take(5)[2]);
            assert(rest[3] == rest.take(5)[3]);
            assert(rest[4] == rest.take(5)[4]);
        }
    }
    let r = term.substring_char(i, n);
    assert(r@ =~= rest);
    r
}

/// A step that answers nothing, does nothing, and goes on or stops.
fn quiet(keep_going: bool) -> (r: Step)
    ensures
        r.before@.len() == 0,
        r.action is None,
        r.after@.len() == 0,
        r.error is None,
        r.keep_going == keep_going,
{
    Step { before: Vec::new(), action: None, after: Vec::new(), error: None, keep_going }
}

/// `rs` appends results for `ids` of `entries`, in order, then finishes.
pub open spec fn lists_then_finishes(
    rs: Seq<PluginResponse>,
    ids: Seq<int>,
    entries: Seq<crate::pass_lib::Leaf>,
) -> bool {
    &&& rs.len() == ids.len() + 1
    &&& forall|k: int|
        0 <= k < ids.len() ==> (#[trigger] rs[k] matches PluginResponse::Append(x) && shows(
            x,
            ids[k],
            entries[ids[k]],
        ))
    &&& rs.last() is Finished
}

/// Appends one response per result, then `Finished`. The results are moved, not copied:
/// taken off the back into a reversed list, then off that list's back into place.
fn answer_search(results: Vec<crate::launcher::PluginSearchResult>) -> (r: Vec<PluginResponse>)
    ensures
        r@.len() == results@.len() + 1,
        forall|k: int|
            0 <= k < results@.len() ==> (#[trigger] r@[k] matches PluginResponse::Append(x) && x
                == results@[k]),
        r@.last() is Finished,
{
    let mut out: Vec<PluginResponse> = Vec::new();
    let mut results = results;
    let ghost all = results@;
    let mut rev: Vec<crate::launcher::PluginSearchResult> = Vec::new();
    while results.len() > 0
        invariant
            rev@.len() + results@.len() == all.len(),
            results@ == all.take(results@.len() as int),
            forall|k: int| 0 <= k < rev@.len() ==> #[trigger] rev@[k] == all[all.len() - 1 - k],
        decreases results.len(),
    {
        let x = results.pop().unwrap();
        rev.push(x);
        assert(results@ =~= all.take(results@.len() as int));
    }
    while rev.len() > 0
        invariant
            out@.len() + rev@.len() == all.len(),
            forall|k: int| 0 <= k < rev@.len() ==> #[trigger] rev@[k] == all[all.len() - 1 - k],
            forall|k: int|
                0 <= k < out@.len() ==> (#[trigger] out@[k] matches PluginResponse::Append(x) && x
                    == all[k]),
        decreases rev.len(),
    {
        let x = rev.pop().unwrap();
        out.push(PluginResponse::Append(x));
    }
    out.push(PluginResponse::Finished);
    out
}

/// `s` launches `pass <op>` on entry `id` when there is one, and reports the index error otherwise.
pub open spec fn launch_or_index_error(s: Step, id: u32, entries: Seq<crate::pass_lib::Leaf>, op: Seq<char>) -> bool {
    &&& id < entries.len() ==> (s.action matches Some(Action::Launch(l)) && launch_is(
        l,
        "pass"@,
        pass_launch(op, entries[id as int].path),
    ) && s.error is None)
    &&& id >= entries.len() ==> (s.action is None && (s.error matches Some(e) && e@ == "Invalid index"@))
}

/// `s` reports `msg` and does nothing else.
pub open spec fn only_error(s: Step, msg: Seq<char>) -> bool {
    &&& s.before@.len() == 0
    &&& s.action is None
    &&& s.after@.len() == 0
    &&& (s.error matches Some(e) && e@ == msg)
    &&& s.keep_going
}

/// `s` answers nothing, does nothing, and goes on.
pub open spec fn ignored(s: Step) -> bool {
    &&& s.before@.len() == 0
    &&& s.action is None
    &&& s.after@.len() == 0
    &&& s.error is None
    &&& s.keep_going
}

/// One request of the password plugin: search, copy, context actions, exit.
pub fn process_pass_request(request: &Request, menu: &pass_menu::Menu) -> (r: Step)
    requires
        menu.wf(),
    ensures
        *request is Exit <==> !r.keep_going,
        *request is Exit ==> r.before@.len() == 0 && r.action is None && r.after@.len() == 0
            && r.error is None,
        *request matches Request::Search(term) ==> lists_then_finishes(
            r.before@,
            matching_ids(menu@, trim_keyword(term@)),
            menu@,
        ) && r.action is None && r.after@.len() == 0 && r.error is None,
        *request matches Request::Activate(id) ==> r.before@.len() == 1 && r.before@[0] is Close
            && r.after@.len() == 0 && launch_or_index_error(r, id, menu@, "-c"@),
        *request matches Request::ActivateContext { id, context } ==> r.before@.len() == 0
            && r.after@.len() == 0 && (context == 1 ==> launch_or_index_error(r, id, menu@, "-c"@))
            && (context == 2 ==> launch_or_index_error(r, id, menu@, "edit"@)) && (context != 1
            && context != 2 ==> only_error(r, "Invalid context action"@)),
        *request matches Request::Context(id) ==> r.before@.len() == 1 && (r.before@[0] matches PluginResponse::Context { id: i, options }
            && i == id && all_actions(options@)) && r.action is None && r.after@.len() == 0
            && r.error is None,
        *request is Complete || *request is Interrupt || *request is Quit ==> ignored(r),
{
    match request {
        Request::Activate(id) => {
            match menu.activate(*id) {
                Ok(l) => Step {
                    before: vec![PluginResponse::Close],
                    action: Some(Action::Launch(l)),
                    after: Vec::new(),
                    error: None,
                    keep_going: true,
                },
                Err(e) => Step {
                    before: vec![PluginResponse::Close],
                    action: None,
                    after: Vec::new(),
                    error: Some(e),
                    keep_going: true,
                },
            }
        },
        Request::ActivateContext { id, context } => {
            match menu.activate_context(*id, *context) {
                Ok(l) => Step {
                    before: Vec::new(),
                    action: Some(Action::Launch(l)),
                    after: Vec::new(),
                    error: None,
                    keep_going: true,
                },
                Err(e) => Step {
                    before: Vec::new(),
                    action: None,
                    after: Vec::new(),
                    error: Some(e),
                    keep_going: true,
                },
            }
        },
        Request::Context(id) => Step {
            before: vec![PluginResponse::Context { id: *id, options: menu.context(*id) }],
            action: None,
            after: Vec::new(),
            error: None,
            keep_going: true,
        },
        Request::Exit => quiet(false),
        Request::Search(term) => {
            let results = menu.search(trim_pass_keyword(term.as_str()));
            Step {
                before: answer_search(results),
                action: None,
                after: Vec::new(),
                error: None,
                keep_going: true,
            }
        },
        Request::Complete(_) | Request::Interrupt | Request::Quit(_) => quiet(true),
    }
}

/// One request of the minimal password plugin: search, copy, an empty context list, exit.
pub fn process_menu_request(request: &Request, menu: &menu::Menu) -> (r: Step)
    requires
        menu.wf(),
    ensures
        *request is Exit <==> !r.keep_going,
        *request is Exit ==> r.before@.len() == 0 && r.action is None && r.after@.len() == 0
            && r.error is None,
        *request matches Request::Search(term) ==> lists_then_finishes(
            r.before@,
            matching_ids(menu@, trim_keyword(term@)),
            menu@,
        ) && r.action is None && r.after@.len() == 0 && r.error is None,
        *request matches Request::Activate(id) ==> r.before@.len() == 0 && launch_or_index_error(
            r,
            id,
            menu@,
            "-c"@,
        ) && (id < menu@.len() ==> r.after@.len() == 1 && r.after@[0] is Close) && (id
            >= menu@.len() ==> r.after@.len() == 0),
        *request matches Request::Context(id) ==> r.before@.len() == 1 && (r.before@[0] matches PluginResponse::Context { id: i, options }
            && i == id && options@.len() == 0) && r.action is None && r.after@.len() == 0
            && r.error is None,
        *request is ActivateContext || *request is Complete || *request is Interrupt || *request is Quit
            ==> ignored(r),
{
    match request {
        Request::Activate(id) => {
            match menu.activate(*id) {
                Ok(l) => Step {
                    before: Vec::new(),
                    action: Some(Action::Launch(l)),
                    after: vec![PluginResponse::Close],
                    error: None,
                    keep_going: true,
                },
                Err(e) => Step {
                    before: Vec::new(),
                    action: None,
                    after: Vec::new(),
                    error: Some(e),
                    keep_going: true,
                },
            }
        },
        Request::Context(id) => {
            let options: Vec<ContextOption> = Vec::new();
            Step {
                before: vec![PluginResponse::Context { id: *id, options }],
                action: None,
                after: Vec::new(),
                error: None,
                keep_going: true,
            }
        },
        Request::Exit => quiet(false),
        Request::Search(term) => {
            let results = menu.search(trim_pass_keyword(term.as_str()));
            Step {
                before: answer_search(results),
                action: None,
                after: Vec::new(),
                error: None,
                keep_going: true,
            }
        },
        Request::ActivateContext { .. } | Request::Complete(_) | Request::Interrupt | Request::Quit(
            _,
        ) => quiet(true),
    }
}

/// What one request does to the to-do session, read on `today`: a search re-reads the
/// task and offers it for each calendar; activation clears the list, publishes to the
/// chosen calendar and closes, or reports a bad index; exit stops; the rest is ignored.
pub open spec fn todo_step(request: Request, today: Date, before: Session, after: Session, r: Step) -> bool {
    &&& (after.todo.due matches Some(d) ==> d.valid())
    &&& after.config == before.config
    &&& (request is Exit <==> !r.keep_going)
    &&& (request is Exit ==> r.before@.len() == 0 && r.action is None && r.after@.len() == 0
        && r.error is None)
    &&& (request matches Request::Search(term) ==> {
        &&& after.todo.summary@ == parsed_summary(term@, today)
        &&& after.todo.due == parsed_due(term@, today)
        &&& r.before@.len() == before.config.calendars.len() + 1
        &&& forall|k: int|
            0 <= k < before.config.calendars.len() ==> offers(
                #[trigger] r.before@[k],
                k,
                before.config.calendars@[k]@,
                task_line(parsed_summary(term@, today), parsed_due(term@, today)),
            )
        &&& r.before@.last() is Finished
        &&& r.action is None && r.after@.len() == 0 && r.error is None
    })
    &&& (!(request is Search) ==> after.todo == before.todo)
    &&& (request matches Request::Activate(id) ==> {
        &&& r.before@.len() == 1 && r.before@[0] is Clear
        &&& (id < before.config.calendars.len() ==> (r.action matches Some(Action::Publish(c))
            && c == id && r.after@.len() == 1 && r.after@[0] is Close && r.error is None))
        &&& (id >= before.config.calendars.len() ==> (r.action is None && r.after@.len() == 0 && (
        r.error matches Some(e) && e@ == "Invalid index"@)))
    })
    &&& (request is ActivateContext || request is Complete || request is Context
        || request is Interrupt || request is Quit ==> ignored(r))
}

/// One request of the to-do plugin, read on `today`.
pub fn process_todo_request_on(request: &Request, today: &Date, session: &mut Session) -> (r: Step)
    requires
        today.valid(),
        old(session).todo.due matches Some(d) ==> d.valid(),
        old(session).config.calendars.len() <= u32::MAX,
    ensures
        todo_step(*request, *today, *old(session), *final(session), r),
{
    match request {
        Request::Activate(id) => {
            if (*id as usize) < session.config.calendars.len() {
                Step {
                    before: vec![PluginResponse::Clear],
                    action: Some(Action::Publish(*id as usize)),
                    after: vec![PluginResponse::Close],
                    error: None,
                    keep_going: true,
                }
            } else {
                Step {
                    before: vec![PluginResponse::Clear],
                    action: None,
                    after: Vec::new(),
                    error: Some("Invalid index".to_owned()),
                    keep_going: true,
                }
            }
        },
        Request::Exit => quiet(false),
        Request::Search(term) => {
            let _ = parse_task_on(term, today, session);
            Step {
                before: build_menu(session),
                action: None,
                after: Vec::new(),
                error: None,
                keep_going: true,
            }
        },
        Request::ActivateContext { .. } | Request::Complete(_) | Request::Context(_)
        | Request::Interrupt | Request::Quit(_) => quiet(true),
    }
}

/// One request of the to-do plugin, on the current local date.
pub fn process_todo_request(request: &Request, session: &mut Session) -> (r: Step)
    requires
        old(session).todo.due matches Some(d) ==> d.valid(),
        old(session).config.calendars.len() <= u32::MAX,
    ensures
        exists|today: Date| today.valid() && todo_step(*request, today, *old(session), *final(session), r),
{
    let today = crate::date::local_today();
    process_todo_request_on(request, &today, session)
}

} // verus!
