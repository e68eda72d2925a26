//! The to-do plugin: a task typed as free text, offered for each calendar, and the
//! calendar document that publishes it.
use vstd::prelude::*;
use crate::date::{Date, date_relative, readable_phrase, is_readable_phrase, compact_of, iso_of, local_today, parse_relative, compact_text, iso_text};
use crate::launcher::{IconSource, PluginResponse, PluginSearchResult};

verus! {

/// The task being typed.
pub struct Todo {
    pub summary: String,
    pub due: Option<Date>,
}

/// Where tasks are published.
pub struct Config {
    pub url: String,
    pub username: String,
    pub password: String,
    pub calendars: Vec<String>,
}

/// What the plugin holds for the whole process.
pub struct Session {
    pub todo: Todo,
    pub config: Config,
}

/// The input without its leading `todo` keyword, when it has one.
pub open spec fn strip_trigger(s: Seq<char>) -> Seq<char> {
    if s.len() >= 4 && s.take(4) == seq!['t', 'o', 'd', 'o'] {
        s.skip(4)
    } else {
        s
    }
}

/// The finished words of `s` split at single spaces, and the word still open at its end.
pub open spec fn split_spaces(s: Seq<char>) -> (Seq<Seq<char>>, Seq<char>)
    decreases s.len(),
{
    if s.len() == 0 {
        (Seq::empty(), Seq::empty())
    } else {
        let (ws, cur) = split_spaces(s.drop_last());
        if s.last() == ' ' {
            (if cur.len() > 0 { ws.push(cur) } else { ws }, Seq::empty())
        } else {
            (ws, cur.push(s.last()))
        }
    }
}

/// The non-empty words of `s`, in order.
pub open spec fn words_of(s: Seq<char>) -> Seq<Seq<char>> {
    let (ws, cur) = split_spaces(s);
    if cur.len() > 0 { ws.push(cur) } else { ws }
}

/// A word that asks to be read as a date.
pub open spec fn tagged(w: Seq<char>) -> bool {
    w.len() > 0 && w[0] == '@'
}

/// The date phrase of a tagged word: the sigil dropped, underscores read as spaces.
pub open spec fn phrase_of(w: Seq<char>) -> Seq<char> {
    w.skip(1).map_values(|c: char| if c == '_' { ' ' } else { c })
}

/// The date a word sets, relative to `today`, if it sets one: a tagged word whose phrase
/// the date parser can read.
pub open spec fn resolution(w: Seq<char>, today: Date) -> Option<Date> {
    if tagged(w) && readable_phrase(phrase_of(w), today) {
        date_relative(phrase_of(w), today.year as int, today.month as int, today.day as int)
    } else {
        None
    }
}

/// The words that set no date, joined by single spaces.
pub open spec fn summary_of(ws: Seq<Seq<char>>, today: Date) -> Seq<char>
    decreases ws.len(),
{
    if ws.len() == 0 {
        Seq::empty()
    } else {
        let prev = summary_of(ws.drop_last(), today);
        if resolution(ws.last(), today) is Some {
            prev
        } else if prev.len() == 0 {
            ws.last()
        } else {
            prev + seq![' '] + ws.last()
        }
    }
}

/// The date set by the last word that sets one.
pub open spec fn due_of(ws: Seq<Seq<char>>, today: Date) -> Option<Date>
    decreases ws.len(),
{
    if ws.len() == 0 {
        None
    } else if resolution(ws.last(), today) is Some {
        resolution(ws.last(), today)
    } else {
        due_of(ws.drop_last(), today)
    }
}

/// The summary that `s` gives on `today`.
pub open spec fn parsed_summary(s: Seq<char>, today: Date) -> Seq<char> {
    summary_of(words_of(strip_trigger(s)), today)
}

/// The due date that `s` gives on `today`.
pub open spec fn parsed_due(s: Seq<char>, today: Date) -> Option<Date> {
    due_of(words_of(strip_trigger(s)), today)
}

pub open spec fn string_views(v: Seq<String>) -> Seq<Seq<char>> {
    v.map_values(|w: String| w@)
}

/// Relies on `str::replace` with a one-character pattern and a one-character
/// replacement: every `from` becomes the replacement, all else stays.
#[verifier::external_body]
fn replace_char(s: &str, from: char, to: &str) -> (r: String)
    requires
        to@.len() == 1,
    ensures
        r@ == s@.map_values(|c: char| if c == from { to@[0] } else { c }),
{
    s.replace(from, to)
}

/// The non-empty words of `text` split at single spaces, after an optional leading `todo`.
pub fn task_words(text: &str) -> (r: Vec<String>)
    ensures
        string_views(r@) == words_of(strip_trigger(text@)),
{
    let n = text.unicode_len();
    let start: usize = if n >= 4 && text.get_char(0) == 't' && text.get_char(1) == 'o'
        && text.get_char(2) == 'd' && text.get_char(3) == 'o' {
        assert(text@.take(4) =~= seq!['t', 'o', 'd', 'o']);
        4
    } else {
        proof {
            if n >= 4 && text@.take(4) == seq!['t', 'o', 'd', 'o'] {
                assert(text@[0] == text@.take(4)[0]);
                assert(text@[1] == text@.take(4)[1]);
                assert(text@[2] == text@.take(4)[2]);
                assert(text@[3] == text@.take(4)[3]);
            }
        }
        0
    };
    let ghost body = strip_trigger(text@);
    assert(body == text@.subrange(start as int, n as int));
    let mut ws: Vec<String> = Vec::new();
    let mut wstart: usize = start;
    let mut i: usize = start;
    while i < n
        invariant
            start <= wstart <= i <= n,
            n == text@.len(),
            body == text@.subrange(start as int, n as int),
            string_views(ws@) == split_spaces(text@.subrange(start as int, i as int)).0,
            text@.subrange(wstart as int, i as int) == split_spaces(
                text@.subrange(start as int, i as int),
            ).1,
        decreases n - i,
    {
        let ghost prev = text@.subrange(start as int, i as int);
        let ghost next = text@.subrange(start as int, i + 1);
        assert(next.drop_last() == prev);
        assert(next.last() == text@[i as int]);
        let c = text.get_char(i);
        if c == ' ' {
            if wstart < i {
                let w = text.substring_char(wstart, i);
                ws.push(w.to_owned());
                assert(string_views(ws@) =~= split_spaces(prev).0.push(split_spaces(prev).1));
            }
            wstart = i + 1;
            assert(text@.subrange(wstart as int, i + 1) =~= Seq::<char>::empty());
        } else {
            assert(text@.subrange(wstart as int, i + 1) =~= text@.subrange(wstart as int, i as int).push(c));
        }
        i = i + 1;
    }
    assert(text@.subrange(start as int, i as int) == body);
    if wstart < n {
        let w = text.substring_char(wstart, n);
        ws.push(w.to_owned());
        assert(string_views(ws@) =~= split_spaces(body).0.push(split_spaces(body).1));
    } else {
        assert(string_views(ws@) =~= words_of(body));
    }
    ws
}

/// The date that `word` sets on `today`, if it sets one.
fn word_date(word: &String, today: &Date) -> (r: Option<Date>)
    requires
        today.valid(),
    ensures
        r == resolution(word@, *today),
        r matches Some(d) ==> d.valid(),
{
    let n = word.as_str().unicode_len();
    if n > 0 && word.as_str().get_char(0) == '@' {
        let rest = word.as_str().substring_char(1, n);
        proof {
            reveal_strlit("_");
            reveal_strlit(" ");
        }
        let phrase = replace_char(rest, '_', " ");
        assert(phrase@ =~= phrase_of(word@));
        if is_readable_phrase(phrase.as_str(), today) {
            parse_relative(phrase.as_str(), today)
        } else {
            None
        }
    } else {
        None
    }
}

/// Reads `text` as a task on `today`: the words that set no date form the summary,
/// and the last word that sets a date gives the due date.
pub fn parse_task_on(text: &String, today: &Date, session: &mut Session) -> (r: Result<(), String>)
    requires
        today.valid(),
    ensures
        r is Ok,
        final(session).todo.summary@ == parsed_summary(text@, *today),
        final(session).todo.due == parsed_due(text@, *today),
        final(session).todo.due matches Some(d) ==> d.valid(),
        final(session).config == old(session).config,
{
    let ws = task_words(text.as_str());
    let ghost wv = string_views(ws@);
    let mut summary = String::new();
    let mut date: Option<Date> = None;
    let mut k: usize = 0;
    while k < ws.len()
        invariant
            0 <= k <= ws.len(),
            today.valid(),
            wv == string_views(ws@),
            wv == words_of(strip_trigger(text@)),
            summary@ == summary_of(wv.take(k as int), *today),
            date == due_of(wv.take(k as int), *today),
            date matches Some(d) ==> d.valid(),
        decreases ws.len() - k,
    {
        let word = &ws[k];
        assert(wv.take(k + 1).drop_last() == wv.take(k as int));
        assert(wv.take(k + 1).last() == word@);
        match word_date(word, today) {
            Some(d) => {
                date = Some(d);
            },
            None => {
                if !summary.as_str().is_empty() {
                    summary.append(" ");
                    proof {
                        reveal_strlit(" ");
                    }
                }
                summary.append(word.as_str());
            },
        }
        k = k + 1;
    }
    assert(wv.take(k as int) == wv);
    session.todo.summary = summary;
    session.todo.due = date;
    Ok(())
}

/// Reads `text` as a task on the current local date.
pub fn parse_task(text: &String, session: &mut Session) -> (r: Result<(), String>)
    ensures
        r is Ok,
        exists|today: Date|
            today.valid() && final(session).todo.summary@ == parsed_summary(text@, today)
                && final(session).todo.due == parsed_due(text@, today),
        final(session).todo.due matches Some(d) ==> d.valid(),
        final(session).config == old(session).config,
{
    let today = local_today();
    parse_task_on(text, &today, session)
}

/// Re-reading discards the previous task: whatever two sessions held before, reading the
/// same text on the same day leaves them with the same task.
pub proof fn lemma_reparse_same(a: Todo, b: Todo, text: Seq<char>, today: Date)
    requires
        a.summary@ == parsed_summary(text, today),
        a.due == parsed_due(text, today),
        b.summary@ == parsed_summary(text, today),
        b.due == parsed_due(text, today),
    ensures
        a.summary@ == b.summary@,
        a.due == b.due,
{
}

#[verifier::external_type_specification]
#[verifier::external_body]
pub struct ExUuid(uuid::Uuid);

/// A lower-case hexadecimal digit.
pub open spec fn hex_digit(v: nat) -> char {
    if v < 10 {
        (v + ('0' as nat)) as char
    } else {
        (v - 10 + ('a' as nat)) as char
    }
}

/// The lowest `width` hexadecimal digits of `n`, most significant first.
pub open spec fn hex_digits(n: nat, width: nat) -> Seq<char>
    decreases width,
{
    if width == 0 {
        Seq::empty()
    } else {
        hex_digits(n / 16, (width - 1) as nat).push(hex_digit(n % 16))
    }
}

/// The hyphenated form of a 128-bit id: 32 hex digits grouped 8-4-4-4-12.
pub open spec fn hyphenated(bits: u128) -> Seq<char> {
    let h = hex_digits(bits as nat, 32);
    h.subrange(0, 8) + seq!['-'] + h.subrange(8, 12) + seq!['-'] + h.subrange(12, 16) + seq!['-']
        + h.subrange(16, 20) + seq!['-'] + h.subrange(20, 32)
}

/// Relies on `Uuid::as_u128` (the id's bytes read big-endian) and on `Uuid`'s `Display`,
/// which writes those bytes as lower-case hex digits grouped 8-4-4-4-12.
#[verifier::external_body]
fn uuid_text(id: &uuid::Uuid) -> (r: (u128, String))
    ensures
        r.1@ == hyphenated(r.0),
{
    (id.as_u128(), id.to_string())
}

/// A character of a time stamp: a digit, the `T` between date and time, or a year's sign.
pub open spec fn stamp_char(c: char) -> bool {
    ('0' <= c <= '9') || c == 'T' || c == '+' || c == '-'
}

/// Relies on `chrono::Local::now` formatted with `%Y%m%dT%H%M%S`: the current local time,
/// written with digits, a `T`, and a sign only for a year past 9999.
#[verifier::external_body]
fn local_stamp() -> (r: String)
    ensures
        forall|i: int| 0 <= i < r@.len() ==> stamp_char(#[trigger] r@[i]),
{
    chrono::Local::now().format("%Y%m%dT%H%M%S").to_string()
}

/// The due line: the date at the fixed evening anchor time, or nothing.
pub open spec fn due_line(due: Option<Date>) -> Seq<char> {
    match due {
        None => Seq::empty(),
        Some(d) => "DUE:"@ + compact_of(d.year as int, d.month as int, d.day as int) + "T190000\n"@,
    }
}

/// The lines of a calendar document up to the due line.
pub open spec fn caldav_head(uid: Seq<char>, stamp: Seq<char>) -> Seq<char> {
    "BEGIN:VCALENDAR\n"@ + "PRODID:-//okennedy//pop_todo//EN\n"@ + "VERSION:2.0\n"@
        + "BEGIN:VTODO\n"@ + "UID:"@ + uid + "\n"@ + "DTSTAMP:"@ + stamp + "\n"@
}

/// The lines of a calendar document after the due line.
pub open spec fn caldav_tail(summary: Seq<char>) -> Seq<char> {
    "SUMMARY:"@ + summary + "\n"@ + "END:VTODO\n"@ + "END:VCALENDAR\n"@
}

/// The calendar document of a task with id `uid`, stamped `stamp`.
pub open spec fn caldav_doc(summary: Seq<char>, due: Option<Date>, uid: Seq<char>, stamp: Seq<char>) -> Seq<char> {
    caldav_head(uid, stamp) + due_line(due) + caldav_tail(summary)
}

/// A due date adds exactly one line to the document, between the stamp and the summary,
/// holding the date at the evening anchor time; without one, the summary follows the stamp.
pub proof fn lemma_due_line(summary: Seq<char>, d: Date, uid: Seq<char>, stamp: Seq<char>)
    ensures
        caldav_doc(summary, None, uid, stamp) == caldav_head(uid, stamp) + caldav_tail(summary),
        caldav_doc(summary, Some(d), uid, stamp) == caldav_head(uid, stamp) + ("DUE:"@
            + compact_of(d.year as int, d.month as int, d.day as int) + "T190000\n"@)
            + caldav_tail(summary),
{
    assert(caldav_head(uid, stamp) + Seq::<char>::empty() =~= caldav_head(uid, stamp));
}

/// Writes the calendar document of `todo` with id `uid` and time stamp `stamp`.
pub fn render_caldav(todo: &Todo, uid: &str, stamp: &str) -> (r: String)
    requires
        todo.due matches Some(d) ==> d.valid(),
    ensures
        r@ == caldav_doc(todo.summary@, todo.due, uid@, stamp@),
{
    let mut caldav = String::new();
    caldav.append("BEGIN:VCALENDAR\n");
    caldav.append("PRODID:-//okennedy//pop_todo//EN\n");
    caldav.append("VERSION:2.0\n");
    caldav.append("BEGIN:VTODO\n");
    caldav.append("UID:");
    caldav.append(uid);
    caldav.append("\n");
    caldav.append("DTSTAMP:");
    caldav.append(stamp);
    caldav.append("\n");
    match &todo.due {
        None => {},
        Some(d) => {
            caldav.append("DUE:");
            let digits = compact_text(d);
            caldav.append(digits.as_str());
            caldav.append("T190000\n");
        },
    }
    caldav.append("SUMMARY:");
    caldav.append(todo.summary.as_str());
    caldav.append("\n");
    caldav.append("END:VTODO\n");
    caldav.append("END:VCALENDAR\n");
    assert(caldav@ =~= caldav_doc(todo.summary@, todo.due, uid@, stamp@));
    caldav
}

/// The calendar document of `todo` under the id `uuid`, stamped with the current local time.
pub fn gen_caldav(todo: &Todo, uuid: uuid::Uuid) -> (r: String)
    requires
        todo.due matches Some(d) ==> d.valid(),
    ensures
        exists|bits: u128, stamp: Seq<char>|
            (forall|i: int| 0 <= i < stamp.len() ==> stamp_char(#[trigger] stamp[i])) && r@
                == caldav_doc(todo.summary@, todo.due, hyphenated(bits), stamp),
{
    let (_bits, uid) = uuid_text(&uuid);
    let stamp = local_stamp();
    render_caldav(todo, uid.as_str(), stamp.as_str())
}

/// Where a task with id `uid` is put on the calendar server.
pub open spec fn todo_url(base: Seq<char>, user: Seq<char>, calendar: Seq<char>, uid: Seq<char>) -> Seq<char> {
    base + "/calendars/"@ + user + "/"@ + calendar + "/"@ + uid + ".ics"@
}

/// Builds the address where a task with id `uid` is put on the calendar server.
pub fn calendar_url(base: &String, username: &String, calendar: &String, uid: &str) -> (r: String)
    ensures
        r@ == todo_url(base@, username@, calendar@, uid@),
{
    let mut url = base.clone();
    url.append("/calendars/");
    url.append(username.as_str());
    url.append("/");
    url.append(calendar.as_str());
    url.append("/");
    url.append(uid);
    url.append(".ics");
    assert(url@ =~= todo_url(base@, username@, calendar@, uid@));
    url
}

/// The task as a line of text: the summary, then the due date when there is one.
pub open spec fn task_line(summary: Seq<char>, due: Option<Date>) -> Seq<char> {
    match due {
        None => summary,
        Some(d) => summary + seq![' '] + iso_of(d.year as int, d.month as int, d.day as int),
    }
}

/// The task of `session` as a line of text.
pub fn task_string(session: &Session) -> (r: String)
    requires
        session.todo.due matches Some(d) ==> d.valid(),
    ensures
        r@ == task_line(session.todo.summary@, session.todo.due),
{
    let mut line = session.todo.summary.clone();
    match &session.todo.due {
        None => {},
        Some(d) => {
            line.append(" ");
            proof {
                reveal_strlit(" ");
            }
            let text = iso_text(d);
            line.append(text.as_str());
        },
    }
    line
}

/// `r` offers to create the task, described by `task`, in calendar `cal`, the `idx`-th.
pub open spec fn offers(r: PluginResponse, idx: int, cal: Seq<char>, task: Seq<char>) -> bool {
    r matches PluginResponse::Append(res) && {
        &&& res.id as int == idx
        &&& res.name@ == "Create in "@ + cal
        &&& res.description@ == task
        &&& res.keywords is None
        &&& (res.icon matches Some(IconSource::Name(n)) && n@ == "appointment-new"@)
        &&& res.command is None
        &&& res.window is None
    }
}

/// The answer to a search: one result per calendar, in order, then `Finished`.
pub fn build_menu(session: &Session) -> (r: Vec<PluginResponse>)
    requires
        session.todo.due matches Some(d) ==> d.valid(),
        session.config.calendars.len() <= u32::MAX,
    ensures
        r@.len() == session.config.calendars.len() + 1,
        forall|k: int|
            0 <= k < session.config.calendars.len() ==> offers(
                #[trigger] r@[k],
                k,
                session.config.calendars@[k]@,
                task_line(session.todo.summary@, session.todo.due),
            ),
        r@.last() is Finished,
{
    let task = task_string(session);
    let mut out: Vec<PluginResponse> = Vec::new();
    let mut idx: usize = 0;
    while idx < session.config.calendars.len()
        invariant
            0 <= idx <= session.config.calendars.len() <= u32::MAX,
            task@ == task_line(session.todo.summary@, session.todo.due),
            out@.len() == idx,
            forall|k: int|
                0 <= k < idx ==> offers(
                    #[trigger] out@[k],
                    k,
                    session.config.calendars@[k]@,
                    task@,
                ),
        decreases session.config.calendars.len() - idx,
    {
        let cal = &session.config.calendars[idx];
        let mut name = "Create in ".to_owned();
        name.append(cal.as_str());
        let res = PluginSearchResult {
            id: idx as u32,
            name,
            description: task.clone(),
            keywords: None,
            icon: Some(IconSource::Name("appointment-new".to_owned())),
            command: None,
            window: None,
        };
        out.push(PluginResponse::Append(res));
        idx = idx + 1;
    }
    out.push(PluginResponse::Finished);
    out
}

} // verus!
