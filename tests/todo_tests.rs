use chrono::{Datelike, Duration, Local, NaiveDate};
use date_time_parser::DateParser;
use pop_launcher_plugins::date::Date;
use pop_launcher_plugins::todo::{
    build_menu, calendar_url, gen_caldav, parse_task, parse_task_on, render_caldav, task_string,
    task_words, Config, Session, Todo,
};
use pop_launcher_plugins::launcher::{IconSource, PluginResponse};
use uuid::Uuid;

fn to_date(d: NaiveDate) -> Date {
    Date { year: d.year(), month: d.month(), day: d.day() }
}

fn local_in_days(n: i64) -> Date {
    to_date((Local::now() + Duration::days(n)).date_naive())
}

fn session_with(calendars: Vec<String>) -> Session {
    Session {
        todo: Todo { summary: "".to_string(), due: None },
        config: Config {
            url: "https://foo".to_string(),
            username: "".to_string(),
            password: "".to_string(),
            calendars,
        },
    }
}

#[test]
fn test_date_creation() {
    let date1 = DateParser::parse("today");
    let date1cmp = Local::now();
    assert_eq!(NaiveDate::from_ymd_opt(date1cmp.year(), date1cmp.month(), date1cmp.day()), date1);

    let date2 = DateParser::parse("tomorrow");
    let date2cmp = Local::now() + Duration::days(1);

    assert_eq!(NaiveDate::from_ymd_opt(date2cmp.year(), date2cmp.month(), date2cmp.day()), date2);
}

#[test]
fn test_parser() {
    let mut session = session_with(Vec::new());

    let ret = parse_task(&"do the thing @tomorrow".to_string(), &mut session);
    assert!(ret.is_ok());

    assert_eq!("do the thing", session.todo.summary);
    let tomorrow = DateParser::parse("tomorrow").map(to_date);
    assert_eq!(tomorrow, session.todo.due);
}

#[test]
fn test_incremental_parser() {
    let mut session = session_with(Vec::new());

    let mut task = "".to_string();
    for chr in "do the thing @tomorrow".chars() {
        task.push(chr);
        let ret = parse_task(&task, &mut session);
        assert!(ret.is_ok());
    }

    assert_eq!("do the thing", session.todo.summary);
    let tomorrow = DateParser::parse("tomorrow").map(to_date);
    assert_eq!(tomorrow, session.todo.due);
}

#[test]
fn test_gen_caldav() {
    let todo = Todo { summary: "Hello World".to_string(), due: DateParser::parse("tomorrow").map(to_date) };
    let uuid = Uuid::new_v4();

    let test = gen_caldav(&todo, uuid);

    assert!(test.contains("SUMMARY:Hello World"));
}

#[test]
fn last_resolving_date_wins() {
    let mut session = session_with(Vec::new());
    let today = local_in_days(0);
    parse_task_on(&"buy milk @today @tomorrow".to_string(), &today, &mut session).unwrap();
    assert_eq!("buy milk", session.todo.summary);
    assert_eq!(Some(local_in_days(1)), session.todo.due);
}

#[test]
fn unresolved_sigil_stays_in_summary() {
    let mut session = session_with(Vec::new());
    let today = local_in_days(0);
    parse_task_on(&"call @nonsense_phrase bob".to_string(), &today, &mut session).unwrap();
    assert_eq!("call @nonsense_phrase bob", session.todo.summary);
    assert_eq!(None, session.todo.due);
}

#[test]
fn relative_dates_follow_the_given_day() {
    let mut session = session_with(Vec::new());
    let today = Date { year: 2024, month: 2, day: 28 };
    parse_task_on(&"todo pay rent @tomorrow".to_string(), &today, &mut session).unwrap();
    assert_eq!("pay rent", session.todo.summary);
    assert_eq!(Some(Date { year: 2024, month: 2, day: 29 }), session.todo.due);
    parse_task_on(&"@3/1".to_string(), &today, &mut session).unwrap();
    assert_eq!("", session.todo.summary);
    assert_eq!(Some(Date { year: 2024, month: 3, day: 1 }), session.todo.due);
    parse_task_on(&"x @12/31 y".to_string(), &today, &mut session).unwrap();
    assert_eq!("x y", session.todo.summary);
    assert_eq!(Some(Date { year: 2024, month: 12, day: 31 }), session.todo.due);
}

#[test]
fn impossible_dates_stay_text() {
    let mut session = session_with(Vec::new());
    let today = Date { year: 2023, month: 12, day: 31 };
    for (text, summary) in [
        ("todo pay @2/30", "pay @2/30"),
        ("a @13/1", "a @13/1"),
        ("a @0/5", "a @0/5"),
        ("a @2/29", "a @2/29"),
        ("a @next_month", "a @next_month"),
        ("a @in_3_months", "a @in_3_months"),
        ("a @jun_31", "a @jun_31"),
        ("a @in_2_days", "a @in_2_days"),
    ] {
        parse_task_on(&text.to_string(), &today, &mut session).unwrap();
        assert_eq!(summary, session.todo.summary);
        assert_eq!(None, session.todo.due);
    }
}

#[test]
fn wordy_dates_near_year_end_resolve() {
    let mut session = session_with(Vec::new());
    let today = Date { year: 2023, month: 12, day: 31 };
    parse_task_on(&"a @tomorrow".to_string(), &today, &mut session).unwrap();
    assert_eq!("a", session.todo.summary);
    assert_eq!(Some(Date { year: 2024, month: 1, day: 1 }), session.todo.due);
}

#[test]
fn reparse_discards_previous_task() {
    let today = Date { year: 2024, month: 5, day: 1 };
    let mut first = session_with(Vec::new());
    first.todo = Todo { summary: "old words".to_string(), due: Some(Date { year: 2000, month: 1, day: 1 }) };
    let mut second = session_with(Vec::new());
    let text = "write report @tomorrow".to_string();
    parse_task_on(&text, &today, &mut first).unwrap();
    parse_task_on(&text, &today, &mut second).unwrap();
    assert_eq!(first.todo.summary, second.todo.summary);
    assert_eq!(first.todo.due, second.todo.due);
    parse_task_on(&text, &today, &mut first).unwrap();
    assert_eq!(first.todo.summary, second.todo.summary);
    assert_eq!(first.todo.due, second.todo.due);
}

#[test]
fn words_skip_repeated_spaces_and_keyword() {
    assert_eq!(task_words("todo  a  b "), vec!["a".to_string(), "b".to_string()]);
    assert_eq!(task_words("to do"), vec!["to".to_string(), "do".to_string()]);
    assert_eq!(task_words("todoist x"), vec!["ist".to_string(), "x".to_string()]);
    assert!(task_words("").is_empty());
    assert!(task_words("   ").is_empty());
}

#[test]
fn document_without_due_has_no_due_line() {
    let todo = Todo { summary: "Hello World".to_string(), due: None };
    let doc = render_caldav(&todo, "abc", "20240101T120000");
    assert_eq!(
        doc,
        "BEGIN:VCALENDAR\nPRODID:-//okennedy//pop_todo//EN\nVERSION:2.0\nBEGIN:VTODO\nUID:abc\nDTSTAMP:20240101T120000\nSUMMARY:Hello World\nEND:VTODO\nEND:VCALENDAR\n"
    );
    assert!(doc.lines().any(|l| l == "SUMMARY:Hello World"));
    assert!(!doc.contains("DUE:"));
}

#[test]
fn document_with_due_has_one_anchored_due_line() {
    let todo = Todo { summary: "x".to_string(), due: Some(Date { year: 2025, month: 1, day: 2 }) };
    let doc = render_caldav(&todo, "u", "s");
    assert_eq!(doc.lines().filter(|l| l.starts_with("DUE:")).count(), 1);
    assert!(doc.contains("\nDUE:20250102T190000\nSUMMARY:x\n"));
}

#[test]
fn generated_document_carries_a_fresh_uid() {
    let todo = Todo { summary: "s".to_string(), due: None };
    let id = Uuid::parse_str("67e55044-10b1-426f-9247-bb680e5fe0c8").unwrap();
    let doc = gen_caldav(&todo, id);
    assert!(doc.contains("\nUID:67e55044-10b1-426f-9247-bb680e5fe0c8\nDTSTAMP:"));
    let stamp = doc.lines().find(|l| l.starts_with("DTSTAMP:")).unwrap();
    assert!(stamp["DTSTAMP:".len()..].chars().all(|c| c.is_ascii_digit() || c == 'T'));
    assert!(doc.starts_with("BEGIN:VCALENDAR\n"));
    assert!(doc.ends_with("END:VTODO\nEND:VCALENDAR\n"));
}

#[test]
fn url_joins_server_user_calendar_and_uid() {
    let url = calendar_url(&"https://dav".to_string(), &"me".to_string(), &"work".to_string(), "id-1");
    assert_eq!(url, "https://dav/calendars/me/work/id-1.ics");
}

#[test]
fn task_line_shows_due_date() {
    let mut session = session_with(Vec::new());
    session.todo = Todo { summary: "a b".to_string(), due: Some(Date { year: 2023, month: 7, day: 9 }) };
    assert_eq!(task_string(&session), "a b 2023-07-09");
    session.todo.due = None;
    assert_eq!(task_string(&session), "a b");
}

#[test]
fn menu_offers_each_calendar_then_finishes() {
    let mut session = session_with(vec!["Home".to_string(), "Work".to_string()]);
    session.todo = Todo { summary: "t".to_string(), due: None };
    let out = build_menu(&session);
    assert_eq!(out.len(), 3);
    match &out[1] {
        PluginResponse::Append(r) => {
            assert_eq!(r.id, 1);
            assert_eq!(r.name, "Create in Work");
            assert_eq!(r.description, "t");
            assert!(matches!(&r.icon, Some(IconSource::Name(n)) if n == "appointment-new"));
        }
        _ => panic!("expected a result"),
    }
    assert!(matches!(out[2], PluginResponse::Finished));
}
