use pop_launcher_plugins::date::Date;
use pop_launcher_plugins::engine::{process_todo_request_on, Action};
use pop_launcher_plugins::launcher::{PluginResponse, Request};
use pop_launcher_plugins::todo::{Config, Session, Todo};

fn session() -> Session {
    Session {
        todo: Todo { summary: "No Description".to_string(), due: None },
        config: Config {
            url: "https://dav".to_string(),
            username: "me".to_string(),
            password: "SECRET-REDACTED".to_string(),
            calendars: vec!["Home".to_string(), "Work".to_string()],
        },
    }
}

#[test]
fn todo_search_parses_and_lists_calendars() {
    let mut s = session();
    let today = Date { year: 2024, month: 12, day: 31 };
    let step = process_todo_request_on(&Request::Search("todo ship it @tomorrow".to_string()), &today, &mut s);
    assert_eq!(s.todo.summary, "ship it");
    assert_eq!(s.todo.due, Some(Date { year: 2025, month: 1, day: 1 }));
    assert_eq!(step.before.len(), 3);
    assert!(matches!(&step.before[0], PluginResponse::Append(r) if r.description == "ship it 2025-01-01"));
    assert!(matches!(step.before[2], PluginResponse::Finished));
}

#[test]
fn todo_activate_publishes_or_reports_index() {
    let mut s = session();
    let today = Date { year: 2024, month: 1, day: 1 };
    let step = process_todo_request_on(&Request::Activate(1), &today, &mut s);
    assert!(matches!(step.before[0], PluginResponse::Clear));
    assert!(matches!(step.action, Some(Action::Publish(1))));
    assert!(matches!(step.after[0], PluginResponse::Close));
    let step = process_todo_request_on(&Request::Activate(2), &today, &mut s);
    assert!(step.action.is_none());
    assert!(step.after.is_empty());
    assert_eq!(step.error.unwrap(), "Invalid index");
    let step = process_todo_request_on(&Request::Exit, &today, &mut s);
    assert!(!step.keep_going);
    assert!(step.before.is_empty() && step.after.is_empty() && step.action.is_none());
    assert_eq!(s.todo.summary, "No Description");
}
