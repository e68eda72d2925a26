use pop_launcher_plugins::launcher::{IconSource, PluginResponse, Request};
use pop_launcher_plugins::pass_lib::PassEntry;
use pop_launcher_plugins::pass_menu::{ContextAction, Menu};
use pop_launcher_plugins::engine::{process_menu_request, process_pass_request, trim_pass_keyword, Action};
use pop_launcher_plugins::menu;

fn leaf(name: &str) -> PassEntry {
    PassEntry { name: name.to_string(), children: None }
}

fn dir(name: &str, children: Vec<PassEntry>) -> PassEntry {
    PassEntry { name: name.to_string(), children: Some(children) }
}

fn store() -> Vec<PassEntry> {
    vec![
        leaf("mail"),
        dir("web", vec![leaf("github"), dir("empty", vec![]), dir("shop", vec![leaf("amazon")])]),
        leaf("bank"),
    ]
}

#[test]
fn ids_follow_leaf_preorder() {
    let m = Menu::build(store());
    assert_eq!(m.len(), 4);
    let expect = [("mail", "mail"), ("github", "web/github"), ("amazon", "web/shop/amazon"), ("bank", "bank")];
    for (i, (name, path)) in expect.iter().enumerate() {
        let r = m.lookup(i as u32).unwrap();
        assert_eq!(r.id, i as u32);
        assert_eq!(&r.name, name);
        assert_eq!(&r.description, path);
        assert!(matches!(&r.icon, Some(IconSource::Name(n)) if n == "security-high"));
    }
    assert!(m.lookup(4).is_none());
}

#[test]
fn empty_store_has_no_entries() {
    let m = Menu::build(vec![]);
    assert_eq!(m.len(), 0);
    assert!(m.search("").is_empty());
}

#[test]
fn search_keeps_order_and_is_case_sensitive() {
    let m = Menu::build(store());
    let ids: Vec<u32> = m.search("a").iter().map(|r| r.id).collect();
    assert_eq!(ids, vec![0, 2, 3]);
    let ids: Vec<u32> = m.search("web/").iter().map(|r| r.id).collect();
    assert_eq!(ids, vec![1, 2]);
    assert!(m.search("Mail").is_empty());
    let all: Vec<u32> = m.search("").iter().map(|r| r.id).collect();
    assert_eq!(all, vec![0, 1, 2, 3]);
}

#[test]
fn context_lists_copy_then_edit_for_any_id() {
    let m = Menu::build(store());
    for id in [0u32, 3, 4, u32::MAX] {
        let opts = m.context(id);
        assert_eq!(opts.len(), 2);
        assert_eq!((opts[0].id, opts[0].name.as_str()), (1, "Copy"));
        assert_eq!((opts[1].id, opts[1].name.as_str()), (2, "Edit"));
    }
    assert_eq!(ContextAction::Copy.code(), 1);
    assert!(ContextAction::from_code(0).is_none());
    assert!(ContextAction::from_code(3).is_none());
}

#[test]
fn activate_out_of_range_is_invalid_index() {
    let m = Menu::build(store());
    assert_eq!(m.activate(4).err().unwrap(), "Invalid index");
    assert_eq!(m.edit(9).err().unwrap(), "Invalid index");
    let l = m.activate(2).unwrap();
    assert_eq!(l.program, "pass");
    assert_eq!(l.args, vec!["-c".to_string(), "web/shop/amazon".to_string()]);
    let l = m.edit(0).unwrap();
    assert_eq!(l.args, vec!["edit".to_string(), "mail".to_string()]);
}

#[test]
fn context_action_dispatch() {
    let m = Menu::build(store());
    assert_eq!(m.activate_context(1, 2).unwrap().args[0], "edit");
    assert_eq!(m.activate_context(1, 1).unwrap().args[0], "-c");
    assert_eq!(m.activate_context(1, 7).err().unwrap(), "Invalid context action");
    assert_eq!(m.activate_context(5, 1).err().unwrap(), "Invalid index");
}

#[test]
fn keyword_is_trimmed_repeatedly() {
    assert_eq!(trim_pass_keyword("pass pass web"), "web");
    assert_eq!(trim_pass_keyword("passweb"), "passweb");
    assert_eq!(trim_pass_keyword("pass"), "pass");
}

#[test]
fn pass_requests_step_by_step() {
    let m = Menu::build(store());
    let s = process_pass_request(&Request::Search("pass shop".to_string()), &m);
    assert_eq!(s.before.len(), 2);
    assert!(matches!(&s.before[0], PluginResponse::Append(r) if r.id == 2));
    assert!(matches!(s.before[1], PluginResponse::Finished));
    assert!(s.keep_going);

    let s = process_pass_request(&Request::Activate(7), &m);
    assert!(matches!(s.before[0], PluginResponse::Close));
    assert!(s.action.is_none());
    assert_eq!(s.error.unwrap(), "Invalid index");

    let s = process_pass_request(&Request::Activate(0), &m);
    assert!(matches!(&s.action, Some(Action::Launch(l)) if l.args[1] == "mail"));

    let s = process_pass_request(&Request::Context(99), &m);
    assert!(matches!(&s.before[0], PluginResponse::Context { id: 99, options } if options.len() == 2));

    let s = process_pass_request(&Request::Exit, &m);
    assert!(!s.keep_going);
    let s = process_pass_request(&Request::Interrupt, &m);
    assert!(s.keep_going && s.before.is_empty() && s.action.is_none());
}

#[test]
fn minimal_menu_closes_after_launch() {
    let m = menu::Menu::build(store());
    let s = process_menu_request(&Request::Activate(3), &m);
    assert!(s.before.is_empty());
    assert!(matches!(&s.action, Some(Action::Launch(l)) if l.args[1] == "bank"));
    assert!(matches!(s.after[0], PluginResponse::Close));
    let s = process_menu_request(&Request::Activate(4), &m);
    assert_eq!(s.error.unwrap(), "Invalid index");
    let s = process_menu_request(&Request::Context(1), &m);
    assert!(matches!(&s.before[0], PluginResponse::Context { id: 1, options } if options.is_empty()));
    let ids: Vec<u32> = m.search("bank").iter().map(|r| r.id).collect();
    assert_eq!(ids, vec![3]);
}
