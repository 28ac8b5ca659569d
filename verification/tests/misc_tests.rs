use tasks::actions::{MenuAction, NavMenuAction};
use tasks::content::TaskAction;
use tasks::content::Message as ContentMessage;
use tasks::edit::{edit_step, shows_editing, EditState, EditStep};
use tasks::export::export_list;
use tasks::listing::{sort_order, SortItem, SortType};
use tasks::menu::{menu_bar, nav_context_menu, task_menu, MenuItem, MenuLabel};
use tasks::migrations;
use tasks::model::{List, Status, Timestamp};
use tasks::startup::{icons, init, safe_directives, tracing, StartupStep};
use tasks::text::{chars_of, text_contains, text_less, to_lowercase};

#[test]
fn edit_steps() {
    assert_eq!(edit_step(EditState::Idle, true), EditStep { next: Some(EditState::Entering), focus: true, persist: false });
    assert_eq!(edit_step(EditState::Entering, true), EditStep { next: Some(EditState::Editing), focus: false, persist: false });
    assert_eq!(edit_step(EditState::Editing, false), EditStep { next: Some(EditState::Exiting), focus: false, persist: true });
    assert_eq!(edit_step(EditState::Exiting, false), EditStep { next: Some(EditState::Idle), focus: false, persist: false });
    let ignored = EditStep { next: None, focus: false, persist: false };
    assert_eq!(edit_step(EditState::Entering, false), ignored);
    assert_eq!(edit_step(EditState::Exiting, true), ignored);
    assert_eq!(edit_step(EditState::Idle, false), ignored);
    assert_eq!(edit_step(EditState::Editing, true), ignored);
    assert!(shows_editing(Some(EditState::Entering)));
    assert!(shows_editing(Some(EditState::Editing)));
    assert!(!shows_editing(Some(EditState::Exiting)));
    assert!(!shows_editing(None));
}

#[test]
fn edit_round_trip_returns_to_idle() {
    let mut s = EditState::Idle;
    for report in [true, true, false, false] {
        if let Some(n) = edit_step(s, report).next {
            s = n;
        }
    }
    assert_eq!(s, EditState::Idle);
}

#[test]
fn text_helpers() {
    assert_eq!(to_lowercase("ÄbC"), "äbc");
    assert_eq!(chars_of("héllo"), vec!['h', 'é', 'l', 'l', 'o']);
    assert!(text_less(&chars_of("abc"), &chars_of("abd")));
    assert!(text_less(&chars_of("ab"), &chars_of("abc")));
    assert!(!text_less(&chars_of("abc"), &chars_of("abc")));
    assert!(!text_less(&chars_of("b"), &chars_of("abc")));
    assert!(text_contains(&chars_of("buy milk"), &chars_of("milk")));
    assert!(text_contains(&chars_of("milk"), &chars_of("")));
    assert!(!text_contains(&chars_of("mil"), &chars_of("milk")));
    assert!(!text_contains(&chars_of("buy milk"), &chars_of("mulk")));
}

fn item(name: &str, secs: i64) -> SortItem {
    SortItem { name: chars_of(name), date: Timestamp { secs, nanos: 0 } }
}

#[test]
fn sort_orders_are_stable() {
    let items = vec![item("b", 2), item("a", 2), item("b", 1), item("c", 3)];
    assert_eq!(sort_order(SortType::NameAsc, &items), vec![1, 0, 2, 3]);
    assert_eq!(sort_order(SortType::NameDesc, &items), vec![3, 0, 2, 1]);
    assert_eq!(sort_order(SortType::DateAsc, &items), vec![2, 0, 1, 3]);
    assert_eq!(sort_order(SortType::DateDesc, &items), vec![3, 0, 1, 2]);
    assert!(sort_order(SortType::NameAsc, &vec![]).is_empty());
}

#[test]
fn timestamps_order_by_seconds_then_nanoseconds() {
    let a = Timestamp { secs: 1, nanos: 5 };
    let b = Timestamp { secs: 1, nanos: 6 };
    let c = Timestamp { secs: 2, nanos: 0 };
    assert!(a.is_before(&b) && b.is_before(&c) && !b.is_before(&a) && !a.is_before(&a));
}

#[test]
fn list_icon_names() {
    let mut l = List { id: 1, name: "n".to_string(), icon: None, hide_completed: false };
    assert_eq!(l.icon_name(), "view-list-symbolic");
    l.icon = Some("star".to_string());
    assert_eq!(l.icon_name(), "star");
    assert!(Status::Completed.is_completed() && !Status::NotStarted.is_completed());
}

#[test]
fn menu_bar_layout() {
    let bar = menu_bar(false);
    assert_eq!(bar.len(), 4);
    assert_eq!(bar[0].root, MenuLabel::File);
    assert_eq!(bar[0].items.len(), 5);
    assert_eq!(bar[3].root, MenuLabel::Sort);
    assert_eq!(bar[3].items.len(), 4);
    match bar[2].items[2] {
        MenuItem::CheckBox(MenuLabel::HideCompleted, checked, action) => {
            assert!(!checked);
            assert_eq!(action, MenuAction::ToggleHideCompleted(true));
        }
        _ => panic!("the third entry of View is the hide-completed box"),
    }
    match menu_bar(true)[2].items[2] {
        MenuItem::CheckBox(_, checked, action) => {
            assert!(checked);
            assert_eq!(action, MenuAction::ToggleHideCompleted(false));
        }
        _ => panic!("the third entry of View is the hide-completed box"),
    }
    assert!(matches!(bar[0].items[1], MenuItem::Divider));
}

#[test]
fn context_menus() {
    let m = nav_context_menu(7);
    assert_eq!(m.len(), 4);
    assert!(matches!(m[2], MenuItem::Button(MenuLabel::Export, Some((_, 18)), NavMenuAction::Export(7))));
    let t = task_menu(3);
    assert!(matches!(t[0], MenuItem::Button(MenuLabel::Edit, None, TaskAction::Edit(3))));
    assert!(matches!(TaskAction::Edit(3).message(), ContentMessage::TaskOpenDetails(3)));
    assert!(matches!(TaskAction::AddSubTask(3).message(), ContentMessage::TaskAddSubTask(3)));
    assert!(matches!(TaskAction::Delete(3).message(), ContentMessage::TaskDelete(3)));
}

#[test]
fn start_up_plan() {
    assert_eq!(init(), vec![StartupStep::Localize, StartupStep::CacheIcons, StartupStep::StartTracing]);
    assert_eq!(icons(), vec![14, 16, 18, 20, 32]);
}

#[test]
fn log_filter_falls_back_to_warn() {
    assert_eq!(tracing(None), "warn");
    assert_eq!(tracing(Some("debug".to_string())), "debug");
    assert_eq!(tracing(Some("tasks=trace".to_string())), "tasks=trace");
    assert_eq!(tracing(Some("[[[not a filter".to_string())), "warn");
}

#[test]
fn export_joins_the_markdown() {
    let tasks = vec!["- [ ] a\n".to_string(), "- [x] b\n".to_string()];
    assert_eq!(export_list("# List\n", &tasks), "# List\n\n- [ ] a\n- [x] b\n");
    assert_eq!(export_list("# L", &vec![]), "# L\n");
}

#[test]
fn migration_list_record() {
    let l = migrations::List {
        id: "1".to_string(),
        file_path: "/tmp/x".to_string(),
        name: "n".to_string(),
        description: String::new(),
        icon: None,
        hide_completed: true,
    };
    let c = l.clone();
    assert_eq!(c.name, "n");
    assert!(c.hide_completed);
}

#[test]
fn directives_that_the_parser_can_slice() {
    assert!(safe_directives(""));
    assert!(safe_directives("info"));
    assert!(safe_directives(" warn, tasks=debug"));
    assert!(safe_directives("\u{e9}\u{e9}=info"));
    assert!(safe_directives("info,\u{e9}t\u{e9}=debug"));
    assert!(!safe_directives("info, \u{e9}t\u{e9}=debug"));
    assert!(!safe_directives(" \u{e9}\u{e9}=info"));
    assert!(safe_directives("info,\u{3000}tasks=debug"));
    assert!(!safe_directives("\u{3000}a=info"));
    assert!(safe_directives(" \u{e9}"));
    assert!(!safe_directives(" [\u{e9}]"));
    assert!(safe_directives(" x=\u{e9}"));
    assert!(!safe_directives(" \u{e9}[x]"));
    assert!(!safe_directives("info, \u{e9}=debug"));
    assert_eq!(tracing(Some(" warn".to_string())), " warn");
    assert_eq!(tracing(Some(" \u{e9}".to_string())), " \u{e9}");
    assert_eq!(tracing(Some(" x=\u{e9}".to_string())), "warn");
}
