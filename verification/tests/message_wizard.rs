use rakuos_welcome::pages::PageView;
use rakuos_welcome::setup_run::{ScriptResult, START_NOTE};
use rakuos_welcome::wizard::{Action, Message, WelcomeApp, START_FAILED_NOTE};

fn is_nothing(a: &Action) -> bool {
    matches!(a, Action::Nothing)
}

#[test]
fn initial_state() {
    let app = WelcomeApp::new();
    assert_eq!(app.current_page(), 0);
    assert_eq!(app.log_text(), "");
    assert!(!app.running());
    assert_eq!(app.result(), ScriptResult::Idle);
    assert_eq!(app.page(), PageView::Welcome);
    assert!(!app.polls_output());
    assert!(!app.shows_log());
}

#[test]
fn navigation_is_bounded() {
    let mut app = WelcomeApp::new();
    assert!(is_nothing(&app.update(Message::BackPage)));
    assert_eq!(app.current_page(), 0);
    for _ in 0..10 {
        app.update(Message::NextPage);
    }
    assert_eq!(app.current_page(), 4);
    assert_eq!(app.page(), PageView::Done);
    app.update(Message::BackPage);
    assert_eq!(app.current_page(), 3);
    assert_eq!(app.page(), PageView::Setup(3));
}

#[test]
fn next_then_back_returns() {
    let mut app = WelcomeApp::new();
    app.update(Message::NextPage);
    app.update(Message::NextPage);
    app.update(Message::BackPage);
    assert_eq!(app.current_page(), 1);
}

#[test]
fn run_script_flow() {
    let mut app = WelcomeApp::new();
    app.update(Message::NextPage);
    match app.update(Message::RunScript(1)) {
        Action::StartScript(s) => assert_eq!(s, "setup-gaming"),
        other => panic!("unexpected {:?}", other),
    }
    assert!(app.running());
    assert_eq!(app.log_text(), START_NOTE);
    assert!(app.polls_output());
    assert!(app.shows_log());
    // A second request while running is ignored.
    assert!(is_nothing(&app.update(Message::RunScript(2))));
    assert_eq!(app.log_text(), START_NOTE);
    // Navigation is inactive while running.
    assert!(app.next_button().is_none());
    assert!(matches!(app.back_button(), Some(None)));
    let b = app.setup_button(1);
    assert_eq!(b.label, "Installing…");
    assert!(b.press.is_none());
    // Polling reads the log only when its length changed.
    assert!(matches!(app.update(Message::PollOutput), Action::ReadLog));
    app.log_read(format!("{}line one\n", START_NOTE));
    assert_eq!(app.log_text(), "Starting setup, please wait…\nline one\n");
    app.log_read(format!("{}line two\n", START_NOTE));
    assert_eq!(app.log_text(), "Starting setup, please wait…\nline one\n");
    app.script_ended(true);
    assert!(!app.running());
    assert_eq!(app.result(), ScriptResult::Succeeded);
    assert!(app.polls_output());
    let b = app.setup_button(1);
    assert_eq!(b.label, "✓ Done");
    assert!(b.press.is_none());
    // Leaving the page clears log and result.
    app.update(Message::NextPage);
    assert_eq!(app.log_text(), "");
    assert_eq!(app.result(), ScriptResult::Idle);
    assert!(!app.polls_output());
    let b = app.setup_button(2);
    assert_eq!(b.label, "Set Up Virtualization");
    assert!(matches!(b.press, Some(Message::RunScript(2))));
}

#[test]
fn failure_offers_retry() {
    let mut app = WelcomeApp::new();
    app.update(Message::NextPage);
    app.update(Message::NextPage);
    app.update(Message::RunScript(2));
    app.script_ended(false);
    let b = app.setup_button(2);
    assert_eq!(b.label, "Retry");
    assert!(matches!(b.press, Some(Message::RunScript(2))));
    assert!(app.shows_log());
    assert_eq!(START_FAILED_NOTE, "\nSetup failed.");
}

#[test]
fn run_script_quirks() {
    let mut app = WelcomeApp::new();
    // Page 0 saturates to the first task.
    match app.update(Message::RunScript(0)) {
        Action::StartScript(s) => assert_eq!(s, "setup-gaming"),
        other => panic!("unexpected {:?}", other),
    }
    let mut app = WelcomeApp::new();
    assert!(is_nothing(&app.update(Message::RunScript(4))));
    assert!(!app.running());
    // Running on the welcome page: polled but not shown.
    let mut app = WelcomeApp::new();
    app.update(Message::RunScript(3));
    assert!(app.polls_output());
    assert!(!app.shows_log());
}

#[test]
fn outside_actions() {
    let mut app = WelcomeApp::new();
    match app.update(Message::OpenUrl("https://rakuos.org".to_string())) {
        Action::OpenUrl(u) => assert_eq!(u, "https://rakuos.org"),
        other => panic!("unexpected {:?}", other),
    }
    assert!(matches!(app.update(Message::Finish), Action::Exit));
    assert_eq!(app.current_page(), 0);
}

#[test]
fn dots_and_buttons() {
    let mut app = WelcomeApp::new();
    assert_eq!(app.dots(), vec!["●", "○", "○", "○", "○"]);
    assert!(app.back_button().is_none());
    assert_eq!(app.next_label(), "Next →");
    assert!(matches!(app.next_button(), Some(Message::NextPage)));
    for _ in 0..4 {
        app.update(Message::NextPage);
    }
    assert_eq!(app.dots(), vec!["○", "○", "○", "○", "●"]);
    assert_eq!(app.next_label(), "Finish");
    assert!(matches!(app.next_button(), Some(Message::Finish)));
    assert!(matches!(app.back_button(), Some(Some(Message::BackPage))));
    assert_eq!(app.dots().iter().filter(|d| **d == "●").count(), 1);
}

#[test]
fn setup_page_flags() {
    let mut app = WelcomeApp::new();
    assert!(!app.on_setup_page());
    app.update(Message::NextPage);
    assert!(app.on_setup_page());
    for _ in 0..3 {
        app.update(Message::NextPage);
    }
    assert!(!app.on_setup_page());
}
