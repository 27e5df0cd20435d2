use rakuos_welcome::backend::{Notify, SharedState, WelcomeBackend, TOTAL_PAGES};
use rakuos_welcome::setup_run::{
    exit_chunk, log_chunk, start_error_chunk, ScriptResult, FAILURE_NOTE, START_NOTE,
};

fn quiet() -> Notify {
    Notify {
        current_page: false,
        script_running: false,
        script_result: false,
        log_revision: false,
        close_requested: false,
    }
}

#[test]
fn starts_on_welcome_page() {
    let b = WelcomeBackend::new();
    assert_eq!(b.current_page, 0);
    assert!(!b.script_running);
    assert_eq!(b.script_result, 0);
    assert_eq!(b.log_revision, 0);
    assert_eq!(b.shared, SharedState::new());
    assert_eq!(b.total_pages(), 5);
    assert_eq!(TOTAL_PAGES, 5);
}

#[test]
fn paging_is_bounded() {
    let mut b = WelcomeBackend::new();
    assert_eq!(b.back_page(), quiet());
    assert_eq!(b.current_page, 0);
    for expected in 1..5 {
        let n = b.next_page();
        assert!(n.current_page && n.script_running && n.script_result);
        assert!(!n.log_revision && !n.close_requested);
        assert_eq!(b.current_page, expected);
    }
    assert_eq!(b.next_page(), quiet());
    assert_eq!(b.current_page, 4);
    b.back_page();
    assert_eq!(b.current_page, 3);
}

#[test]
fn next_then_back_returns_to_page() {
    let mut b = WelcomeBackend::new();
    b.next_page();
    b.next_page();
    b.next_page();
    b.back_page();
    assert_eq!(b.current_page, 2);
}

#[test]
fn run_starts_once() {
    let mut b = WelcomeBackend::new();
    b.next_page();
    let (n, script) = b.run_script_for_page(1);
    assert_eq!(script, Some("setup-gaming"));
    assert!(n.script_running && n.script_result && n.log_revision && !n.current_page);
    assert!(b.script_running && b.shared.running);
    assert_eq!(b.shared.result, ScriptResult::Idle);
    let (n2, again) = b.run_script_for_page(2);
    assert_eq!(again, None);
    assert_eq!(n2, quiet());
}

#[test]
fn run_needs_a_setup_page() {
    let mut b = WelcomeBackend::new();
    let before = b;
    assert_eq!(b.run_script_for_page(0), (quiet(), None));
    assert_eq!(b.run_script_for_page(4), (quiet(), None));
    assert_eq!(b, before);
}

#[test]
fn worker_counts_revisions_and_poll_publishes() {
    let mut b = WelcomeBackend::new();
    b.next_page();
    b.run_script_for_page(1);
    assert_eq!(b.shared.record_line("installing steam"), Some("installing steam\n".to_string()));
    assert_eq!(b.shared.record_line(""), None);
    assert_eq!(b.shared.record_line("done"), Some("done\n".to_string()));
    assert_eq!(b.shared.log_revision, 2);
    let n = b.poll_script();
    assert!(n.log_revision && !n.script_running && !n.script_result);
    assert_eq!(b.log_revision, 2);
    let chunk = b.shared.finish(true);
    assert_eq!(chunk, "\nSetup completed successfully!\n");
    assert_eq!(b.shared.log_revision, 3);
    assert!(!b.shared.running);
    assert_eq!(b.shared.result, ScriptResult::Succeeded);
    let n = b.poll_script();
    assert!(n.script_running && n.script_result && n.log_revision);
    assert_eq!(b.script_result, 1);
    assert!(!b.script_running);
    assert_eq!(b.poll_script(), quiet());
}

#[test]
fn failed_start_is_a_failure() {
    let mut s = SharedState::new();
    s.running = true;
    let chunk = s.fail_to_start("No such file or directory (os error 2)");
    assert_eq!(chunk, "No such file or directory (os error 2)\nSetup failed. You can retry or skip.\n");
    assert_eq!(s.result, ScriptResult::Failed);
    assert_eq!(s.log_revision, 1);
    assert!(!s.running);
    let mut t = SharedState::new();
    assert_eq!(t.finish(false), "\nSetup failed. You can retry or skip.\n");
    assert_eq!(t.result.code(), 2);
}

#[test]
fn revision_wraps_at_the_end() {
    let mut s = SharedState::new();
    s.log_revision = i32::MAX;
    s.finish(true);
    assert_eq!(s.log_revision, i32::MIN);
}

#[test]
fn poll_after_page_change_keeps_reset() {
    let mut b = WelcomeBackend::new();
    b.next_page();
    b.run_script_for_page(1);
    b.shared.finish(false);
    b.poll_script();
    assert_eq!(b.script_result, 2);
    b.next_page();
    let n = b.poll_script();
    assert!(!n.script_running && !n.script_result);
    assert!(!b.script_running);
    assert_eq!(b.script_result, 0);
}

#[test]
fn finishing_requests_close() {
    let b = WelcomeBackend::new();
    let n = b.finish_setup();
    assert!(n.close_requested);
    assert!(!n.current_page && !n.script_running && !n.script_result && !n.log_revision);
}

#[test]
fn result_codes_and_chunks() {
    assert_eq!(ScriptResult::Idle.code(), 0);
    assert_eq!(ScriptResult::Succeeded.code(), 1);
    assert_eq!(ScriptResult::Failed.code(), 2);
    assert_eq!(ScriptResult::from_success(true), ScriptResult::Succeeded);
    assert_eq!(ScriptResult::from_success(false), ScriptResult::Failed);
    assert_eq!(log_chunk("a"), Some("a\n".to_string()));
    assert_eq!(log_chunk(""), None);
    assert_eq!(exit_chunk(true), "\nSetup completed successfully!\n");
    assert_eq!(start_error_chunk("e", FAILURE_NOTE), "e\nSetup failed. You can retry or skip.\n");
    assert_eq!(START_NOTE, "Starting setup, please wait…\n");
}
