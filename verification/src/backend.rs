//! The page and script logic behind the QML welcome window: the published
//! properties, the state a setup run shares with its worker, and which change
//! notifications each call emits.
use vstd::prelude::*;
use crate::pages::{script_for_page, spec_script_for_page, spec_setup_page};
use crate::setup_run::{
    ScriptResult, log_chunk, exit_chunk, start_error_chunk, spec_log_chunk, spec_exit_chunk,
    FAILURE_NOTE,
};

verus! {

/// State written by the worker that runs a setup script and read by `poll_script`.
#[derive(Clone, Copy, Debug, PartialEq, Eq, Structural)]
pub struct SharedState {
    pub running: bool,
    pub result: ScriptResult,
    /// Number of log updates the worker has made since the script started.
    pub log_revision: i32,
}

impl SharedState {
    pub open spec fn idle() -> SharedState {
        SharedState { running: false, result: ScriptResult::Idle, log_revision: 0 }
    }

    /// No script running, no result, no log updates.
    pub fn new() -> (r: SharedState)
        ensures
            r == Self::idle(),
    {
        SharedState { running: false, result: ScriptResult::Idle, log_revision: 0 }
    }

    /// The worker read one line of script output: a non-empty line goes to the
    /// log and counts as one log update; an empty line is dropped.
    pub fn record_line(&mut self, line: &str) -> (chunk: Option<String>)
        requires
            old(self).log_revision < i32::MAX,
        ensures
            chunk matches Some(c) ==> spec_log_chunk(line@) == Some(c@),
            chunk is None ==> spec_log_chunk(line@) is None,
            *final(self) == spec_record_line(*old(self), line@),
    {
        let chunk = log_chunk(line);
        if chunk.is_some() {
            self.log_revision = self.log_revision + 1;
        }
        chunk
    }

    /// The script exited: its result is published, the log gets its closing
    /// line (one more update) and the run is over.
    pub fn finish(&mut self, success: bool) -> (chunk: String)
        ensures
            chunk@ == spec_exit_chunk(success),
            *final(self) == spec_finish(*old(self), success),
    {
        self.result = ScriptResult::from_success(success);
        self.log_revision = self.log_revision.wrapping_add(1);
        self.running = false;
        exit_chunk(success)
    }

    /// The script could not be started: the error goes to the log, the run failed.
    pub fn fail_to_start(&mut self, error: &str) -> (chunk: String)
        ensures
            chunk@ == error@ + FAILURE_NOTE@ + "\n"@,
            *final(self) == spec_finish(*old(self), false),
    {
        self.result = ScriptResult::Failed;
        self.log_revision = self.log_revision.wrapping_add(1);
        self.running = false;
        start_error_chunk(error, FAILURE_NOTE)
    }
}

pub open spec fn spec_record_line(s: SharedState, line: Seq<char>) -> SharedState {
    if line.len() == 0 {
        s
    } else {
        SharedState { log_revision: (s.log_revision + 1) as i32, ..s }
    }
}

pub open spec fn spec_finish(s: SharedState, success: bool) -> SharedState {
    SharedState {
        running: false,
        result: ScriptResult::spec_from_success(success),
        log_revision: vstd::wrapping::i32_specs::wrapping_add(s.log_revision, 1),
    }
}

/// Which change notifications a call emitted.
#[derive(Clone, Copy, Debug, PartialEq, Eq, Structural)]
pub struct Notify {
    pub current_page: bool,
    pub script_running: bool,
    pub script_result: bool,
    pub log_revision: bool,
    pub close_requested: bool,
}

impl Notify {
    pub open spec fn none() -> Notify {
        Notify {
            current_page: false,
            script_running: false,
            script_result: false,
            log_revision: false,
            close_requested: false,
        }
    }

    pub fn nothing() -> (r: Notify)
        ensures
            r == Self::none(),
    {
        Notify {
            current_page: false,
            script_running: false,
            script_result: false,
            log_revision: false,
            close_requested: false,
        }
    }
}

/// Number of pages the QML window pages through.
pub const TOTAL_PAGES: i32 = 5;

/// The properties the window publishes, and the state shared with the worker.
///
/// The properties mirror the shared state; `poll_script` brings them up to date.
#[derive(Clone, Copy, Debug, PartialEq, Eq, Structural)]
pub struct WelcomeBackend {
    pub current_page: i32,
    pub script_running: bool,
    /// 0 idle, 1 success, 2 failure (see `ScriptResult::code`).
    pub script_result: i32,
    /// Grows when the log has new content.
    pub log_revision: i32,
    pub shared: SharedState,
}

/// The backend after moving to page `to`: any script state of the old page is forgotten,
/// in the shared state too, so that a later poll does not bring it back.
pub open spec fn spec_move_to(b: WelcomeBackend, to: i32) -> WelcomeBackend {
    WelcomeBackend {
        current_page: to,
        script_running: false,
        script_result: 0,
        shared: SharedState { running: false, result: ScriptResult::Idle, ..b.shared },
        ..b
    }
}

pub open spec fn page_move_notify() -> Notify {
    Notify { current_page: true, script_running: true, script_result: true, ..Notify::none() }
}

pub open spec fn spec_next_page(b: WelcomeBackend) -> (WelcomeBackend, Notify) {
    if b.current_page < TOTAL_PAGES - 1 {
        (spec_move_to(b, (b.current_page + 1) as i32), page_move_notify())
    } else {
        (b, Notify::none())
    }
}

pub open spec fn spec_back_page(b: WelcomeBackend) -> (WelcomeBackend, Notify) {
    if b.current_page > 0 {
        (spec_move_to(b, (b.current_page - 1) as i32), page_move_notify())
    } else {
        (b, Notify::none())
    }
}

/// The properties after taking over the shared state, and which of them changed.
pub open spec fn spec_poll(b: WelcomeBackend) -> (WelcomeBackend, Notify) {
    (
        WelcomeBackend {
            script_running: b.shared.running,
            script_result: b.shared.result.spec_code(),
            log_revision: b.shared.log_revision,
            ..b
        },
        Notify {
            script_running: b.script_running != b.shared.running,
            script_result: b.script_result != b.shared.result.spec_code(),
            log_revision: b.log_revision != b.shared.log_revision,
            ..Notify::none()
        },
    )
}

/// Starting the script of page `page_index`: refused while one runs or when the
/// page has none; else everything is reset to a fresh running script.
pub open spec fn spec_run_script(b: WelcomeBackend, page_index: i32) -> (
    WelcomeBackend,
    Notify,
    Option<&'static str>,
) {
    if b.script_running || spec_script_for_page(page_index as int) is None {
        (b, Notify::none(), None)
    } else {
        (
            WelcomeBackend {
                script_running: true,
                script_result: 0,
                log_revision: 0,
                shared: SharedState {
                    running: true,
                    result: ScriptResult::Idle,
                    log_revision: 0,
                },
                ..b
            },
            Notify {
                script_running: true,
                script_result: true,
                log_revision: true,
                ..Notify::none()
            },
            spec_script_for_page(page_index as int),
        )
    }
}

impl WelcomeBackend {
    /// The window opens on the welcome page with no script.
    pub fn new() -> (r: WelcomeBackend)
        ensures
            r.current_page == 0,
            !r.script_running,
            r.script_result == 0,
            r.log_revision == 0,
            r.shared == SharedState::idle(),
    {
        WelcomeBackend {
            current_page: 0,
            script_running: false,
            script_result: 0,
            log_revision: 0,
            shared: SharedState::new(),
        }
    }

    /// Forward one page, unless on the last.
    pub fn next_page(&mut self) -> (n: Notify)
        ensures
            (*final(self), n) == spec_next_page(*old(self)),
    {
        let idx = self.current_page;
        if idx < TOTAL_PAGES - 1 {
            self.shared.result = ScriptResult::Idle;
            self.shared.running = false;
            self.script_result = 0;
            self.script_running = false;
            self.current_page = idx + 1;
            Notify {
                current_page: true,
                script_running: true,
                script_result: true,
                log_revision: false,
                close_requested: false,
            }
        } else {
            Notify::nothing()
        }
    }

    /// Back one page, unless on the first.
    pub fn back_page(&mut self) -> (n: Notify)
        ensures
            (*final(self), n) == spec_back_page(*old(self)),
    {
        let idx = self.current_page;
        if idx > 0 {
            self.shared.result = ScriptResult::Idle;
            self.shared.running = false;
            self.script_result = 0;
            self.script_running = false;
            self.current_page = idx - 1;
            Notify {
                current_page: true,
                script_running: true,
                script_result: true,
                log_revision: false,
                close_requested: false,
            }
        } else {
            Notify::nothing()
        }
    }

    pub fn total_pages(&self) -> (r: i32)
        ensures
            r == TOTAL_PAGES,
    {
        TOTAL_PAGES
    }

    /// Takes over what the worker published; notifies only what changed.
    pub fn poll_script(&mut self) -> (n: Notify)
        ensures
            (*final(self), n) == spec_poll(*old(self)),
    {
        let new_running = self.shared.running;
        let new_result = self.shared.result.code();
        let new_rev = self.shared.log_revision;
        let mut n = Notify::nothing();
        if self.script_running != new_running {
            self.script_running = new_running;
            n.script_running = true;
        }
        if self.script_result != new_result {
            self.script_result = new_result;
            n.script_result = true;
        }
        if self.log_revision != new_rev {
            self.log_revision = new_rev;
            n.log_revision = true;
        }
        n
    }

    /// Starts the setup script of page `page_index`; returns the script that the
    /// caller is to launch (after writing `START_NOTE` to a fresh log).
    pub fn run_script_for_page(&mut self, page_index: i32) -> (r: (Notify, Option<&'static str>))
        ensures
            (*final(self), r.0, r.1) == spec_run_script(*old(self), page_index),
    {
        if self.script_running {
            return (Notify::nothing(), None);
        }
        let script = match script_for_page(page_index) {
            Some(s) => s,
            None => {
                return (Notify::nothing(), None);
            },
        };
        self.shared.running = true;
        self.shared.result = ScriptResult::Idle;
        self.shared.log_revision = 0;
        self.script_running = true;
        self.script_result = 0;
        self.log_revision = 0;
        (
            Notify {
                current_page: false,
                script_running: true,
                script_result: true,
                log_revision: true,
                close_requested: false,
            },
            Some(script),
        )
    }

    /// Finishing asks the window to close (the caller first writes the marker file).
    pub fn finish_setup(&self) -> (n: Notify)
        ensures
            n == (Notify { close_requested: true, ..Notify::none() }),
    {
        Notify {
            current_page: false,
            script_running: false,
            script_result: false,
            log_revision: false,
            close_requested: true,
        }
    }
}

/// Moving forward and then back from any page but the last lands on the page one started on.
pub proof fn next_then_back_returns(b: WelcomeBackend)
    requires
        0 <= b.current_page < TOTAL_PAGES - 1,
    ensures
        spec_back_page(spec_next_page(b).0).0.current_page == b.current_page,
{
}

/// Moving back and then forward from any page but the first lands on the page one started on.
pub proof fn back_then_next_returns(b: WelcomeBackend)
    requires
        0 < b.current_page < TOTAL_PAGES,
    ensures
        spec_next_page(spec_back_page(b).0).0.current_page == b.current_page,
{
}

/// The current page never leaves the wizard's pages, whatever is called.
pub proof fn page_stays_in_range(b: WelcomeBackend, page_index: i32)
    requires
        0 <= b.current_page < TOTAL_PAGES,
    ensures
        0 <= spec_next_page(b).0.current_page < TOTAL_PAGES,
        0 <= spec_back_page(b).0.current_page < TOTAL_PAGES,
        spec_poll(b).0.current_page == b.current_page,
        spec_run_script(b, page_index).0.current_page == b.current_page,
{
}

/// After a page change, polling does not bring back the running flag or the
/// result of the page that was left.
pub proof fn poll_after_page_move_stays_reset(b: WelcomeBackend)
    ensures
        ({
            let (moved, _) = spec_next_page(b);
            let (polled, n) = spec_poll(moved);
            b.current_page < TOTAL_PAGES - 1 ==> {
                &&& !polled.script_running
                &&& polled.script_result == 0
                &&& !n.script_running
                &&& !n.script_result
            }
        }),
        ({
            let (moved, _) = spec_back_page(b);
            let (polled, n) = spec_poll(moved);
            b.current_page > 0 ==> {
                &&& !polled.script_running
                &&& polled.script_result == 0
                &&& !n.script_running
                &&& !n.script_result
            }
        }),
{
}

/// Polling twice in a row: the second poll changes nothing and notifies nothing.
pub proof fn second_poll_is_quiet(b: WelcomeBackend)
    ensures
        spec_poll(spec_poll(b).0) == (spec_poll(b).0, Notify::none()),
{
}

/// A request to run a script while one runs is ignored.
pub proof fn run_while_running_is_ignored(b: WelcomeBackend, page_index: i32)
    requires
        b.script_running,
    ensures
        spec_run_script(b, page_index) == (b, Notify::none(), None::<&'static str>),
{
}

/// A running script has not reported a result yet.
pub open spec fn shared_consistent(s: SharedState) -> bool {
    s.running ==> s.result == ScriptResult::Idle
}

/// Every operation keeps a running script free of a result.
pub proof fn running_script_has_no_result(
    b: WelcomeBackend,
    page_index: i32,
    line: Seq<char>,
    success: bool,
)
    requires
        shared_consistent(b.shared),
    ensures
        shared_consistent(spec_next_page(b).0.shared),
        shared_consistent(spec_back_page(b).0.shared),
        shared_consistent(spec_poll(b).0.shared),
        shared_consistent(spec_run_script(b, page_index).0.shared),
        shared_consistent(spec_record_line(b.shared, line)),
        shared_consistent(spec_finish(b.shared, success)),
{
}

/// The shared state after the worker read `lines`, in order.
pub open spec fn record_lines(s: SharedState, lines: Seq<Seq<char>>) -> SharedState
    decreases lines.len(),
{
    if lines.len() == 0 {
        s
    } else {
        spec_record_line(record_lines(s, lines.drop_last()), lines.last())
    }
}

/// Number of non-empty lines.
pub open spec fn count_nonempty(lines: Seq<Seq<char>>) -> nat
    decreases lines.len(),
{
    if lines.len() == 0 {
        0
    } else {
        count_nonempty(lines.drop_last()) + if lines.last().len() == 0 {
            0nat
        } else {
            1nat
        }
    }
}

proof fn lemma_record_lines(s: SharedState, lines: Seq<Seq<char>>)
    requires
        s.log_revision + lines.len() <= i32::MAX,
    ensures
        count_nonempty(lines) <= lines.len(),
        record_lines(s, lines) == (SharedState {
            log_revision: (s.log_revision + count_nonempty(lines)) as i32,
            ..s
        }),
    decreases lines.len(),
{
    if lines.len() > 0 {
        lemma_record_lines(s, lines.drop_last());
    }
}

/// Over one run, the log revision counts the non-empty output lines, plus one
/// for the closing line; the result is that of the exit.
pub proof fn revision_counts_output_lines(lines: Seq<Seq<char>>, success: bool)
    requires
        lines.len() < i32::MAX,
    ensures
        ({
            let started = SharedState {
                running: true,
                result: ScriptResult::Idle,
                log_revision: 0,
            };
            &&& record_lines(started, lines) == (SharedState {
                log_revision: count_nonempty(lines) as i32,
                ..started
            })
            &&& spec_finish(record_lines(started, lines), success) == (SharedState {
                running: false,
                result: ScriptResult::spec_from_success(success),
                log_revision: (count_nonempty(lines) + 1) as i32,
            })
        }),
{
    let started = SharedState { running: true, result: ScriptResult::Idle, log_revision: 0 };
    lemma_record_lines(started, lines);
}

/// When no script runs, a run request for any setup page (1, 2 or 3) starts that
/// page's script (gaming, virtualization, Ollama), marks it running with no
/// result and a fresh log revision, notifies these three properties, and keeps
/// the page; any other page index starts nothing and changes nothing.
pub proof fn run_request_starts_setup_page_script(b: WelcomeBackend, page_index: i32)
    requires
        !b.script_running,
    ensures
        ({
            let (after, n, script) = spec_run_script(b, page_index);
            &&& page_index == 1 ==> script == Some("setup-gaming")
            &&& page_index == 2 ==> script == Some("setup-virtualization")
            &&& page_index == 3 ==> script == Some("setup-ollama")
            &&& (1 <= page_index <= 3) ==> {
                &&& script == Some(spec_setup_page(page_index - 1)->0.script)
                &&& after.script_running
                &&& after.shared.running
                &&& after.script_result == 0
                &&& after.shared.result == ScriptResult::Idle
                &&& after.log_revision == 0
                &&& after.shared.log_revision == 0
                &&& after.current_page == b.current_page
                &&& n.script_running && n.script_result && n.log_revision
                &&& !n.current_page && !n.close_requested
            }
            &&& !(1 <= page_index <= 3) ==> (after == b && n == Notify::none() && script is None)
        }),
{
}

} // verus!
