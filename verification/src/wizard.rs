//! The welcome wizard as one application state updated by messages: the page
//! shown, the setup log, and the state of the setup script.
use vstd::prelude::*;
use vstd::string::*;
use vstd::utf8::encode_utf8;
use crate::pages::{
    page_view, setup_button_label, setup_index_of_page, setup_page, setup_page_for,
    spec_page_view, spec_setup_page, PageView, LAST_PAGE, TOTAL_PAGES,
};
use crate::setup_run::{ScriptResult, START_NOTE};

verus! {

/// What the user or a timer asks of the wizard.
#[derive(Clone, Debug)]
pub enum Message {
    NextPage,
    BackPage,
    /// Run the setup script of the given wizard page.
    RunScript(usize),
    /// Time to look at the log file again.
    PollOutput,
    OpenUrl(String),
    Finish,
}

/// The outside work an update asks for.
#[derive(Clone, Debug)]
pub enum Action {
    Nothing,
    /// Write `START_NOTE` to a fresh log file and run this script in the background.
    StartScript(&'static str),
    /// Read the log file and hand its content to `WelcomeApp::log_read`.
    ReadLog,
    OpenUrl(String),
    /// Write the welcome-done marker and quit.
    Exit,
}

/// The note that follows the error in the log when a script could not be started.
pub const START_FAILED_NOTE: &'static str = "\nSetup failed.";

/// Length in bytes of the UTF-8 text `s`.
pub open spec fn byte_len(s: Seq<char>) -> usize {
    encode_utf8(s).len() as usize
}

/// The abstract state of the wizard.
pub struct WizardModel {
    pub page: int,
    /// The setup log as last read.
    pub log: Seq<char>,
    /// Byte length of the log as last read.
    pub last_log_len: usize,
    pub running: bool,
    pub result: ScriptResult,
}

/// The page is one of the wizard's, the recorded length is that of the log,
/// and a running script has no result yet.
pub open spec fn model_inv(m: WizardModel) -> bool {
    &&& 0 <= m.page < TOTAL_PAGES
    &&& m.last_log_len == byte_len(m.log)
    &&& m.running ==> m.result == ScriptResult::Idle
}

/// The state after moving to page `to`: the log and the result of the old page are dropped.
pub open spec fn model_move_to(m: WizardModel, to: int) -> WizardModel {
    WizardModel { page: to, log: Seq::empty(), last_log_len: 0, result: ScriptResult::Idle, ..m }
}

/// What a message does to the state, and what outside work it asks for.
pub open spec fn spec_update(m: WizardModel, msg: Message) -> (WizardModel, Action) {
    match msg {
        Message::NextPage => {
            if m.page < LAST_PAGE {
                (model_move_to(m, m.page + 1), Action::Nothing)
            } else {
                (m, Action::Nothing)
            }
        },
        Message::BackPage => {
            if m.page > 0 {
                (model_move_to(m, m.page - 1), Action::Nothing)
            } else {
                (m, Action::Nothing)
            }
        },
        Message::RunScript(page) => {
            let task = spec_setup_page(setup_index_of_page(page as int));
            if m.running || task is None {
                (m, Action::Nothing)
            } else {
                (
                    WizardModel {
                        log: START_NOTE@,
                        last_log_len: byte_len(START_NOTE@),
                        running: true,
                        result: ScriptResult::Idle,
                        ..m
                    },
                    Action::StartScript(task->0.script),
                )
            }
        },
        Message::PollOutput => (m, Action::ReadLog),
        Message::OpenUrl(url) => (m, Action::OpenUrl(url)),
        Message::Finish => (m, Action::Exit),
    }
}

/// The log file was read: its content replaces the shown log when its length changed.
pub open spec fn spec_log_read(m: WizardModel, content: Seq<char>) -> WizardModel {
    if byte_len(content) != m.last_log_len {
        WizardModel { log: content, last_log_len: byte_len(content), ..m }
    } else {
        m
    }
}

/// The script ended (or could not start, which counts as failure).
pub open spec fn spec_script_ended(m: WizardModel, success: bool) -> WizardModel {
    WizardModel { running: false, result: ScriptResult::spec_from_success(success), ..m }
}

pub open spec fn model_on_setup_page(m: WizardModel) -> bool {
    0 < m.page < LAST_PAGE
}

/// The log is shown on a setup page while a script runs or after it ended.
pub open spec fn model_shows_log(m: WizardModel) -> bool {
    model_on_setup_page(m) && (m.running || m.result != ScriptResult::Idle)
}

/// The log file is polled while a script runs, and after it ended on a setup page.
pub open spec fn model_polls_output(m: WizardModel) -> bool {
    m.running || (m.result != ScriptResult::Idle && model_on_setup_page(m))
}

/// The welcome wizard.
pub struct WelcomeApp {
    current_page: usize,
    log_text: String,
    last_log_len: usize,
    running: bool,
    result: ScriptResult,
}

impl View for WelcomeApp {
    type V = WizardModel;

    closed spec fn view(&self) -> WizardModel {
        WizardModel {
            page: self.current_page as int,
            log: self.log_text@,
            last_log_len: self.last_log_len,
            running: self.running,
            result: self.result,
        }
    }
}

impl WelcomeApp {
    #[verifier::type_invariant]
    spec fn inv(self) -> bool {
        model_inv(self@)
    }

    /// The wizard starts on the welcome page with an empty log and no script.
    pub fn new() -> (r: WelcomeApp)
        ensures
            r@.page == 0,
            r@.log == Seq::<char>::empty(),
            r@.last_log_len == 0,
            !r@.running,
            r@.result == ScriptResult::Idle,
            model_inv(r@),
    {
        let log_text = String::new();
        proof {
            reveal_with_fuel(encode_utf8, 1);
        }
        WelcomeApp {
            current_page: 0,
            log_text,
            last_log_len: 0,
            running: false,
            result: ScriptResult::Idle,
        }
    }

    pub fn current_page(&self) -> (r: usize)
        ensures
            r == self@.page,
    {
        self.current_page
    }

    pub fn log_text(&self) -> (r: &str)
        ensures
            r@ == self@.log,
    {
        self.log_text.as_str()
    }

    pub fn running(&self) -> (r: bool)
        ensures
            r == self@.running,
    {
        self.running
    }

    pub fn result(&self) -> (r: ScriptResult)
        ensures
            r == self@.result,
    {
        self.result
    }

    fn move_to(&mut self, to: usize)
        requires
            to < TOTAL_PAGES,
        ensures
            final(self)@ == model_move_to(old(self)@, to as int),
    {
        proof {
            use_type_invariant(&*self);
            reveal_with_fuel(encode_utf8, 1);
        }
        let running = self.running;
        *self = WelcomeApp {
            current_page: to,
            log_text: String::new(),
            last_log_len: 0,
            running,
            result: ScriptResult::Idle,
        };
    }

    /// Handles one message; returns the outside work it calls for.
    pub fn update(&mut self, message: Message) -> (action: Action)
        ensures
            (final(self)@, action) == spec_update(old(self)@, message),
            model_inv(old(self)@),
            model_inv(final(self)@),
    {
        proof {
            use_type_invariant(&*self);
        }
        match message {
            Message::NextPage => {
                if self.current_page < LAST_PAGE {
                    let to = self.current_page + 1;
                    self.move_to(to);
                }
                Action::Nothing
            },
            Message::BackPage => {
                if self.current_page > 0 {
                    let to = self.current_page - 1;
                    self.move_to(to);
                }
                Action::Nothing
            },
            Message::RunScript(page) => {
                if self.running {
                    return Action::Nothing;
                }
                let task = match setup_page_for(page) {
                    Some(t) => t,
                    None => {
                        return Action::Nothing;
                    },
                };
                let page_now = self.current_page;
                *self = WelcomeApp {
                    current_page: page_now,
                    log_text: START_NOTE.to_owned(),
                    last_log_len: START_NOTE.len(),
                    running: true,
                    result: ScriptResult::Idle,
                };
                Action::StartScript(task.script)
            },
            Message::PollOutput => Action::ReadLog,
            Message::OpenUrl(url) => Action::OpenUrl(url),
            Message::Finish => Action::Exit,
        }
    }

    /// Takes the content of the log file read after `Action::ReadLog`.
    pub fn log_read(&mut self, content: String)
        ensures
            final(self)@ == spec_log_read(old(self)@, content@),
            model_inv(final(self)@),
    {
        proof {
            use_type_invariant(&*self);
        }
        let n = content.as_str().len();
        if n != self.last_log_len {
            let page = self.current_page;
            let running = self.running;
            let result = self.result;
            *self = WelcomeApp {
                current_page: page,
                log_text: content,
                last_log_len: n,
                running,
                result,
            };
        }
    }

    /// The background script exited, successfully or not; a script that could
    /// not be started ends as a failure.
    pub fn script_ended(&mut self, success: bool)
        ensures
            final(self)@ == spec_script_ended(old(self)@, success),
            model_inv(final(self)@),
    {
        proof {
            use_type_invariant(&*self);
        }
        self.running = false;
        self.result = ScriptResult::from_success(success);
    }
}

/// The run button of a setup page: its label, and the message it sends when
/// pressed (none while it is inactive).
#[derive(Clone, Debug)]
pub struct SetupButton {
    pub label: String,
    pub press: Option<Message>,
}

/// The label of a setup page's run button.
pub open spec fn spec_setup_button_label(m: WizardModel, title: Seq<char>) -> Seq<char> {
    if m.result == ScriptResult::Succeeded {
        "✓ Done"@
    } else if m.result == ScriptResult::Failed {
        "Retry"@
    } else if m.running {
        "Installing…"@
    } else {
        "Set Up "@ + title
    }
}

/// The run button is active while no script runs and the last run did not succeed.
pub open spec fn model_run_enabled(m: WizardModel) -> bool {
    !m.running && m.result != ScriptResult::Succeeded
}

impl WelcomeApp {
    /// Whether the log file is to be polled: while a script runs, and after it
    /// ended while a setup page is shown.
    pub fn polls_output(&self) -> (r: bool)
        ensures
            r == model_polls_output(self@),
    {
        let on_setup_page = self.current_page > 0 && self.current_page < LAST_PAGE;
        self.running || (self.result != ScriptResult::Idle && on_setup_page)
    }

    /// Whether a setup page is shown.
    pub fn on_setup_page(&self) -> (r: bool)
        ensures
            r == model_on_setup_page(self@),
    {
        self.current_page > 0 && self.current_page < LAST_PAGE
    }

    /// Whether the log area is shown.
    pub fn shows_log(&self) -> (r: bool)
        ensures
            r == model_shows_log(self@),
    {
        self.on_setup_page() && (self.running || self.result != ScriptResult::Idle)
    }

    /// The page that is shown.
    pub fn page(&self) -> (r: PageView)
        ensures
            r == spec_page_view(self@.page),
    {
        page_view(self.current_page)
    }

    /// The page dots: filled for the current page, hollow for the others.
    pub fn dots(&self) -> (r: Vec<&'static str>)
        ensures
            r@.len() == TOTAL_PAGES,
            forall|i: int|
                0 <= i < TOTAL_PAGES ==> #[trigger] r@[i] == (if i == self@.page {
                    "●"
                } else {
                    "○"
                }),
    {
        let mut dots: Vec<&'static str> = Vec::new();
        let mut i: usize = 0;
        while i < TOTAL_PAGES
            invariant
                i <= TOTAL_PAGES,
                dots@.len() == i,
                forall|j: int|
                    0 <= j < i ==> #[trigger] dots@[j] == (if j == self@.page {
                        "●"
                    } else {
                        "○"
                    }),
            decreases TOTAL_PAGES - i,
        {
            if i == self.current_page {
                dots.push("●");
            } else {
                dots.push("○");
            }
            i = i + 1;
        }
        dots
    }

    /// The back button: absent on the first page; inactive while a script runs.
    pub fn back_button(&self) -> (r: Option<Option<Message>>)
        ensures
            r is Some <==> self@.page > 0,
            r matches Some(press) ==> (press is Some <==> !self@.running),
            r matches Some(Some(msg)) ==> msg is BackPage,
    {
        if self.current_page > 0 {
            if !self.running {
                Some(Some(Message::BackPage))
            } else {
                Some(None)
            }
        } else {
            None
        }
    }

    /// The forward button reads "Finish" on the last page.
    pub fn next_label(&self) -> (r: &'static str)
        ensures
            r == (if self@.page == LAST_PAGE {
                "Finish"
            } else {
                "Next →"
            }),
    {
        if self.current_page == LAST_PAGE {
            "Finish"
        } else {
            "Next →"
        }
    }

    /// The forward button finishes on the last page and moves on elsewhere;
    /// it is inactive while a script runs.
    pub fn next_button(&self) -> (r: Option<Message>)
        ensures
            r is Some <==> !self@.running,
            r matches Some(msg) ==> (if self@.page == LAST_PAGE {
                msg is Finish
            } else {
                msg is NextPage
            }),
    {
        if self.running {
            None
        } else if self.current_page == LAST_PAGE {
            Some(Message::Finish)
        } else {
            Some(Message::NextPage)
        }
    }

    /// The run button of setup page `page` (1 to 3).
    pub fn setup_button(&self, page: usize) -> (r: SetupButton)
        requires
            1 <= page <= 3,
        ensures
            r.label@ == spec_setup_button_label(
                self@,
                spec_setup_page(page - 1)->0.title@,
            ),
            r.press is Some <==> model_run_enabled(self@),
            r.press matches Some(msg) ==> msg == Message::RunScript(page),
    {
        let task = setup_page(page - 1).unwrap();
        let label = if self.result == ScriptResult::Succeeded {
            String::from_str("✓ Done")
        } else if self.result == ScriptResult::Failed {
            String::from_str("Retry")
        } else if self.running {
            String::from_str("Installing…")
        } else {
            setup_button_label(task.title)
        };
        let press = if !self.running && self.result != ScriptResult::Succeeded {
            Some(Message::RunScript(page))
        } else {
            None
        };
        SetupButton { label, press }
    }
}

/// From any page but the last, moving forward and then back returns to the
/// page one started on, with an empty log and no result.
pub proof fn next_then_back_returns(m: WizardModel)
    requires
        model_inv(m),
        m.page < LAST_PAGE,
    ensures
        ({
            let (after, _) = spec_update(spec_update(m, Message::NextPage).0, Message::BackPage);
            &&& after.page == m.page
            &&& after.log == Seq::<char>::empty()
            &&& after.result == ScriptResult::Idle
            &&& after.running == m.running
        }),
{
}

/// From any page but the first, moving back and then forward returns to the page one started on.
pub proof fn back_then_next_returns(m: WizardModel)
    requires
        model_inv(m),
        m.page > 0,
    ensures
        spec_update(spec_update(m, Message::BackPage).0, Message::NextPage).0.page == m.page,
{
}

/// Whatever happens, the wizard's state keeps its invariant: the page is one
/// of the wizard's, the log length matches the log, a running script has no result.
pub proof fn invariant_is_kept(m: WizardModel, msg: Message, content: Seq<char>, success: bool)
    requires
        model_inv(m),
    ensures
        model_inv(spec_update(m, msg).0),
        model_inv(spec_log_read(m, content)),
        model_inv(spec_script_ended(m, success)),
{
    reveal_with_fuel(encode_utf8, 1);
}

/// While the log is shown, it is being polled.
pub proof fn shown_log_is_polled(m: WizardModel)
    ensures
        model_shows_log(m) ==> model_polls_output(m),
{
}

/// A request to run a script while one runs changes nothing.
pub proof fn run_while_running_is_ignored(m: WizardModel, page: usize)
    requires
        m.running,
    ensures
        spec_update(m, Message::RunScript(page)).0 == m,
        spec_update(m, Message::RunScript(page)).1 is Nothing,
{
}

/// Once the script of a page succeeded, its run button stays inactive until the
/// page is left; leaving the page makes it active again.
pub proof fn success_disables_run_until_page_left(m: WizardModel, content: Seq<char>)
    requires
        model_inv(m),
        m.result == ScriptResult::Succeeded,
    ensures
        !model_run_enabled(m),
        !model_run_enabled(spec_update(m, Message::PollOutput).0),
        !model_run_enabled(spec_log_read(m, content)),
        !model_run_enabled(spec_update(m, Message::RunScript(m.page as usize)).0),
        m.page < LAST_PAGE ==> model_run_enabled(spec_update(m, Message::NextPage).0),
        m.page > 0 ==> model_run_enabled(spec_update(m, Message::BackPage).0),
{
}

/// A run request on a setup page starts that page's script: page 1 the gaming
/// script, page 2 the virtualization script, page 3 the Ollama script, whatever
/// the rest of the state; it marks the script running with no result yet and
/// opens the log with the start note. The page itself does not change.
pub proof fn run_request_starts_the_page_script(m: WizardModel, page: usize)
    requires
        !m.running,
        1 <= page <= 3,
    ensures
        ({
            let (after, action) = spec_update(m, Message::RunScript(page));
            &&& page == 1 ==> action == Action::StartScript("setup-gaming")
            &&& page == 2 ==> action == Action::StartScript("setup-virtualization")
            &&& page == 3 ==> action == Action::StartScript("setup-ollama")
            &&& action == Action::StartScript(spec_setup_page(page - 1)->0.script)
            &&& after.running
            &&& after.result == ScriptResult::Idle
            &&& after.log == START_NOTE@
            &&& after.page == m.page
        }),
{
}

/// A poll that reads content of another length than the last one always shows
/// that content, whether or not a script still runs, and keeps everything else;
/// content of the same length leaves the state as it was.
pub proof fn new_log_content_is_shown(m: WizardModel, content: Seq<char>)
    ensures
        byte_len(content) != m.last_log_len ==> {
            let after = spec_log_read(m, content);
            &&& after.log == content
            &&& after.last_log_len == byte_len(content)
            &&& after.page == m.page
            &&& after.running == m.running
            &&& after.result == m.result
        },
        byte_len(content) == m.last_log_len ==> spec_log_read(m, content) == m,
{
}

/// On a setup page the log is shown while a script runs and after it ended,
/// whether it succeeded or failed; it is hidden only when no script ran since
/// the page was entered. Off the setup pages it is never shown.
pub proof fn log_shown_on_setup_page_after_any_run(m: WizardModel)
    ensures
        (1 <= m.page <= 3 && m.running) ==> model_shows_log(m),
        (1 <= m.page <= 3 && m.result == ScriptResult::Succeeded) ==> model_shows_log(m),
        (1 <= m.page <= 3 && m.result == ScriptResult::Failed) ==> model_shows_log(m),
        (!m.running && m.result == ScriptResult::Idle) ==> !model_shows_log(m),
        (m.page == 0 || m.page >= 4) ==> !model_shows_log(m),
{
}

/// A script that ended leaves its log on screen: after the end of a run on a
/// setup page, the log is still shown, and it is still polled.
pub proof fn ended_run_keeps_log_shown(m: WizardModel, success: bool)
    requires
        1 <= m.page <= 3,
        m.running,
    ensures
        model_shows_log(spec_script_ended(m, success)),
        model_polls_output(spec_script_ended(m, success)),
{
}

} // verus!
