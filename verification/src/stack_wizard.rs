//! The welcome window as a page stack with Back/Next buttons, where each setup
//! page has its own run button that follows the messages of its worker.
use vstd::prelude::*;
use vstd::string::*;
use crate::pages::{page_name, setup_button_label, spec_page_name, LAST_PAGE, TOTAL_PAGES};
use crate::setup_run::{SUCCESS_NOTE, FAILURE_NOTE};

verus! {

/// The first text of the log area when a setup run starts.
pub const STACK_START_NOTE: &'static str = "Starting setup, please wait...\n";

/// The page shown in the stack.
pub struct PageCursor {
    current: usize,
}

/// What pressing the forward button leads to.
#[derive(Clone, Copy, Debug, PartialEq, Eq, Structural)]
pub enum NextOutcome {
    /// On the last page: write the welcome-done marker and close the window.
    Finish,
    /// Hide the log and show this page.
    Show(usize),
}

pub open spec fn spec_next(current: int) -> (int, NextOutcome) {
    if current == LAST_PAGE {
        (current, NextOutcome::Finish)
    } else {
        (current + 1, NextOutcome::Show((current + 1) as usize))
    }
}

pub open spec fn spec_back(current: int) -> (int, Option<usize>) {
    if current > 0 {
        (current - 1, Some((current - 1) as usize))
    } else {
        (current, None)
    }
}

impl PageCursor {
    #[verifier::type_invariant]
    spec fn inv(self) -> bool {
        self.current < TOTAL_PAGES
    }

    pub closed spec fn page(self) -> int {
        self.current as int
    }

    /// The window opens on the welcome page.
    pub fn new() -> (r: PageCursor)
        ensures
            r.page() == 0,
    {
        PageCursor { current: 0 }
    }

    pub fn current(&self) -> (r: usize)
        ensures
            r == self.page(),
            r < TOTAL_PAGES,
    {
        proof {
            use_type_invariant(self);
        }
        self.current
    }

    /// The forward button: finishes on the last page, else shows the next one.
    pub fn next_clicked(&mut self) -> (r: NextOutcome)
        ensures
            (final(self).page(), r) == spec_next(old(self).page()),
            0 <= final(self).page() < TOTAL_PAGES,
    {
        proof {
            use_type_invariant(&*self);
        }
        if self.current == LAST_PAGE {
            NextOutcome::Finish
        } else {
            self.current = self.current + 1;
            NextOutcome::Show(self.current)
        }
    }

    /// The back button: shows the previous page, if there is one.
    pub fn back_clicked(&mut self) -> (r: Option<usize>)
        ensures
            (final(self).page(), r) == spec_back(old(self).page()),
            0 <= final(self).page() < TOTAL_PAGES,
    {
        proof {
            use_type_invariant(&*self);
        }
        if self.current > 0 {
            self.current = self.current - 1;
            Some(self.current)
        } else {
            None
        }
    }
}

/// The navigation bar and stack as they are for one page.
#[derive(Clone, Debug)]
pub struct NavView {
    /// One flag per page dot: accented (true) or dimmed.
    pub dots: Vec<bool>,
    pub back_visible: bool,
    pub next_label: &'static str,
    /// The stack child to show.
    pub page_name: &'static str,
}

/// How the navigation looks on page `index`.
pub fn nav_view(index: usize) -> (r: NavView)
    requires
        index < TOTAL_PAGES,
    ensures
        r.dots@.len() == TOTAL_PAGES,
        forall|i: int| 0 <= i < TOTAL_PAGES ==> #[trigger] r.dots@[i] == (i == index),
        r.back_visible == (index > 0),
        r.next_label == (if index == LAST_PAGE {
            "Finish"
        } else {
            "Next →"
        }),
        r.page_name == spec_page_name(index as int),
{
    let mut dots: Vec<bool> = Vec::new();
    let mut i: usize = 0;
    while i < TOTAL_PAGES
        invariant
            i <= TOTAL_PAGES,
            dots@.len() == i,
            forall|j: int| 0 <= j < i ==> #[trigger] dots@[j] == (j == index),
        decreases TOTAL_PAGES - i,
    {
        dots.push(i == index);
        i = i + 1;
    }
    NavView {
        dots,
        back_visible: index > 0,
        next_label: if index == LAST_PAGE {
            "Finish"
        } else {
            "Next →"
        },
        page_name: page_name(index),
    }
}

/// What the worker running a setup script reports.
#[derive(Clone, Debug)]
pub enum WorkerMsg {
    /// One line of output (or the error that kept the script from starting).
    Line(String),
    /// The script ended, successfully or not.
    Done(bool),
}

/// The run button of one setup page.
#[derive(Clone, Debug)]
pub struct RunButton {
    pub sensitive: bool,
    pub label: String,
}

/// What one worker message does to the log area.
#[derive(Clone, Debug)]
pub struct LogUpdate {
    /// Text to append at the end of the log (then scroll to the end).
    pub append: Option<String>,
    /// Whether this was the last message of the run.
    pub finished: bool,
}

pub open spec fn spec_line_append(line: Seq<char>) -> Option<Seq<char>> {
    if line.len() == 0 {
        None
    } else {
        Some(line + "\n"@)
    }
}

impl RunButton {
    /// A fresh run button reads "Set Up <title>".
    pub fn new(title: &str) -> (r: RunButton)
        ensures
            r.sensitive,
            r.label@ == "Set Up "@ + title@,
    {
        RunButton { sensitive: true, label: setup_button_label(title) }
    }

    /// Pressed: the button turns inactive and reads "Installing..."; returns the
    /// text that opens the (now shown) log area.
    pub fn clicked(&mut self) -> (intro: &'static str)
        ensures
            !final(self).sensitive,
            final(self).label@ == "Installing..."@,
            intro == STACK_START_NOTE,
    {
        self.sensitive = false;
        self.label = String::from_str("Installing...");
        STACK_START_NOTE
    }

    /// Follows one worker message: lines go to the log (empty ones are dropped);
    /// the end of the run sets the button to "✓ Done" (still inactive) or,
    /// after a failure, to an active "Retry".
    pub fn on_worker_msg(&mut self, msg: WorkerMsg) -> (r: LogUpdate)
        ensures
            match msg {
                WorkerMsg::Line(line) => {
                    &&& *final(self) == *old(self)
                    &&& !r.finished
                    &&& (r.append matches Some(t) ==> spec_line_append(line@) == Some(t@))
                    &&& (r.append is None ==> spec_line_append(line@) is None)
                },
                WorkerMsg::Done(success) => {
                    &&& r.finished
                    &&& (r.append matches Some(t) && t@ == (if success {
                        SUCCESS_NOTE@ + "\n"@
                    } else {
                        FAILURE_NOTE@ + "\n"@
                    }))
                    &&& final(self).sensitive == (if success {
                        old(self).sensitive
                    } else {
                        true
                    })
                    &&& final(self).label@ == (if success {
                        "✓ Done"@
                    } else {
                        "Retry"@
                    })
                },
            },
    {
        match msg {
            WorkerMsg::Line(line) => {
                if line.as_str().unicode_len() == 0 {
                    LogUpdate { append: None, finished: false }
                } else {
                    let mut text = line;
                    text.append("\n");
                    LogUpdate { append: Some(text), finished: false }
                }
            },
            WorkerMsg::Done(success) => {
                let mut text;
                if success {
                    self.label = String::from_str("✓ Done");
                    text = String::from_str(SUCCESS_NOTE);
                } else {
                    self.sensitive = true;
                    self.label = String::from_str("Retry");
                    text = String::from_str(FAILURE_NOTE);
                }
                text.append("\n");
                LogUpdate { append: Some(text), finished: true }
            },
        }
    }
}

/// The text of the log area shared by the setup pages.
pub struct LogArea {
    text: String,
}

impl View for LogArea {
    type V = Seq<char>;

    closed spec fn view(&self) -> Seq<char> {
        self.text@
    }
}

/// What an update adds to the log: its text, or nothing.
pub open spec fn appended_text(update: Option<Seq<char>>) -> Seq<char> {
    match update {
        Some(t) => t,
        None => Seq::empty(),
    }
}

impl LogArea {
    /// The log area starts empty.
    pub fn new() -> (r: LogArea)
        ensures
            r@ == Seq::<char>::empty(),
    {
        LogArea { text: String::new() }
    }

    pub fn text(&self) -> (r: &str)
        ensures
            r@ == self@,
    {
        self.text.as_str()
    }

    /// Adds `more` at the end; what was there stays as it was.
    pub fn append(&mut self, more: &str)
        ensures
            final(self)@ == old(self)@ + more@,
            old(self)@.is_prefix_of(final(self)@),
    {
        self.text.append(more);
        proof {
            assert(old(self)@ =~= final(self)@.subrange(0, old(self)@.len() as int));
        }
    }

    /// Carries out what a worker message asked of the log: appends its text, if any.
    pub fn follow(&mut self, update: &LogUpdate)
        ensures
            final(self)@ == old(self)@ + appended_text(
                match update.append {
                    Some(t) => Some(t@),
                    None => None,
                },
            ),
            old(self)@.is_prefix_of(final(self)@),
    {
        match &update.append {
            Some(t) => self.append(t.as_str()),
            None => {
                proof {
                    assert(old(self)@ =~= old(self)@ + Seq::<char>::empty());
                    assert(old(self)@ =~= final(self)@.subrange(0, old(self)@.len() as int));
                }
            },
        }
    }
}

/// The log text after `chunks` were appended to `text`, one per event.
pub open spec fn log_after(text: Seq<char>, chunks: Seq<Seq<char>>) -> Seq<char>
    decreases chunks.len(),
{
    if chunks.len() == 0 {
        text
    } else {
        log_after(text, chunks.drop_last()) + chunks.last()
    }
}

proof fn lemma_log_after_extends(text: Seq<char>, chunks: Seq<Seq<char>>, i: int)
    requires
        0 <= i <= chunks.len(),
    ensures
        log_after(text, chunks.take(i)).is_prefix_of(log_after(text, chunks)),
    decreases chunks.len(),
{
    if i == chunks.len() {
        assert(chunks.take(i) =~= chunks);
        assert(log_after(text, chunks) =~= log_after(text, chunks).subrange(
            0,
            log_after(text, chunks).len() as int,
        ));
    } else {
        let rest = chunks.drop_last();
        assert(rest.take(i) =~= chunks.take(i));
        lemma_log_after_extends(text, rest, i);
        let a = log_after(text, chunks.take(i));
        let b = log_after(text, rest);
        assert(log_after(text, chunks) == b + chunks.last());
        assert(a =~= (b + chunks.last()).subrange(0, a.len() as int));
    }
}

/// The log only grows: over any run of events, the text before an event is a
/// prefix of the text after it, and of the text after every later event.
pub proof fn log_only_grows(text: Seq<char>, chunks: Seq<Seq<char>>, i: int, j: int)
    requires
        0 <= i <= j <= chunks.len(),
    ensures
        log_after(text, chunks.take(i)).is_prefix_of(log_after(text, chunks.take(j))),
        text.is_prefix_of(log_after(text, chunks)),
{
    assert(chunks.take(j).take(i) =~= chunks.take(i));
    lemma_log_after_extends(text, chunks.take(j), i);
    lemma_log_after_extends(text, chunks, 0);
    assert(chunks.take(0) =~= Seq::<Seq<char>>::empty());
}

/// From any page but the last, Next then Back returns to the page one started on.
pub proof fn next_then_back_returns(current: int)
    requires
        0 <= current < LAST_PAGE,
    ensures
        spec_back(spec_next(current).0).0 == current,
{
}

/// From any page but the first, Back then Next returns to the page one started on.
pub proof fn back_then_next_returns(current: int)
    requires
        0 < current < TOTAL_PAGES,
    ensures
        spec_next(spec_back(current).0).0 == current,
{
}

/// Next finishes exactly on the last page, and never leaves the range of pages.
pub proof fn only_the_last_page_finishes(current: int)
    requires
        0 <= current < TOTAL_PAGES,
    ensures
        (spec_next(current).1 is Finish) <==> current == LAST_PAGE,
        0 <= spec_next(current).0 < TOTAL_PAGES,
        0 <= spec_back(current).0 < TOTAL_PAGES,
{
}

} // verus!
