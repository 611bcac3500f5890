//! The tab lifecycle of the shared browser session.
//!
//! One request walks the session through
//! `Idle -> OpeningTab -> FocusingTab -> Navigating -> SoftWaiting -> Settling
//! -> Extracting -> ClosingTab -> ListingWindows -> RestoringFocus -> Idle`.
//! The lifecycle never talks to the browser itself: each step hands out the
//! next [`Command`] and the driver loop answers with the browser's [`Reply`].
//! The moment the `Extract` command is handed out is the `Ready` point of the
//! lifecycle: navigation and the settle delay are behind it.
//!
//! Reporting policy: a failure to open the tab ends the request at once, as
//! no tab exists yet. Any later failure is followed by cleanup before it is
//! reported. When cleanup itself fails, the caller is told of the cleanup
//! failure, even if the extraction had succeeded; a setup failure keeps its
//! own report. An empty window list during cleanup means the home window is
//! gone, which is reported as a lost session in every case.
use vstd::prelude::*;

verus! {

/// The four read-only operations run on a ready tab.
#[derive(Clone, Copy, Debug, PartialEq, Eq, Structural)]
pub enum Extraction {
    Html,
    Text,
    Screenshot,
    Images,
}

/// Where a lifecycle stands: each stage waits for the reply to one command.
#[derive(Clone, Copy, Debug, PartialEq, Eq, Structural)]
pub enum Stage {
    /// No request in flight; the home window is the only window.
    Idle,
    /// Waiting for a new tab.
    OpeningTab,
    /// Waiting for focus to move to the new tab.
    FocusingTab,
    /// Waiting for the target page to load.
    Navigating,
    /// Waiting for the advisory image probe; its outcome is discarded.
    SoftWaiting,
    /// Waiting out the caller's settle delay.
    Settling,
    /// Waiting for the extraction on the ready tab.
    Extracting,
    /// Waiting for the request's tab to close.
    ClosingTab,
    /// Waiting for the list of remaining windows.
    ListingWindows,
    /// Waiting for focus to return to the home window.
    RestoringFocus,
}

/// How a request ends when it does not end well.
#[derive(Clone, Copy, Debug, PartialEq, Eq, Structural)]
pub enum BrowserError {
    /// Opening, focusing or navigating the tab failed.
    Setup,
    /// The page content could not be read on a ready tab.
    Extraction(Extraction),
    /// Closing the tab or returning to the home window failed.
    Cleanup,
    /// The home window is gone: the session itself is broken and the
    /// process should be restarted rather than retried in place.
    SessionLost,
}

/// What the browser answered to the last command.
#[derive(Debug)]
pub enum Reply {
    /// The command succeeded and has nothing to report.
    Done,
    /// A new tab was opened; this is its window handle.
    Opened(String),
    /// The handles of the windows that are open, in the browser's order.
    Windows(Vec<String>),
    /// The command failed; the details are for the logs only.
    Failed,
}

/// What the driver loop must do next.
#[derive(Debug)]
pub enum Command {
    OpenTab,
    SwitchTo(String),
    Navigate(String),
    /// Look for an image element; any outcome is acceptable.
    ProbeImage,
    /// Sleep for this many milliseconds.
    Wait(u64),
    Extract(Extraction),
    /// Close the window that has focus.
    CloseTab,
    ListWindows,
    /// The request is over: report this to the caller.
    Finish(Result<(), BrowserError>),
}

/// The lifecycle of the session's tabs, one request at a time.
#[derive(Debug)]
pub struct TabLifecycle {
    pub stage: Stage,
    /// The URL the request's tab navigates to.
    pub target: String,
    /// The settle delay in milliseconds.
    pub delay_ms: u64,
    pub operation: Extraction,
    /// The failure to report once cleanup is over, if any.
    pub pending: Option<BrowserError>,
}

/// The caller's result for a failure recorded before cleanup (`None`: none).
pub open spec fn verdict(pending: Option<BrowserError>) -> Result<(), BrowserError> {
    match pending {
        Some(e) => Err(e),
        None => Ok(()),
    }
}

/// The error reported when cleanup itself fails: a setup failure keeps its
/// own report, anything else becomes a cleanup failure.
pub open spec fn cleanup_failure(pending: Option<BrowserError>) -> BrowserError {
    if pending == Some(BrowserError::Setup) {
        BrowserError::Setup
    } else {
        BrowserError::Cleanup
    }
}

/// Ends the request with `e` and returns to `Idle`.
pub open spec fn finish_with(lc: TabLifecycle, e: BrowserError) -> (TabLifecycle, Command) {
    (TabLifecycle { stage: Stage::Idle, pending: Some(e), ..lc }, Command::Finish(Err(e)))
}

/// Moves to stage `s` and hands out command `c`.
pub open spec fn go(lc: TabLifecycle, s: Stage, c: Command) -> (TabLifecycle, Command) {
    (TabLifecycle { stage: s, ..lc }, c)
}

/// Starts cleanup after a failure `e` on a tab that may exist.
pub open spec fn clean_up_after(lc: TabLifecycle, e: Option<BrowserError>) -> (TabLifecycle, Command) {
    (TabLifecycle { stage: Stage::ClosingTab, pending: e, ..lc }, Command::CloseTab)
}

/// The transition function: the next lifecycle and command, given the reply
/// to the command of the current stage.
pub open spec fn next(lc: TabLifecycle, reply: Reply) -> (TabLifecycle, Command) {
    match lc.stage {
        Stage::Idle => (lc, Command::Finish(verdict(lc.pending))),
        Stage::OpeningTab => match reply {
            Reply::Opened(h) => go(lc, Stage::FocusingTab, Command::SwitchTo(h)),
            _ => finish_with(lc, BrowserError::Setup),
        },
        Stage::FocusingTab => if reply is Done {
            go(lc, Stage::Navigating, Command::Navigate(lc.target))
        } else {
            clean_up_after(lc, Some(BrowserError::Setup))
        },
        Stage::Navigating => if reply is Done {
            go(lc, Stage::SoftWaiting, Command::ProbeImage)
        } else {
            clean_up_after(lc, Some(BrowserError::Setup))
        },
        Stage::SoftWaiting => go(lc, Stage::Settling, Command::Wait(lc.delay_ms)),
        Stage::Settling => go(lc, Stage::Extracting, Command::Extract(lc.operation)),
        Stage::Extracting => if reply is Done {
            clean_up_after(lc, None)
        } else {
            clean_up_after(lc, Some(BrowserError::Extraction(lc.operation)))
        },
        Stage::ClosingTab => if reply is Done {
            go(lc, Stage::ListingWindows, Command::ListWindows)
        } else {
            finish_with(lc, cleanup_failure(lc.pending))
        },
        Stage::ListingWindows => match reply {
            Reply::Windows(v) => if v.len() > 0 {
                go(lc, Stage::RestoringFocus, Command::SwitchTo(v[0]))
            } else {
                finish_with(lc, BrowserError::SessionLost)
            },
            _ => finish_with(lc, cleanup_failure(lc.pending)),
        },
        Stage::RestoringFocus => if reply is Done {
            (TabLifecycle { stage: Stage::Idle, ..lc }, Command::Finish(verdict(lc.pending)))
        } else {
            finish_with(lc, cleanup_failure(lc.pending))
        },
    }
}

/// The lifecycle right after a request for `target` was accepted.
pub open spec fn started(target: String, delay_ms: u64, operation: Extraction) -> TabLifecycle {
    TabLifecycle { stage: Stage::OpeningTab, target, delay_ms, operation, pending: None }
}

/// The number of tabs of the current request that are open in stage `s`.
pub open spec fn own_tabs(s: Stage) -> int {
    match s {
        Stage::FocusingTab | Stage::Navigating | Stage::SoftWaiting | Stage::Settling
        | Stage::Extracting | Stage::ClosingTab => 1,
        _ => 0,
    }
}

/// Whether `reply`, given in the lifecycle `lc`, reports a new tab.
pub open spec fn opens_tab(lc: TabLifecycle, reply: Reply) -> bool {
    lc.stage == Stage::OpeningTab && reply is Opened
}

/// Whether `reply`, given in the lifecycle `lc`, reports a closed tab.
pub open spec fn closes_tab(lc: TabLifecycle, reply: Reply) -> bool {
    lc.stage == Stage::ClosingTab && reply is Done
}

/// Answers the lifecycle's commands with `replies`, one by one, until it is
/// back at rest or the replies run out. The result is the lifecycle reached
/// and the numbers of tabs opened and closed on the way.
pub open spec fn run(lc: TabLifecycle, replies: Seq<Reply>) -> (TabLifecycle, nat, nat)
    decreases replies.len(),
{
    if lc.stage == Stage::Idle || replies.len() == 0 {
        (lc, 0, 0)
    } else {
        let rest = run(next(lc, replies[0]).0, replies.drop_first());
        (
            rest.0,
            rest.1 + if opens_tab(lc, replies[0]) { 1nat } else { 0nat },
            rest.2 + if closes_tab(lc, replies[0]) { 1nat } else { 0nat },
        )
    }
}

/// Every close command that the run hands out is answered with success.
pub open spec fn closes_succeed(lc: TabLifecycle, replies: Seq<Reply>) -> bool
    decreases replies.len(),
{
    if lc.stage == Stage::Idle || replies.len() == 0 {
        true
    } else {
        (lc.stage == Stage::ClosingTab ==> replies[0] is Done) && closes_succeed(
            next(lc, replies[0]).0,
            replies.drop_first(),
        )
    }
}

/// A request that ran to its end.
pub open spec fn completed(lc: TabLifecycle, replies: Seq<Reply>) -> bool {
    run(lc, replies).0.stage == Stage::Idle
}

proof fn lemma_step_tabs(lc: TabLifecycle, reply: Reply)
    requires
        lc.stage != Stage::Idle,
        lc.stage == Stage::ClosingTab ==> reply is Done,
    ensures
        own_tabs(next(lc, reply).0.stage) + (if closes_tab(lc, reply) { 1int } else { 0int })
            == own_tabs(lc.stage) + (if opens_tab(lc, reply) { 1int } else { 0int }),
{
}

proof fn lemma_run_tabs(lc: TabLifecycle, replies: Seq<Reply>)
    requires
        closes_succeed(lc, replies),
    ensures
        own_tabs(run(lc, replies).0.stage) + run(lc, replies).2 == own_tabs(lc.stage) + run(
            lc,
            replies,
        ).1,
    decreases replies.len(),
{
    if lc.stage != Stage::Idle && replies.len() > 0 {
        lemma_step_tabs(lc, replies[0]);
        lemma_run_tabs(next(lc, replies[0]).0, replies.drop_first());
    }
}

/// A request that runs to its end closes every tab it opened, as long as the
/// browser closes the tabs it is asked to close: the session is left with as
/// many windows as it had before the request, whether the request succeeded
/// or failed.
pub proof fn lemma_request_closes_its_tabs(target: String, delay_ms: u64, operation: Extraction, replies: Seq<Reply>)
    requires
        closes_succeed(started(target, delay_ms, operation), replies),
        completed(started(target, delay_ms, operation), replies),
    ensures
        run(started(target, delay_ms, operation), replies).1 == run(
            started(target, delay_ms, operation),
            replies,
        ).2,
        run(started(target, delay_ms, operation), replies).1 <= 1,
{
    lemma_run_tabs(started(target, delay_ms, operation), replies);
    lemma_run_opens_at_most_once(started(target, delay_ms, operation), replies);
}

proof fn lemma_run_opens_at_most_once(lc: TabLifecycle, replies: Seq<Reply>)
    ensures
        run(lc, replies).1 <= (if lc.stage == Stage::OpeningTab { 1nat } else { 0nat }),
    decreases replies.len(),
{
    if lc.stage != Stage::Idle && replies.len() > 0 {
        lemma_run_opens_at_most_once(next(lc, replies[0]).0, replies.drop_first());
    }
}

/// The session's window count after serving `requests` in order, one at a
/// time, from `start` windows; each request is a just-accepted lifecycle and
/// the browser's replies to it.
pub open spec fn window_count(start: int, requests: Seq<(TabLifecycle, Seq<Reply>)>) -> int
    decreases requests.len(),
{
    if requests.len() == 0 {
        start
    } else {
        let last = requests.last();
        window_count(start, requests.drop_last()) + run(last.0, last.1).1 - run(last.0, last.1).2
    }
}

/// However many requests are served one after another, each that runs to
/// its end with its tabs closed by the browser leaves the session with
/// exactly its home window.
pub proof fn lemma_requests_keep_one_window(requests: Seq<(TabLifecycle, Seq<Reply>)>)
    requires
        forall|i: int|
            0 <= i < requests.len() ==> (#[trigger] requests[i]).0.stage == Stage::OpeningTab
                && closes_succeed(requests[i].0, requests[i].1) && completed(
                requests[i].0,
                requests[i].1,
            ),
    ensures
        forall|k: int| 0 <= k <= requests.len() ==> window_count(1, #[trigger] requests.take(k)) == 1,
    decreases requests.len(),
{
    if requests.len() > 0 {
        let front = requests.drop_last();
        assert forall|i: int| 0 <= i < front.len() implies (#[trigger] front[i]).0.stage
            == Stage::OpeningTab && closes_succeed(front[i].0, front[i].1) && completed(
            front[i].0,
            front[i].1,
        ) by {
            assert(front[i] == requests[i]);
        }
        lemma_requests_keep_one_window(front);
        let last = requests.last();
        assert(last == requests[requests.len() - 1]);
        lemma_run_tabs(last.0, last.1);
        assert forall|k: int| 0 <= k <= requests.len() implies window_count(
            1,
            #[trigger] requests.take(k),
        ) == 1 by {
            if k < requests.len() {
                assert(requests.take(k) == front.take(k));
            } else {
                assert(requests.take(k) == requests);
                assert(front.take(front.len() as int) == front);
            }
        }
    } else {
        assert forall|k: int| 0 <= k <= requests.len() implies window_count(
            1,
            #[trigger] requests.take(k),
        ) == 1 by {
            assert(requests.take(k).len() == 0);
        }
    }
}

proof fn lemma_run_from_cleanup(lc: TabLifecycle, replies: Seq<Reply>)
    requires
        (lc.stage == Stage::ClosingTab || lc.stage == Stage::ListingWindows || lc.stage
            == Stage::RestoringFocus) && lc.pending == Some(BrowserError::Setup) || lc.stage
            == Stage::Idle && (lc.pending == Some(BrowserError::Setup) || lc.pending == Some(
            BrowserError::SessionLost,
        )),
        completed(lc, replies),
    ensures
        run(lc, replies).0.pending == Some(BrowserError::Setup) || run(lc, replies).0.pending
            == Some(BrowserError::SessionLost),
    decreases replies.len(),
{
    if lc.stage != Stage::Idle && replies.len() > 0 {
        lemma_run_from_cleanup(next(lc, replies[0]).0, replies.drop_first());
    }
}

/// When focusing or navigating the new tab fails, the next command closes
/// the tab, and once cleanup is over the caller is told of the setup failure
/// (or of a lost session), with no tab of the request left open.
pub proof fn lemma_setup_failure_cleans_up(lc: TabLifecycle, reply: Reply, replies: Seq<Reply>)
    requires
        lc.stage == Stage::FocusingTab || lc.stage == Stage::Navigating,
        !(reply is Done),
        completed(next(lc, reply).0, replies),
        closes_succeed(next(lc, reply).0, replies),
    ensures
        next(lc, reply).1 is CloseTab,
        run(next(lc, reply).0, replies).2 == 1,
        run(next(lc, reply).0, replies).1 == 0,
        verdict(run(next(lc, reply).0, replies).0.pending) == Err::<(), BrowserError>(
            BrowserError::Setup,
        ) || verdict(run(next(lc, reply).0, replies).0.pending) == Err::<(), BrowserError>(
            BrowserError::SessionLost,
        ),
{
    let lc2 = next(lc, reply).0;
    lemma_run_tabs(lc2, replies);
    lemma_run_opens_at_most_once(lc2, replies);
    lemma_run_from_cleanup(lc2, replies);
}

/// The extraction is handed out only right after the settle delay, and the
/// settle delay only right after the advisory probe, which follows a
/// successful navigation: extraction never starts before the caller's delay
/// has been waited out on the loaded page.
pub proof fn lemma_extraction_follows_settle_delay(lc: TabLifecycle, reply: Reply)
    ensures
        next(lc, reply).1 is Extract ==> lc.stage == Stage::Settling,
        next(lc, reply).0.stage == Stage::Settling ==> lc.stage == Stage::SoftWaiting && next(
            lc,
            reply,
        ).1 == Command::Wait(lc.delay_ms),
        next(lc, reply).0.stage == Stage::SoftWaiting ==> lc.stage == Stage::Navigating
            && reply is Done,
{
}

impl TabLifecycle {
    /// A lifecycle at rest.
    pub fn new() -> (r: TabLifecycle)
        ensures
            r.stage == Stage::Idle,
            r.pending is None,
    {
        TabLifecycle {
            stage: Stage::Idle,
            target: String::new(),
            delay_ms: 0,
            operation: Extraction::Html,
            pending: None,
        }
    }

    pub fn is_idle(&self) -> (r: bool)
        ensures
            r == (self.stage == Stage::Idle),
    {
        self.stage == Stage::Idle
    }

    /// Accepts a request when no other one is in flight, and hands out its
    /// first command. A lifecycle that is not at rest refuses the request and
    /// stays as it was.
    pub fn begin(&mut self, target: String, delay_ms: u64, operation: Extraction) -> (r: Option<Command>)
        ensures
            old(self).stage == Stage::Idle ==> *final(self) == started(target, delay_ms, operation)
                && r == Some(Command::OpenTab),
            old(self).stage != Stage::Idle ==> *final(self) == *old(self) && r is None,
    {
        if self.stage == Stage::Idle {
            self.stage = Stage::OpeningTab;
            self.target = target;
            self.delay_ms = delay_ms;
            self.operation = operation;
            self.pending = None;
            Some(Command::OpenTab)
        } else {
            None
        }
    }

    /// Takes the browser's reply to the last command and hands out the next
    /// one. `Finish` is handed out exactly when the lifecycle is back at rest.
    pub fn advance(&mut self, reply: Reply) -> (r: Command)
        ensures
            (*final(self), r) == next(*old(self), reply),
            (r is Finish) == (final(self).stage == Stage::Idle),
            r is Finish ==> r == Command::Finish(verdict(final(self).pending)),
    {
        match self.stage {
            Stage::Idle => Command::Finish(self.verdict()),
            Stage::OpeningTab => match reply {
                Reply::Opened(h) => {
                    self.stage = Stage::FocusingTab;
                    Command::SwitchTo(h)
                },
                _ => self.finish_with(BrowserError::Setup),
            },
            Stage::FocusingTab => if matches!(reply, Reply::Done) {
                self.stage = Stage::Navigating;
                Command::Navigate(self.target.clone())
            } else {
                self.clean_up_after(Some(BrowserError::Setup))
            },
            Stage::Navigating => if matches!(reply, Reply::Done) {
                self.stage = Stage::SoftWaiting;
                Command::ProbeImage
            } else {
                self.clean_up_after(Some(BrowserError::Setup))
            },
            Stage::SoftWaiting => {
                self.stage = Stage::Settling;
                Command::Wait(self.delay_ms)
            },
            Stage::Settling => {
                self.stage = Stage::Extracting;
                Command::Extract(self.operation)
            },
            Stage::Extracting => if matches!(reply, Reply::Done) {
                self.clean_up_after(None)
            } else {
                let op = self.operation;
                self.clean_up_after(Some(BrowserError::Extraction(op)))
            },
            Stage::ClosingTab => if matches!(reply, Reply::Done) {
                self.stage = Stage::ListingWindows;
                Command::ListWindows
            } else {
                let e = self.cleanup_failure();
                self.finish_with(e)
            },
            Stage::ListingWindows => match reply {
                Reply::Windows(v) => if v.len() > 0 {
                    self.stage = Stage::RestoringFocus;
                    Command::SwitchTo(v[0].clone())
                } else {
                    self.finish_with(BrowserError::SessionLost)
                },
                _ => {
                    let e = self.cleanup_failure();
                    self.finish_with(e)
                },
            },
            Stage::RestoringFocus => if matches!(reply, Reply::Done) {
                self.stage = Stage::Idle;
                Command::Finish(self.verdict())
            } else {
                let e = self.cleanup_failure();
                self.finish_with(e)
            },
        }
    }

    fn verdict(&self) -> (r: Result<(), BrowserError>)
        ensures
            r == verdict(self.pending),
    {
        match self.pending {
            Some(e) => Err(e),
            None => Ok(()),
        }
    }

    fn cleanup_failure(&self) -> (r: BrowserError)
        ensures
            r == cleanup_failure(self.pending),
    {
        match self.pending {
            Some(BrowserError::Setup) => BrowserError::Setup,
            _ => BrowserError::Cleanup,
        }
    }

    fn finish_with(&mut self, e: BrowserError) -> (r: Command)
        ensures
            (*final(self), r) == finish_with(*old(self), e),
    {
        self.stage = Stage::Idle;
        self.pending = Some(e);
        Command::Finish(Err(e))
    }

    fn clean_up_after(&mut self, e: Option<BrowserError>) -> (r: Command)
        ensures
            (*final(self), r) == clean_up_after(*old(self), e),
    {
        self.stage = Stage::ClosingTab;
        self.pending = e;
        Command::CloseTab
    }
}

} // verus!
