//! The application state machine: keyboard navigation between the panels,
//! selection and scrolling, and the handling of poll messages.

use vstd::prelude::*;
use crate::api::traits::LogEntry;
use crate::config::{
    first_log_source, is_known_source_type, known_source_type, lemma_first_log_source_bound, Config,
};
use crate::models::Pipeline;
use crate::services::poller::PollUpdate;
use crate::state::app_state::{
    display_sorted, error_recorded, merge_spec, rate_limit_recorded, statuses_view, updates_view,
    upsert_view, AppState, SourceStatus, SourceStatusView,
};
use crate::instant::is_instant;

verus! {

#[verifier::external_type_specification]
#[verifier::external_body]
pub struct ExInstant(std::time::Instant);

/// The current monotonic time.  Calls `std::time::Instant::now`; nothing is
/// stated of the value.
#[verifier::external_body]
fn instant_now() -> std::time::Instant {
    std::time::Instant::now()
}

/// The time elapsed since `i`.  Calls `Instant::elapsed`; the value
/// depends on the clock and is not stated.
#[verifier::external_body]
fn elapsed_since(i: &std::time::Instant) -> std::time::Duration {
    i.elapsed()
}

/// The whole nanoseconds of a duration.  Calls `Duration::as_nanos`; the
/// duration's contents are hidden from the proofs, so nothing is stated.
#[verifier::external_body]
fn duration_nanos(d: &std::time::Duration) -> u128 {
    d.as_nanos()
}

/// How long a status message is shown: two seconds, in nanoseconds.
pub const STATUS_NANOS: u128 = 2_000_000_000;

/// Which panel currently owns keyboard input.
#[derive(Debug, Clone, Copy, PartialEq, Eq, Structural)]
pub enum Focus {
    /// The pipeline list on the left
    PipelineList,
    /// The stage details on the right
    Details,
    /// The log viewer (shown when 'l' is pressed)
    Logs,
    /// The error history panel (toggled with 'e')
    Errors,
}

/// A key press, as far as the application tells keys apart.
#[derive(Debug, Clone, Copy, PartialEq, Eq, Structural)]
pub enum Key {
    Char(char),
    Esc,
    Up,
    Down,
    Enter,
    Left,
    PageUp,
    PageDown,
    Home,
    End,
    Other,
}

/// Main application state.
pub struct App {
    /// Static configuration loaded at startup
    pub config: Config,
    /// Live pipeline + error state, updated by poll messages
    pub state: AppState,
    /// Index of the currently highlighted pipeline in the sorted list
    pub selected_pipeline: usize,
    /// Which UI panel currently has keyboard focus
    pub focus: Focus,
    /// Logs for the currently selected pipeline/stage; `None` means not yet
    /// fetched.
    pub logs: Option<Vec<LogEntry>>,
    /// Which stage of the selected pipeline is selected for its logs
    pub log_stage_index: Option<usize>,
    /// Vertical scroll offset inside the log viewer
    pub log_scroll: usize,
    /// Whether the error panel is visible
    pub show_errors: bool,
    /// Refresh interval in seconds (copied from config for quick access)
    pub refresh_interval: u64,
    /// Set to true when the user presses 'q'
    pub should_quit: bool,
    /// Set to true when the user presses 'r'
    pub force_refresh: bool,
    /// Status message shown briefly in the footer
    pub status_message: Option<(String, std::time::Instant)>,
}

/// The navigation fields of the application.
pub struct Nav {
    pub selected: usize,
    pub focus: Focus,
    pub log_stage_index: Option<usize>,
    pub log_scroll: usize,
    pub show_errors: bool,
    pub should_quit: bool,
    pub force_refresh: bool,
}

/// `n - 1`, or 0 for 0.
pub open spec fn sat_dec(n: int) -> int {
    if n > 0 {
        n - 1
    } else {
        0
    }
}

/// The selection after moving up a list of `count` entries (wrapping).
pub open spec fn prev_index(sel: usize, count: nat) -> usize {
    if count == 0 {
        sel
    } else if sel > 0 {
        (sel - 1) as usize
    } else {
        (count - 1) as usize
    }
}

/// The selection after moving down a list of `count` entries (wrapping).
pub open spec fn next_index(sel: usize, count: nat) -> usize {
    if count == 0 {
        sel
    } else if sel + 1 < count {
        (sel + 1) as usize
    } else {
        0
    }
}

/// The selection clamped to a list of `count` entries.
pub open spec fn clamp_index(sel: usize, count: nat) -> usize {
    if count == 0 {
        0
    } else if sel >= count {
        (count - 1) as usize
    } else {
        sel
    }
}

pub open spec fn is_up(k: Key) -> bool {
    k == Key::Up || k == Key::Char('k')
}

pub open spec fn is_down(k: Key) -> bool {
    k == Key::Down || k == Key::Char('j')
}

/// What a key press does to the navigation state, with `count` pipelines,
/// `stages` stages in the selected pipeline (`None` when nothing is
/// selected) and `log_len` log lines loaded.  The flag tells whether the
/// loaded logs and the selected stage are discarded.
pub open spec fn key_step(n: Nav, k: Key, count: nat, stages: Option<nat>, log_len: nat) -> (Nav, bool) {
    if k == Key::Char('q') || k == Key::Esc {
        if k == Key::Esc && n.focus == Focus::Logs {
            (Nav { focus: Focus::Details, log_stage_index: None, ..n }, true)
        } else if k == Key::Esc && n.focus == Focus::Errors {
            (Nav { show_errors: false, focus: Focus::PipelineList, ..n }, false)
        } else if k == Key::Char('q') {
            (Nav { should_quit: true, ..n }, false)
        } else {
            (n, false)
        }
    } else if k == Key::Char('r') {
        (Nav { force_refresh: true, ..n }, false)
    } else if k == Key::Char('e') {
        (
            Nav {
                show_errors: !n.show_errors,
                focus: if !n.show_errors {
                    Focus::Errors
                } else {
                    Focus::PipelineList
                },
                ..n
            },
            false,
        )
    } else {
        match n.focus {
            Focus::PipelineList => if is_up(k) {
                if count == 0 {
                    (n, false)
                } else {
                    (Nav { selected: prev_index(n.selected, count), log_stage_index: None, ..n }, true)
                }
            } else if is_down(k) {
                if count == 0 {
                    (n, false)
                } else {
                    (Nav { selected: next_index(n.selected, count), log_stage_index: None, ..n }, true)
                }
            } else if k == Key::Enter {
                (Nav { focus: Focus::Details, log_stage_index: None, ..n }, true)
            } else {
                (n, false)
            },
            Focus::Details => if is_up(k) {
                match n.log_stage_index {
                    Some(i) => if i > 0 {
                        (Nav { log_stage_index: Some((i - 1) as usize), ..n }, false)
                    } else {
                        (n, false)
                    },
                    None => (n, false),
                }
            } else if is_down(k) {
                match stages {
                    Some(c) => {
                        let idx = match n.log_stage_index {
                            Some(i) => i,
                            None => 0,
                        };
                        if idx < sat_dec(c as int) {
                            (Nav { log_stage_index: Some((idx + 1) as usize), ..n }, false)
                        } else {
                            (n, false)
                        }
                    },
                    None => (n, false),
                }
            } else if k == Key::Char('l') {
                (Nav { focus: Focus::Logs, log_scroll: 0, ..n }, false)
            } else if k == Key::Left || k == Key::Char('h') {
                (Nav { focus: Focus::PipelineList, ..n }, false)
            } else {
                (n, false)
            },
            Focus::Logs => if is_up(k) {
                (Nav { log_scroll: sat_dec(n.log_scroll as int) as usize, ..n }, false)
            } else if is_down(k) {
                if n.log_scroll < sat_dec(log_len as int) {
                    (Nav { log_scroll: (n.log_scroll + 1) as usize, ..n }, false)
                } else {
                    (n, false)
                }
            } else if k == Key::PageUp {
                (
                    Nav {
                        log_scroll: if n.log_scroll >= 20 {
                            (n.log_scroll - 20) as usize
                        } else {
                            0
                        },
                        ..n
                    },
                    false,
                )
            } else if k == Key::PageDown {
                (
                    Nav {
                        log_scroll: if n.log_scroll + 20 < sat_dec(log_len as int) {
                            (n.log_scroll + 20) as usize
                        } else {
                            sat_dec(log_len as int) as usize
                        },
                        ..n
                    },
                    false,
                )
            } else if k == Key::Home {
                (Nav { log_scroll: 0, ..n }, false)
            } else if k == Key::End {
                (Nav { log_scroll: sat_dec(log_len as int) as usize, ..n }, false)
            } else {
                (n, false)
            },
            Focus::Errors => (n, false),
        }
    }
}

/// A key press keeps the pipeline selection inside a list it was inside.
pub proof fn lemma_selection_in_range(n: Nav, k: Key, count: nat, stages: Option<nat>, log_len: nat)
    requires
        n.selected < count,
    ensures
        key_step(n, k, count, stages, log_len).0.selected < count,
{
}

/// In the pipeline list, moving down and then up selects the pipeline
/// selected before, and so does moving up and then down.
pub proof fn lemma_down_up_returns(n: Nav, count: nat, s1: Option<nat>, s2: Option<nat>, log_len: nat)
    requires
        n.focus == Focus::PipelineList,
        n.selected < count <= usize::MAX,
    ensures
        key_step(key_step(n, Key::Down, count, s1, log_len).0, Key::Up, count, s2, log_len).0.selected
            == n.selected,
        key_step(key_step(n, Key::Up, count, s1, log_len).0, Key::Down, count, s2, log_len).0.selected
            == n.selected,
{
}

/// A key press keeps the log scroll position on a loaded line (or at the
/// top of an empty log).
pub proof fn lemma_log_scroll_in_range(n: Nav, k: Key, count: nat, stages: Option<nat>, log_len: nat)
    requires
        n.log_scroll <= sat_dec(log_len as int),
    ensures
        key_step(n, k, count, stages, log_len).0.log_scroll <= sat_dec(log_len as int),
{
}

/// Whether the selected stage, if any, is one of the selected pipeline's
/// `stages` stages.
pub open spec fn stage_in_range(n: Nav, stages: Option<nat>) -> bool {
    match n.log_stage_index {
        Some(i) => stages matches Some(c) && i < c,
        None => true,
    }
}

/// A key press keeps the stage selection on a stage of the pipeline.
pub proof fn lemma_stage_in_range(n: Nav, k: Key, count: nat, stages: Option<nat>, log_len: nat)
    requires
        stage_in_range(n, stages),
    ensures
        stage_in_range(key_step(n, k, count, stages, log_len).0, stages),
{
}

/// A log fetch the main loop is to start: which configured source to ask,
/// and for which pipeline and stage.
#[derive(Debug)]
pub struct LogFetch {
    /// Index of the source in the configuration's `sources`
    pub source: usize,
    pub pipeline_id: String,
    pub stage_id: String,
}

// ---------------------------------------------------------------------------
// One step of the main loop
// ---------------------------------------------------------------------------

/// What handling poll message `update` makes of the application: the store
/// takes the message in, the selection is clamped after new pipelines, and
/// nothing of the navigation changes.
pub open spec fn poll_step(b: App, update: PollUpdate, a: App) -> bool {
    &&& a.state.wf()
    &&& match update {
        PollUpdate::PipelinesUpdated(source, p) => {
            &&& a.state.tagged() == merge_spec(b.state.tagged(), source@, p@)
            &&& a.selected_pipeline == clamp_index(b.selected_pipeline, a.state.stored().len())
            &&& statuses_view(a.state.source_status@) == upsert_view(
                statuses_view(b.state.source_status@),
                source@,
                SourceStatusView::Connected,
            )
            &&& exists|now: i64|
                is_instant(now) && #[trigger] updates_view(a.state.last_update@) == upsert_view(
                    updates_view(b.state.last_update@),
                    source@,
                    now,
                )
            &&& a.state.errors == b.state.errors
            &&& a.state.max_errors == b.state.max_errors
        },
        PollUpdate::Error(source, message) => error_recorded(b.state, a.state, source@, message@)
            && a.selected_pipeline == b.selected_pipeline,
        PollUpdate::RateLimited(source, d) => (rate_limit_recorded(b.state, a.state, source@, d, true)
            || rate_limit_recorded(b.state, a.state, source@, d, false)) && a.selected_pipeline
            == b.selected_pipeline,
    }
    &&& a.focus == b.focus
    &&& a.logs == b.logs
    &&& a.log_stage_index == b.log_stage_index
    &&& a.log_scroll == b.log_scroll
    &&& a.config == b.config
    &&& a.status_message == b.status_message
}

/// What key `key` makes of the application (see `key_step`).
pub open spec fn input_step(b: App, key: Key, a: App) -> bool {
    let step = key_step(b.nav(), key, b.state.stored().len(), b.selected_stage_count(), b.log_len());
    &&& a.nav() == step.0
    &&& if step.1 {
        a.logs is None
    } else {
        a.logs == b.logs
    }
    &&& key == Key::Char('r') ==> (a.status_message matches Some(m) && m.0@ == "Refreshing…"@)
    &&& key != Key::Char('r') ==> a.status_message == b.status_message
    &&& a.state == b.state
    &&& a.config == b.config
    &&& a.refresh_interval == b.refresh_interval
}

/// The key bindings: 'q' quits from anywhere; 'r' asks for a refresh; 'e'
/// shows or hides the error panel and moves the focus to it or back to the
/// list; Enter opens the selected pipeline's details with no stage and no
/// logs; 'l' in the details opens the log viewer at its top; Esc leaves
/// the log viewer for the details (dropping the logs) and the error panel
/// for the list; Home goes to the top of the logs.
pub proof fn lemma_key_bindings(b: App, key: Key, a: App)
    requires
        input_step(b, key, a),
    ensures
        key == Key::Char('q') ==> a.should_quit,
        key == Key::Char('r') ==> a.force_refresh,
        key == Key::Char('e') ==> a.show_errors == !b.show_errors && a.focus == (if a.show_errors {
            Focus::Errors
        } else {
            Focus::PipelineList
        }),
        key == Key::Enter && b.focus == Focus::PipelineList ==> a.focus == Focus::Details
            && a.logs is None && a.log_stage_index is None && a.selected_pipeline
            == b.selected_pipeline,
        key == Key::Char('l') && b.focus == Focus::Details ==> a.focus == Focus::Logs && a.log_scroll
            == 0,
        key == Key::Esc && b.focus == Focus::Logs ==> a.focus == Focus::Details && a.logs is None
            && a.log_stage_index is None && a.should_quit == b.should_quit,
        key == Key::Esc && b.focus == Focus::Errors ==> a.focus == Focus::PipelineList
            && !a.show_errors && a.should_quit == b.should_quit,
        key == Key::Home && b.focus == Focus::Logs ==> a.log_scroll == 0,
        a.state == b.state,
{
}

/// From the details panel, Left or 'h' gives the focus back to the
/// pipeline list; the selected pipeline, the selected stage, the loaded
/// logs and the store stay as they were, and the dashboard keeps running.
pub proof fn lemma_details_back_to_list(b: App, key: Key, a: App)
    requires
        b.focus == Focus::Details,
        key == Key::Left || key == Key::Char('h'),
        input_step(b, key, a),
    ensures
        a.focus == Focus::PipelineList,
        a.selected_pipeline == b.selected_pipeline,
        a.log_stage_index == b.log_stage_index,
        a.logs == b.logs,
        a.state == b.state,
        a.should_quit == b.should_quit,
{
}

/// Opening a pipeline's details with Enter and going back with Left (or
/// 'h') returns to the pipeline list with the same pipeline selected.
pub proof fn lemma_enter_then_back(b: App, k: Key, m: App, a: App)
    requires
        b.focus == Focus::PipelineList,
        k == Key::Left || k == Key::Char('h'),
        input_step(b, Key::Enter, m),
        input_step(m, k, a),
    ensures
        m.focus == Focus::Details,
        a.focus == Focus::PipelineList,
        a.selected_pipeline == b.selected_pipeline,
        a.state == b.state,
{
}

/// What deciding on a log fetch makes of the application, `in_flight`
/// telling whether a fetch is under way and `r` being the fetch decided on:
/// a fetch of `log_target` only while the viewer waits for logs and none is
/// under way; an empty log where there is nothing to fetch.
pub open spec fn fetch_step(b: App, in_flight: bool, r: Option<LogFetch>, a: App) -> bool {
    &&& !b.wants_logs(in_flight) ==> r is None && a == b
    &&& b.wants_logs(in_flight) && b.log_target() is Some ==> (r matches Some(f) && b.log_target()
        == Some((f.source as int, f.pipeline_id@, f.stage_id@)) && a == b)
    &&& b.wants_logs(in_flight) && b.log_target() is None ==> (r is None && (a.logs matches Some(l)
        && l@.len() == 0) && a == (App { logs: a.logs, ..b }))
}

/// What taking the outcome of a log fetch makes of the application: the
/// entries, or an empty log with the error recorded under "log-fetch", or
/// an empty log where no outcome came.
pub open spec fn receive_step(b: App, outcome: Option<Result<Vec<LogEntry>, String>>, a: App) -> bool {
    &&& a.state.wf()
    &&& match outcome {
        Some(Ok(entries)) => a.logs == Some(entries) && a.state == b.state,
        Some(Err(msg)) => (a.logs matches Some(l) && l@.len() == 0) && error_recorded(
            b.state,
            a.state,
            "log-fetch"@,
            msg@,
        ),
        None => (a.logs matches Some(l) && l@.len() == 0) && a.state == b.state,
    }
    &&& a.nav() == b.nav()
    &&& a.config == b.config
    &&& a.status_message == b.status_message
    &&& a.refresh_interval == b.refresh_interval
}

/// What a tick of the clock makes of the application: the status message
/// goes once it has been shown for more than two seconds.
pub open spec fn tick_step(b: App, a: App) -> bool {
    &&& exists|elapsed_nanos: u128|
        a.status_message == #[trigger] App::expired_message(b.status_message, elapsed_nanos)
    &&& a == (App { status_message: a.status_message, ..b })
}

/// What the main loop found of the log fetch it started last.
#[derive(Debug)]
pub enum LogPoll {
    /// No fetch was started.
    Idle,
    /// The fetch has not finished.
    Pending,
    /// The fetch finished with these entries or this error message.
    Done(Result<Vec<LogEntry>, String>),
    /// The fetch ended without an outcome.
    Lost,
}

/// What the state of the last log fetch makes of the application: a
/// finished or lost fetch is taken in; otherwise nothing changes.
pub open spec fn log_step(b: App, poll: LogPoll, a: App) -> bool {
    match poll {
        LogPoll::Done(outcome) => receive_step(b, Some(outcome), a),
        LogPoll::Lost => receive_step(b, None, a),
        _ => a == b,
    }
}

/// Whether `trace` runs from `b` through each message of `updates` in turn.
pub open spec fn poll_trace(trace: Seq<App>, updates: Seq<PollUpdate>) -> bool {
    &&& trace.len() == updates.len() + 1
    &&& forall|i: int|
        0 <= i < updates.len() ==> #[trigger] poll_step(trace[i], updates[i], trace[i + 1])
}

impl App {
    /// The navigation fields.
    pub open spec fn nav(&self) -> Nav {
        Nav {
            selected: self.selected_pipeline,
            focus: self.focus,
            log_stage_index: self.log_stage_index,
            log_scroll: self.log_scroll,
            show_errors: self.show_errors,
            should_quit: self.should_quit,
            force_refresh: self.force_refresh,
        }
    }

    /// The pipelines in the order the list shows them.
    pub open spec fn sorted(&self) -> Seq<Pipeline> {
        display_sorted(self.state.stored())
    }

    /// The number of stages of the selected pipeline, if one is selected.
    pub open spec fn selected_stage_count(&self) -> Option<nat> {
        if self.selected_pipeline < self.sorted().len() {
            Some(self.sorted()[self.selected_pipeline as int].stages@.len())
        } else {
            None
        }
    }

    /// The number of log lines loaded.
    pub open spec fn log_len(&self) -> nat {
        match self.logs {
            Some(l) => l@.len(),
            None => 0,
        }
    }

    /// What the log viewer would fetch now: the source, pipeline id and
    /// stage id, or `None` where the selected pipeline, its stage or a
    /// source with a client is missing.
    pub open spec fn log_target(&self) -> Option<(int, Seq<char>, Seq<char>)> {
        if self.selected_pipeline < self.sorted().len() {
            let p = self.sorted()[self.selected_pipeline as int];
            let si = match self.log_stage_index {
                Some(i) => i as int,
                None => 0,
            };
            if si < p.stages@.len() {
                match first_log_source(self.config.sources@, p.id@, p.source@) {
                    Some(k) => if known_source_type(self.config.sources@[k].source_type@) {
                        Some((k, p.id@, p.stages@[si].id@))
                    } else {
                        None
                    },
                    None => None,
                }
            } else {
                None
            }
        } else {
            None
        }
    }

    /// Whether the log viewer waits for logs that nobody is fetching.
    pub open spec fn wants_logs(&self, in_flight: bool) -> bool {
        self.focus == Focus::Logs && self.logs is None && !in_flight
    }

    /// Construct the app from a loaded config.
    pub fn new(config: Config) -> (r: Self)
        ensures
            r.config == config,
            r.state.wf(),
            r.state.stored().len() == 0,
            r.state.source_status@.len() == 0,
            r.state.errors@.len() == 0,
            r.selected_pipeline == 0,
            r.focus == Focus::PipelineList,
            r.logs is None,
            r.log_stage_index is None,
            r.log_scroll == 0,
            !r.show_errors,
            r.refresh_interval == config.refresh_interval,
            !r.should_quit,
            !r.force_refresh,
            r.status_message is None,
    {
        let refresh_interval = config.refresh_interval;
        App {
            config,
            state: AppState::new(),
            selected_pipeline: 0,
            focus: Focus::PipelineList,
            logs: None,
            log_stage_index: None,
            log_scroll: 0,
            show_errors: false,
            refresh_interval,
            should_quit: false,
            force_refresh: false,
            status_message: None,
        }
    }

    /// Process a single message from the background poller.
    pub fn handle_poll_update(&mut self, update: PollUpdate)
        requires
            old(self).state.wf(),
        ensures
            poll_step(*old(self), update, *final(self)),
    {
        match update {
            PollUpdate::PipelinesUpdated(source, pipelines) => {
                self.state.merge_pipelines(source.as_str(), pipelines);
                self.clamp_selection();
            },
            PollUpdate::Error(source, message) => {
                self.state.mark_source_error(source.as_str(), message.as_str());
            },
            PollUpdate::RateLimited(source, duration) => {
                let _ = self.state.mark_source_rate_limited(source.as_str(), duration);
            },
        }
    }

    /// Route a key press to the appropriate handler based on current focus.
    pub fn handle_input(&mut self, key: Key)
        requires
            old(self).state.wf(),
        ensures
            input_step(*old(self), key, *final(self)),
            old(self).focus == Focus::Details && (key == Key::Left || key == Key::Char('h'))
                ==> final(self).focus == Focus::PipelineList
                && final(self).selected_pipeline == old(self).selected_pipeline,
    {
        match key {
            Key::Char('q') | Key::Esc => {
                if key == Key::Esc && self.focus == Focus::Logs {
                    self.focus = Focus::Details;
                    self.logs = None;
                    self.log_stage_index = None;
                    return;
                }
                if key == Key::Esc && self.focus == Focus::Errors {
                    self.show_errors = false;
                    self.focus = Focus::PipelineList;
                    return;
                }
                if key == Key::Char('q') {
                    self.should_quit = true;
                }
                return;
            },
            Key::Char('r') => {
                self.force_refresh = true;
                self.set_status("Refreshing…".to_owned());
                return;
            },
            Key::Char('e') => {
                self.show_errors = !self.show_errors;
                if self.show_errors {
                    self.focus = Focus::Errors;
                } else {
                    self.focus = Focus::PipelineList;
                }
                return;
            },
            _ => {},
        }
        match self.focus {
            Focus::PipelineList => self.handle_list_input(key),
            Focus::Details => self.handle_details_input(key),
            Focus::Logs => self.handle_logs_input(key),
            Focus::Errors => self.handle_errors_input(key),
        }
    }

    fn handle_list_input(&mut self, key: Key)
        requires
            old(self).focus == Focus::PipelineList,
            key != Key::Char('q') && key != Key::Esc && key != Key::Char('r') && key != Key::Char(
                'e',
            ),
        ensures
            final(self).nav() == key_step(
                old(self).nav(),
                key,
                old(self).state.stored().len(),
                old(self).selected_stage_count(),
                old(self).log_len(),
            ).0,
            if key_step(
                old(self).nav(),
                key,
                old(self).state.stored().len(),
                old(self).selected_stage_count(),
                old(self).log_len(),
            ).1 {
                final(self).logs is None
            } else {
                final(self).logs == old(self).logs
            },
            final(self).status_message == old(self).status_message,
            final(self).state == old(self).state,
            final(self).config == old(self).config,
            final(self).refresh_interval == old(self).refresh_interval,
    {
        match key {
            Key::Up | Key::Char('k') => self.previous_pipeline(),
            Key::Down | Key::Char('j') => self.next_pipeline(),
            Key::Enter => {
                self.focus = Focus::Details;
                self.logs = None;
                self.log_stage_index = None;
            },
            _ => {},
        }
    }

    fn handle_details_input(&mut self, key: Key)
        requires
            old(self).focus == Focus::Details,
            old(self).state.wf(),
            key != Key::Char('q') && key != Key::Esc && key != Key::Char('r') && key != Key::Char(
                'e',
            ),
        ensures
            final(self).nav() == key_step(
                old(self).nav(),
                key,
                old(self).state.stored().len(),
                old(self).selected_stage_count(),
                old(self).log_len(),
            ).0,
            final(self).logs == old(self).logs,
            final(self).status_message == old(self).status_message,
            final(self).state == old(self).state,
            final(self).config == old(self).config,
            final(self).refresh_interval == old(self).refresh_interval,
            key == Key::Left || key == Key::Char('h') ==> final(self).focus == Focus::PipelineList,
    {
        match key {
            Key::Up | Key::Char('k') => {
                if let Some(idx) = self.log_stage_index {
                    if idx > 0 {
                        self.log_stage_index = Some(idx - 1);
                    }
                }
            },
            Key::Down | Key::Char('j') => {
                let stage_count = match self.selected_pipeline_ref() {
                    Some(pipeline) => Some(pipeline.stages.len()),
                    None => None,
                };
                if let Some(c) = stage_count {
                    let max = if c > 0 { c - 1 } else { 0 };
                    let idx = match self.log_stage_index {
                        Some(i) => i,
                        None => 0,
                    };
                    if idx < max {
                        self.log_stage_index = Some(idx + 1);
                    }
                }
            },
            Key::Char('l') => {
                self.focus = Focus::Logs;
                self.log_scroll = 0;
            },
            Key::Left | Key::Char('h') => {
                self.focus = Focus::PipelineList;
            },
            _ => {},
        }
    }

    fn handle_logs_input(&mut self, key: Key)
        requires
            old(self).focus == Focus::Logs,
            key != Key::Char('q') && key != Key::Esc && key != Key::Char('r') && key != Key::Char(
                'e',
            ),
        ensures
            final(self).nav() == key_step(
                old(self).nav(),
                key,
                old(self).state.stored().len(),
                old(self).selected_stage_count(),
                old(self).log_len(),
            ).0,
            final(self).logs == old(self).logs,
            final(self).status_message == old(self).status_message,
            final(self).state == old(self).state,
            final(self).config == old(self).config,
            final(self).refresh_interval == old(self).refresh_interval,
    {
        let len = match &self.logs {
            Some(l) => l.len(),
            None => 0,
        };
        let last = if len > 0 { len - 1 } else { 0 };
        match key {
            Key::Up | Key::Char('k') => {
                if self.log_scroll > 0 {
                    self.log_scroll = self.log_scroll - 1;
                }
            },
            Key::Down | Key::Char('j') => {
                if self.log_scroll < last {
                    self.log_scroll = self.log_scroll + 1;
                }
            },
            Key::PageUp => {
                self.log_scroll = if self.log_scroll >= 20 { self.log_scroll - 20 } else { 0 };
            },
            Key::PageDown => {
                self.log_scroll = if self.log_scroll < last && last - self.log_scroll > 20 {
                    self.log_scroll + 20
                } else {
                    last
                };
            },
            Key::Home => {
                self.log_scroll = 0;
            },
            Key::End => {
                self.log_scroll = last;
            },
            _ => {},
        }
    }

    fn handle_errors_input(&mut self, key: Key)
        ensures
            *final(self) == *old(self),
    {
        // The errors panel has no navigation of its own.
    }

    /// Move the selection up, wrapping to the last pipeline.
    fn previous_pipeline(&mut self)
        ensures
            old(self).state.stored().len() == 0 ==> *final(self) == *old(self),
            old(self).state.stored().len() > 0 ==> final(self).selected_pipeline == prev_index(
                old(self).selected_pipeline,
                old(self).state.stored().len(),
            ) && final(self).logs is None && final(self).log_stage_index is None,
            final(self).focus == old(self).focus,
            final(self).log_scroll == old(self).log_scroll,
            final(self).show_errors == old(self).show_errors,
            final(self).should_quit == old(self).should_quit,
            final(self).force_refresh == old(self).force_refresh,
            final(self).status_message == old(self).status_message,
            final(self).state == old(self).state,
            final(self).config == old(self).config,
            final(self).refresh_interval == old(self).refresh_interval,
    {
        let count = self.state.pipeline_count();
        if count == 0 {
            return;
        }
        if self.selected_pipeline > 0 {
            self.selected_pipeline = self.selected_pipeline - 1;
        } else {
            self.selected_pipeline = count - 1;
        }
        self.logs = None;
        self.log_stage_index = None;
    }

    /// Move the selection down, wrapping to the first pipeline.
    fn next_pipeline(&mut self)
        ensures
            old(self).state.stored().len() == 0 ==> *final(self) == *old(self),
            old(self).state.stored().len() > 0 ==> final(self).selected_pipeline == next_index(
                old(self).selected_pipeline,
                old(self).state.stored().len(),
            ) && final(self).logs is None && final(self).log_stage_index is None,
            final(self).focus == old(self).focus,
            final(self).log_scroll == old(self).log_scroll,
            final(self).show_errors == old(self).show_errors,
            final(self).should_quit == old(self).should_quit,
            final(self).force_refresh == old(self).force_refresh,
            final(self).status_message == old(self).status_message,
            final(self).state == old(self).state,
            final(self).config == old(self).config,
            final(self).refresh_interval == old(self).refresh_interval,
    {
        let count = self.state.pipeline_count();
        if count == 0 {
            return;
        }
        if self.selected_pipeline < count - 1 {
            self.selected_pipeline = self.selected_pipeline + 1;
        } else {
            self.selected_pipeline = 0;
        }
        self.logs = None;
        self.log_stage_index = None;
    }

    /// Ensure `selected_pipeline` doesn't exceed the current list length.
    fn clamp_selection(&mut self)
        ensures
            final(self).selected_pipeline == clamp_index(
                old(self).selected_pipeline,
                old(self).state.stored().len(),
            ),
            final(self).state == old(self).state,
            final(self).focus == old(self).focus,
            final(self).logs == old(self).logs,
            final(self).log_stage_index == old(self).log_stage_index,
            final(self).log_scroll == old(self).log_scroll,
            final(self).config == old(self).config,
            final(self).status_message == old(self).status_message,
    {
        let count = self.state.pipeline_count();
        if count == 0 {
            self.selected_pipeline = 0;
        } else if self.selected_pipeline >= count {
            self.selected_pipeline = count - 1;
        }
    }

    /// Borrow the currently selected pipeline, if any.
    pub fn selected_pipeline_ref(&self) -> (r: Option<&Pipeline>)
        requires
            self.state.wf(),
        ensures
            self.selected_pipeline < self.sorted().len() ==> r == Some(
                &self.sorted()[self.selected_pipeline as int],
            ),
            self.selected_pipeline >= self.sorted().len() ==> r is None,
    {
        let sorted = self.state.get_sorted_pipelines();
        if self.selected_pipeline < sorted.len() {
            let p = sorted[self.selected_pipeline];
            assert(*p == crate::state::app_state::derefs(sorted@)[self.selected_pipeline as int]);
            Some(p)
        } else {
            None
        }
    }

    /// Set a transient status message (shown for about two seconds).
    pub fn set_status(&mut self, msg: String)
        ensures
            final(self).status_message matches Some(m) && m.0 == msg,
            final(self).nav() == old(self).nav(),
            final(self).logs == old(self).logs,
            final(self).state == old(self).state,
            final(self).config == old(self).config,
            final(self).refresh_interval == old(self).refresh_interval,
    {
        self.status_message = Some((msg, instant_now()));
    }

    /// The status message after it has been shown for `elapsed_nanos`
    /// nanoseconds: cleared once that is more than two seconds, otherwise
    /// kept.
    pub open spec fn expired_message(
        m: Option<(String, std::time::Instant)>,
        elapsed_nanos: u128,
    ) -> Option<(String, std::time::Instant)> {
        if m is Some && elapsed_nanos > STATUS_NANOS {
            None
        } else {
            m
        }
    }

    /// Clear the status message if it has been shown for `elapsed_nanos`
    /// nanoseconds and that is more than two seconds.
    pub fn expire_status(&mut self, elapsed_nanos: u128)
        ensures
            final(self).status_message == Self::expired_message(old(self).status_message, elapsed_nanos),
            *final(self) == (App { status_message: final(self).status_message, ..*old(self) }),
    {
        if self.status_message.is_some() && elapsed_nanos > STATUS_NANOS {
            self.status_message = None;
        }
    }

    /// Clear the status message if it has been shown for more than two
    /// seconds, as measured by the clock since it was set; nothing else
    /// changes.
    pub fn tick_status(&mut self)
        ensures
            tick_step(*old(self), *final(self)),
    {
        let elapsed = match &self.status_message {
            Some((_, when)) => {
                let d = elapsed_since(when);
                duration_nanos(&d)
            },
            None => 0,
        };
        self.expire_status(elapsed);
    }

    /// Decide whether to start a log fetch.  While the log viewer waits for
    /// logs and none are being fetched (`in_flight` is false), the fetch of
    /// `log_target` is returned; where there is no target the viewer gets
    /// an empty log instead.  Otherwise nothing happens.
    pub fn next_log_fetch(&mut self, in_flight: bool) -> (r: Option<LogFetch>)
        requires
            old(self).state.wf(),
        ensures
            fetch_step(*old(self), in_flight, r, *final(self)),
    {
        if !(self.focus == Focus::Logs && self.logs.is_none() && !in_flight) {
            return None;
        }
        let target = self.log_target_now();
        match target {
            Some(f) => Some(f),
            None => {
                self.logs = Some(Vec::new());
                None
            },
        }
    }

    fn log_target_now(&self) -> (r: Option<LogFetch>)
        requires
            self.state.wf(),
        ensures
            match r {
                Some(f) => self.log_target() == Some((f.source as int, f.pipeline_id@, f.stage_id@)),
                None => self.log_target() is None,
            },
    {
        let p = match self.selected_pipeline_ref() {
            Some(p) => p,
            None => return None,
        };
        let si = match self.log_stage_index {
            Some(i) => i,
            None => 0,
        };
        if si >= p.stages.len() {
            return None;
        }
        match self.config.log_source(p.id.as_str(), p.source.as_str()) {
            Some(k) => {
                proof {
                    lemma_first_log_source_bound(self.config.sources@, p.id@, p.source@);
                }
                if is_known_source_type(self.config.sources[k].source_type.as_str()) {
                    Some(LogFetch { source: k, pipeline_id: p.id.clone(), stage_id: p.stages[si].id.clone() })
                } else {
                    None
                }
            },
            None => None,
        }
    }

    /// Take the outcome of a log fetch: the entries where it succeeded; an
    /// empty log and an error recorded under "log-fetch" where it failed
    /// with a message; an empty log where no outcome came back.
    pub fn receive_logs(&mut self, outcome: Option<Result<Vec<LogEntry>, String>>)
        requires
            old(self).state.wf(),
        ensures
            receive_step(*old(self), outcome, *final(self)),
    {
        match outcome {
            Some(Ok(entries)) => {
                self.logs = Some(entries);
            },
            Some(Err(msg)) => {
                self.logs = Some(Vec::new());
                self.state.mark_source_error("log-fetch", msg.as_str());
            },
            None => {
                self.logs = Some(Vec::new());
            },
        }
    }

    /// The part of one turn of the main loop before the screen is drawn:
    /// take in every poll message in the order it came, then what became
    /// of the last log fetch, then decide on the next log fetch, which is
    /// returned.  A fetch starts only while the log viewer waits for logs
    /// and none is under way, so at most one is ever under way.
    pub fn before_draw(&mut self, updates: Vec<PollUpdate>, poll: LogPoll) -> (r: Option<LogFetch>)
        requires
            old(self).state.wf(),
        ensures
            final(self).state.wf(),
            exists|trace: Seq<App>, mid: App|
                {
                    &&& poll_trace(trace, updates@)
                    &&& trace[0] == *old(self)
                    &&& #[trigger] log_step(trace.last(), poll, mid)
                    &&& fetch_step(mid, poll is Pending, r, *final(self))
                },
    {
        let ghost us = updates@;
        let ghost mut trace: Seq<App> = seq![*self];
        let mut rest = updates;
        let ghost mut k: int = 0;
        while rest.len() > 0
            invariant
                0 <= k <= us.len(),
                rest@ == us.skip(k),
                trace.len() == k + 1,
                trace[0] == *old(self),
                trace.last() == *self,
                forall|i: int| 0 <= i < k ==> #[trigger] poll_step(trace[i], us[i], trace[i + 1]),
                self.state.wf(),
            decreases rest@.len(),
        {
            let u = rest.remove(0);
            assert(u == us[k]);
            let ghost before = *self;
            self.handle_poll_update(u);
            proof {
                trace = trace.push(*self);
                assert(trace[k] == before);
                assert(trace[k + 1] == *self);
                k = k + 1;
            }
            assert(rest@ =~= us.skip(k));
        }
        assert(poll_trace(trace, us));
        let ghost last = *self;
        let in_flight = match poll {
            LogPoll::Pending => true,
            _ => false,
        };
        match poll {
            LogPoll::Done(outcome) => self.receive_logs(Some(outcome)),
            LogPoll::Lost => self.receive_logs(None),
            _ => {},
        }
        let ghost mid = *self;
        assert(log_step(last, poll, mid));
        let r = self.next_log_fetch(in_flight);
        assert(log_step(trace.last(), poll, mid) && fetch_step(mid, poll is Pending, r, *self));
        r
    }

    /// The part of one turn of the main loop after the screen is drawn: the
    /// key pressed, if any, then a tick of the clock.  Returns whether the
    /// application is to quit.
    pub fn after_draw(&mut self, key: Option<Key>) -> (quit: bool)
        requires
            old(self).state.wf(),
        ensures
            final(self).state.wf(),
            exists|mid: App|
                {
                    &&& match key {
                        Some(k) => input_step(*old(self), k, mid),
                        None => mid == *old(self),
                    }
                    &&& #[trigger] tick_step(mid, *final(self))
                },
            quit == final(self).should_quit,
    {
        match key {
            Some(k) => self.handle_input(k),
            None => {},
        }
        let ghost mid = *self;
        self.tick_status();
        assert(tick_step(mid, *self));
        self.should_quit
    }


    /// Collect all source statuses for the header bar, in table order.
    pub fn source_statuses(&self) -> (r: Vec<(&String, &SourceStatus)>)
        ensures
            r@.len() == self.state.source_status@.len(),
            forall|i: int|
                0 <= i < r@.len() ==> *(#[trigger] r@[i]).0 == self.state.source_status@[i].0
                    && *r@[i].1 == self.state.source_status@[i].1,
    {
        let n = self.state.source_status.len();
        let mut r: Vec<(&String, &SourceStatus)> = Vec::new();
        let mut i: usize = 0;
        while i < n
            invariant
                n == self.state.source_status@.len(),
                i <= n,
                r@.len() == i,
                forall|j: int|
                    0 <= j < i ==> *(#[trigger] r@[j]).0 == self.state.source_status@[j].0
                        && *r@[j].1 == self.state.source_status@[j].1,
            decreases n - i,
        {
            let e = &self.state.source_status[i];
            r.push((&e.0, &e.1));
            i = i + 1;
        }
        r
    }
}

} // verus!
