//! The session manager: the commands that query and change multiplexer
//! sessions, and the protocol that starts one.
//!
//! Starting a session takes several commands, and what comes next depends on
//! how the last one ended. The protocol is a state machine: it names the
//! command to run, the caller runs it and reports the outcome, and the
//! protocol moves on.

use vstd::prelude::*;
use crate::config::{clone_windows, window_views, TmuxWindow, TmuxWindowView};
use crate::process::{arguments, Outcome};
use crate::text::{appended, opt_text, texts, trim, trimmed};

verus! {

/// A command of the multiplexer that may fail to start.
#[derive(Debug, Clone, Copy, PartialEq, Eq, Structural)]
pub enum Step {
    Lookup,
    CreateSession,
    Attach,
    Kill,
}

/// Why an operation on sessions failed.
#[derive(Debug)]
pub enum TmuxError {
    /// The multiplexer is not installed.
    Unavailable,
    /// The command of this step could not be started.
    NotRun(Step),
    /// The session could not be created; holds what the multiplexer reported.
    CreateSession(String),
    /// The session exists but could not be attached to.
    Attach,
    /// The session could not be ended; holds what the multiplexer reported.
    Kill(String),
}

/// The one-line message of an error.
pub open spec fn message_of(e: TmuxError) -> Seq<char> {
    match e {
        TmuxError::Unavailable => "tmux is not installed or not in PATH"@,
        TmuxError::NotRun(Step::Lookup) => "Failed to check tmux session"@,
        TmuxError::NotRun(Step::CreateSession) => "Failed to create tmux session"@,
        TmuxError::NotRun(Step::Attach) => "Failed to attach to tmux session"@,
        TmuxError::NotRun(Step::Kill) => "Failed to kill tmux session"@,
        TmuxError::CreateSession(detail) => "Failed to create tmux session: "@ + detail@,
        TmuxError::Attach => "Failed to attach to tmux session"@,
        TmuxError::Kill(detail) => "Failed to kill tmux session: "@ + detail@,
    }
}

impl TmuxError {
    /// The one-line message of this error.
    pub fn message(&self) -> (r: String)
        ensures
            r@ == message_of(*self),
    {
        match self {
            TmuxError::Unavailable => "tmux is not installed or not in PATH".to_string(),
            TmuxError::NotRun(Step::Lookup) => "Failed to check tmux session".to_string(),
            TmuxError::NotRun(Step::CreateSession) => "Failed to create tmux session".to_string(),
            TmuxError::NotRun(Step::Attach) => "Failed to attach to tmux session".to_string(),
            TmuxError::NotRun(Step::Kill) => "Failed to kill tmux session".to_string(),
            TmuxError::CreateSession(detail) => appended(
                "Failed to create tmux session: ",
                detail.as_str(),
            ),
            TmuxError::Attach => "Failed to attach to tmux session".to_string(),
            TmuxError::Kill(detail) => appended("Failed to kill tmux session: ", detail.as_str()),
        }
    }
}

/// The arguments of the capability probe.
pub open spec fn probe_arguments() -> Seq<Seq<char>> {
    seq!["-V"@]
}

/// The command that probes for the multiplexer.
pub fn probe_command() -> (r: Vec<String>)
    ensures
        texts(r@) == probe_arguments(),
{
    let r = arguments(&["-V"]);
    assert(texts(r@) =~= probe_arguments());
    r
}

/// Whether the multiplexer is there: the probe ran and reported success.
pub fn is_available(outcome: &Outcome) -> (r: bool)
    ensures
        r == outcome.succeeded(),
{
    outcome.is_success()
}

/// The arguments that ask whether the session `name` exists.
pub open spec fn lookup_arguments(name: Seq<char>) -> Seq<Seq<char>> {
    seq!["has-session"@, "-t"@, name]
}

/// The command that asks whether a session exists.
pub fn lookup_command(name: &str) -> (r: Vec<String>)
    ensures
        texts(r@) == lookup_arguments(name@),
{
    let r = arguments(&["has-session", "-t", name]);
    assert(texts(r@) =~= lookup_arguments(name@));
    r
}

/// What the lookup's outcome means: the session exists exactly when the
/// lookup reported success. Fails only where the lookup could not be started.
pub fn session_exists(outcome: &Outcome) -> (r: Result<bool, TmuxError>)
    ensures
        match *outcome {
            Outcome::NotStarted(_) => r == Err::<bool, TmuxError>(TmuxError::NotRun(Step::Lookup)),
            Outcome::Exited { success, .. } => r == Ok::<bool, TmuxError>(success),
        },
{
    match outcome {
        Outcome::NotStarted(_) => Err(TmuxError::NotRun(Step::Lookup)),
        Outcome::Exited { success, .. } => Ok(*success),
    }
}

/// The arguments that ask for the name of the session that the caller runs
/// in.
pub open spec fn current_session_arguments() -> Seq<Seq<char>> {
    seq!["display-message"@, "-p"@, "#S"@]
}

/// The command that asks for the name of the session that the caller runs in.
pub fn current_session_command() -> (r: Vec<String>)
    ensures
        texts(r@) == current_session_arguments(),
{
    let r = arguments(&["display-message", "-p", "#S"]);
    assert(texts(r@) =~= current_session_arguments());
    r
}

/// The session that the caller runs in, as far as the query tells: the name
/// that it printed, without the white space around it, where it succeeded and
/// printed a name at all.
pub open spec fn current_session_in(outcome: Outcome) -> Option<Seq<char>> {
    match outcome {
        Outcome::Exited { success: true, stdout, .. } => if trimmed(stdout@).len() > 0 {
            Some(trimmed(stdout@))
        } else {
            None
        },
        _ => None,
    }
}

/// What the outcome of the query for the present session means. A query that
/// failed, could not be started or printed nothing names no session.
pub fn get_current_session(outcome: &Outcome) -> (r: Option<String>)
    ensures
        opt_text(r) == current_session_in(*outcome),
{
    match outcome {
        Outcome::Exited { success, stdout, .. } => {
            if *success {
                let name = trim(stdout.as_str());
                if name.as_str().is_empty() {
                    None
                } else {
                    Some(name)
                }
            } else {
                None
            }
        },
        Outcome::NotStarted(_) => None,
    }
}

/// The arguments that attach to the session `name`.
pub open spec fn attach_arguments(name: Seq<char>) -> Seq<Seq<char>> {
    seq!["attach-session"@, "-t"@, name]
}

/// The arguments that end the session `name`.
pub open spec fn kill_arguments(name: Seq<char>) -> Seq<Seq<char>> {
    seq!["kill-session"@, "-t"@, name]
}

/// A start command behind the other arguments, where the window has one.
pub open spec fn with_command(arguments: Seq<Seq<char>>, window: TmuxWindowView) -> Seq<
    Seq<char>,
> {
    match window.command {
        Some(c) => arguments.push(c),
        None => arguments,
    }
}

/// The arguments that create the detached session `name` in the directory
/// `path`, with `window` as its first window.
pub open spec fn new_session_arguments(
    name: Seq<char>,
    path: Seq<char>,
    window: TmuxWindowView,
) -> Seq<Seq<char>> {
    with_command(
        seq!["new-session"@, "-d"@, "-s"@, name, "-c"@, path, "-n"@, window.name],
        window,
    )
}

/// The arguments that add `window` to the session `name` in the directory
/// `path`.
pub open spec fn new_window_arguments(
    name: Seq<char>,
    path: Seq<char>,
    window: TmuxWindowView,
) -> Seq<Seq<char>> {
    with_command(seq!["new-window"@, "-t"@, name, "-c"@, path, "-n"@, window.name], window)
}

/// Where the protocol that starts a session stands.
#[derive(Debug, Clone, Copy, PartialEq, Eq, Structural)]
pub enum Stage {
    /// Ask whether the multiplexer is there.
    Probe,
    /// Ask whether the session exists.
    Lookup,
    /// Create the window with this index of the plan; the first one creates
    /// the session.
    Create(usize),
    /// Attach to the session.
    Attach,
    /// Nothing is left to do.
    Finished,
}

/// The command of a stage, for the session `name` in the directory `path`
/// with the plan `windows`; none once the protocol has finished.
pub open spec fn stage_arguments(
    stage: Stage,
    name: Seq<char>,
    path: Seq<char>,
    windows: Seq<TmuxWindowView>,
) -> Option<Seq<Seq<char>>> {
    match stage {
        Stage::Probe => Some(probe_arguments()),
        Stage::Lookup => Some(lookup_arguments(name)),
        Stage::Create(i) => if i == 0 {
            Some(new_session_arguments(name, path, windows[0]))
        } else {
            Some(new_window_arguments(name, path, windows[i as int]))
        },
        Stage::Attach => Some(attach_arguments(name)),
        Stage::Finished => None,
    }
}

/// The error with which an outcome ends the protocol at a stage, if it does.
/// A missing multiplexer, a lookup or an attach that could not be started, a
/// session that could not be created and a failed attach end it. A window
/// after the first that could not be created, in whatever way, does not.
pub open spec fn failure_at(stage: Stage, outcome: Outcome) -> Option<TmuxError> {
    match (stage, outcome) {
        (Stage::Probe, o) => if o.succeeded() {
            None
        } else {
            Some(TmuxError::Unavailable)
        },
        (Stage::Lookup, Outcome::NotStarted(_)) => Some(TmuxError::NotRun(Step::Lookup)),
        (Stage::Create(i), Outcome::NotStarted(_)) => if i == 0 {
            Some(TmuxError::NotRun(Step::CreateSession))
        } else {
            None
        },
        (Stage::Create(i), Outcome::Exited { success: false, stderr, .. }) => if i == 0 {
            Some(TmuxError::CreateSession(stderr))
        } else {
            None
        },
        (Stage::Attach, Outcome::NotStarted(_)) => Some(TmuxError::NotRun(Step::Attach)),
        (Stage::Attach, Outcome::Exited { success: false, .. }) => Some(TmuxError::Attach),
        _ => None,
    }
}

/// How a command ended, as far as the protocol cares.
#[derive(Debug, Clone, Copy, PartialEq, Eq, Structural)]
pub enum Answer {
    /// The command could not be started.
    NotStarted,
    /// The command ran and reported failure.
    Refused,
    /// The command ran and reported success.
    Done,
}

/// The answer that an outcome gives.
pub open spec fn answer_of(outcome: Outcome) -> Answer {
    match outcome {
        Outcome::NotStarted(_) => Answer::NotStarted,
        Outcome::Exited { success, .. } => if success {
            Answer::Done
        } else {
            Answer::Refused
        },
    }
}

/// Whether an answer ends the protocol at a stage with an error.
pub open spec fn ends_run(stage: Stage, answer: Answer) -> bool {
    match stage {
        Stage::Probe => answer != Answer::Done,
        Stage::Lookup => answer == Answer::NotStarted,
        Stage::Create(i) => i == 0 && answer != Answer::Done,
        Stage::Attach => answer != Answer::Done,
        Stage::Finished => false,
    }
}

/// The stage that follows `stage` after `answer`, for a plan of `windows`
/// windows. A session that exists is attached to at once. One that does not
/// is created window by window and then attached to.
pub open spec fn step(stage: Stage, windows: nat, answer: Answer) -> Stage {
    if ends_run(stage, answer) {
        Stage::Finished
    } else {
        match stage {
            Stage::Probe => Stage::Lookup,
            Stage::Lookup => if answer == Answer::Done || windows == 0 {
                Stage::Attach
            } else {
                Stage::Create(0)
            },
            Stage::Create(i) => if i + 1 < windows && i < usize::MAX {
                Stage::Create((i + 1) as usize)
            } else {
                Stage::Attach
            },
            Stage::Attach => Stage::Finished,
            Stage::Finished => Stage::Finished,
        }
    }
}

/// The stage that follows `stage` after `outcome`, for a plan of `windows`
/// windows.
pub open spec fn next_stage(stage: Stage, windows: nat, outcome: Outcome) -> Stage {
    step(stage, windows, answer_of(outcome))
}

/// The protocol ends with an error exactly at the answers that end the run.
pub proof fn lemma_failure_ends_run(stage: Stage, outcome: Outcome)
    ensures
        failure_at(stage, outcome) is Some <==> ends_run(stage, answer_of(outcome)),
{
}

/// The warning that names the window `window` and says why it could not be
/// created.
pub open spec fn window_warning(window: Seq<char>, reason: Seq<char>) -> Seq<char> {
    "Warning: Failed to create window "@ + window + ": "@ + reason
}

/// The warning that an outcome leaves at a stage, if any: a window after the
/// first could not be created, which the protocol reports and passes over.
/// The reason is what the multiplexer reported, or why it could not be
/// started.
pub open spec fn warning_at(
    stage: Stage,
    windows: Seq<TmuxWindowView>,
    outcome: Outcome,
) -> Option<Seq<char>> {
    match (stage, outcome) {
        (Stage::Create(i), Outcome::Exited { success: false, stderr, .. }) => if i > 0 {
            Some(window_warning(windows[i as int].name, stderr@))
        } else {
            None
        },
        (Stage::Create(i), Outcome::NotStarted(reason)) => if i > 0 {
            Some(window_warning(windows[i as int].name, reason@))
        } else {
            None
        },
        _ => None,
    }
}

/// A run of the protocol that starts a session.
#[derive(Debug)]
pub struct SessionStart {
    pub name: String,
    pub path: String,
    pub windows: Vec<TmuxWindow>,
    pub stage: Stage,
    pub warnings: Vec<String>,
    pub failure: Option<TmuxError>,
}

/// The texts of an optional list of arguments.
pub open spec fn opt_texts(o: Option<Vec<String>>) -> Option<Seq<Seq<char>>> {
    match o {
        Some(v) => Some(texts(v@)),
        None => None,
    }
}

/// The command that creates one window of a plan.
fn window_command(head: Vec<String>, window: &TmuxWindow) -> (r: Vec<String>)
    ensures
        texts(r@) == with_command(texts(head@), window@),
{
    let mut out = head;
    match &window.command {
        Some(c) => {
            let ghost before = texts(out@);
            out.push(c.clone());
            assert(texts(out@) =~= before.push(c@));
        },
        None => {},
    }
    out
}

impl SessionStart {
    /// A run is well formed when the window it is about to create is one of
    /// its plan, and when it has finished if it has failed.
    pub open spec fn wf(&self) -> bool {
        &&& self.stage matches Stage::Create(i) ==> i < self.windows.len()
        &&& self.failure is Some ==> self.stage == Stage::Finished
    }

    /// Whether the run is well formed. Every run that `start_session` begins
    /// and that `advance` leads to is.
    pub fn is_well_formed(&self) -> (r: bool)
        ensures
            r == self.wf(),
    {
        let window_fits = match self.stage {
            Stage::Create(i) => i < self.windows.len(),
            _ => true,
        };
        let failure_fits = match &self.failure {
            Some(_) => self.stage == Stage::Finished,
            None => true,
        };
        window_fits && failure_fits
    }

    /// Whether nothing is left to do.
    pub fn is_finished(&self) -> (r: bool)
        ensures
            r == (self.stage == Stage::Finished),
    {
        self.stage == Stage::Finished
    }

    /// The command to run at the present stage; none once the run has
    /// finished.
    pub fn command(&self) -> (r: Option<Vec<String>>)
        requires
            self.wf(),
        ensures
            opt_texts(r) == stage_arguments(
                self.stage,
                self.name@,
                self.path@,
                window_views(self.windows@),
            ),
    {
        let name = self.name.as_str();
        let path = self.path.as_str();
        match self.stage {
            Stage::Probe => Some(probe_command()),
            Stage::Lookup => Some(lookup_command(name)),
            Stage::Create(i) => {
                let window = &self.windows[i];
                assert(window_views(self.windows@)[i as int] == window@);
                if i == 0 {
                    let head = arguments(
                        &["new-session", "-d", "-s", name, "-c", path, "-n", window.name.as_str()],
                    );
                    assert(texts(head@) =~= seq![
                        "new-session"@,
                        "-d"@,
                        "-s"@,
                        name@,
                        "-c"@,
                        path@,
                        "-n"@,
                        window@.name,
                    ]);
                    Some(window_command(head, window))
                } else {
                    let head = arguments(
                        &["new-window", "-t", name, "-c", path, "-n", window.name.as_str()],
                    );
                    assert(texts(head@) =~= seq![
                        "new-window"@,
                        "-t"@,
                        name@,
                        "-c"@,
                        path@,
                        "-n"@,
                        window@.name,
                    ]);
                    Some(window_command(head, window))
                }
            },
            Stage::Attach => {
                let r = arguments(&["attach-session", "-t", name]);
                assert(texts(r@) =~= attach_arguments(name@));
                Some(r)
            },
            Stage::Finished => None,
        }
    }

    /// Notes that the window `i` of the plan could not be created, and why.
    fn warn(&mut self, i: usize, reason: &str)
        requires
            i < old(self).windows.len(),
        ensures
            final(self).name == old(self).name,
            final(self).path == old(self).path,
            final(self).windows == old(self).windows,
            final(self).stage == old(self).stage,
            final(self).failure == old(self).failure,
            texts(final(self).warnings@) == texts(old(self).warnings@).push(
                window_warning(window_views(old(self).windows@)[i as int].name, reason@),
            ),
    {
        let mut w = appended("Warning: Failed to create window ", self.windows[i].name.as_str());
        w.append(": ");
        w.append(reason);
        let ghost before = texts(self.warnings@);
        self.warnings.push(w);
        assert(window_views(self.windows@)[i as int] == self.windows[i as int]@);
        assert(texts(self.warnings@) =~= before.push(w@));
    }

    /// Takes the outcome of the present stage's command and moves on.
    pub fn advance(&mut self, outcome: &Outcome)
        requires
            old(self).wf(),
        ensures
            final(self).wf(),
            final(self).name == old(self).name,
            final(self).path == old(self).path,
            final(self).windows == old(self).windows,
            final(self).stage == next_stage(old(self).stage, old(self).windows.len() as nat, *outcome),
            old(self).stage == Stage::Finished ==> final(self).failure == old(self).failure,
            old(self).stage != Stage::Finished ==> final(self).failure == failure_at(
                old(self).stage,
                *outcome,
            ),
            texts(final(self).warnings@) == match warning_at(
                old(self).stage,
                window_views(old(self).windows@),
                *outcome,
            ) {
                Some(w) => texts(old(self).warnings@).push(w),
                None => texts(old(self).warnings@),
            },
    {
        let n = self.windows.len();
        match self.stage {
            Stage::Probe => {
                if outcome.is_success() {
                    self.stage = Stage::Lookup;
                } else {
                    self.failure = Some(TmuxError::Unavailable);
                    self.stage = Stage::Finished;
                }
            },
            Stage::Lookup => {
                match outcome {
                    Outcome::NotStarted(_) => {
                        self.failure = Some(TmuxError::NotRun(Step::Lookup));
                        self.stage = Stage::Finished;
                    },
                    Outcome::Exited { success, .. } => {
                        if *success || n == 0 {
                            self.stage = Stage::Attach;
                        } else {
                            self.stage = Stage::Create(0);
                        }
                    },
                }
            },
            Stage::Create(i) => {
                let next = if i + 1 < n {
                    Stage::Create(i + 1)
                } else {
                    Stage::Attach
                };
                match outcome {
                    Outcome::NotStarted(reason) => {
                        if i == 0 {
                            self.failure = Some(TmuxError::NotRun(Step::CreateSession));
                            self.stage = Stage::Finished;
                        } else {
                            self.warn(i, reason.as_str());
                            self.stage = next;
                        }
                    },
                    Outcome::Exited { success, stderr, .. } => {
                        if *success {
                            self.stage = next;
                        } else if i == 0 {
                            self.failure = Some(TmuxError::CreateSession(stderr.clone()));
                            self.stage = Stage::Finished;
                        } else {
                            self.warn(i, stderr.as_str());
                            self.stage = next;
                        }
                    },
                }
            },
            Stage::Attach => {
                match outcome {
                    Outcome::NotStarted(_) => {
                        self.failure = Some(TmuxError::NotRun(Step::Attach));
                    },
                    Outcome::Exited { success, .. } => {
                        if !*success {
                            self.failure = Some(TmuxError::Attach);
                        }
                    },
                }
                self.stage = Stage::Finished;
            },
            Stage::Finished => {},
        }
    }
}

/// Begins the protocol that starts the session `session_name` in the
/// directory `worktree_path` with the plan `windows`: it stands at the probe,
/// with no warning and no failure.
pub fn start_session(session_name: &str, worktree_path: &str, windows: &Vec<TmuxWindow>) -> (r:
    SessionStart)
    ensures
        r.wf(),
        r.name@ == session_name@,
        r.path@ == worktree_path@,
        window_views(r.windows@) == window_views(windows@),
        r.stage == Stage::Probe,
        r.warnings@.len() == 0,
        r.failure is None,
{
    SessionStart {
        name: session_name.to_string(),
        path: worktree_path.to_string(),
        windows: clone_windows(windows),
        stage: Stage::Probe,
        warnings: Vec::new(),
        failure: None,
    }
}

/// Once the lookup reports that the session exists, the protocol attaches and
/// then has finished: it creates neither session nor window, whatever the
/// plan.
pub proof fn lemma_existing_session_is_only_attached(windows: nat, attach: Answer)
    ensures
        step(Stage::Lookup, windows, Answer::Done) == Stage::Attach,
        step(Stage::Attach, windows, attach) == Stage::Finished,
{
}

/// How a multiplexer that refuses nothing without reason serves the command
/// of a stage: what sessions it holds afterwards, each with the names of its
/// windows, and what it answers. It creates a session unless one of that name
/// exists, and adds a window to a session that exists.
pub open spec fn served(
    sessions: Map<Seq<char>, Seq<Seq<char>>>,
    stage: Stage,
    name: Seq<char>,
    windows: Seq<TmuxWindowView>,
) -> (Map<Seq<char>, Seq<Seq<char>>>, Answer) {
    let exists = sessions.contains_key(name);
    let found = if exists {
        Answer::Done
    } else {
        Answer::Refused
    };
    match stage {
        Stage::Probe => (sessions, Answer::Done),
        Stage::Lookup => (sessions, found),
        Stage::Create(i) => if i == 0 {
            if exists {
                (sessions, Answer::Refused)
            } else {
                (sessions.insert(name, seq![windows[0].name]), Answer::Done)
            }
        } else {
            if exists {
                (sessions.insert(name, sessions[name].push(windows[i as int].name)), Answer::Done)
            } else {
                (sessions, Answer::Refused)
            }
        },
        Stage::Attach => (sessions, found),
        Stage::Finished => (sessions, Answer::Done),
    }
}

/// How many commands the protocol may still issue from a stage, at most.
pub open spec fn commands_left(stage: Stage, windows: nat) -> nat {
    match stage {
        Stage::Probe => windows + 4,
        Stage::Lookup => windows + 3,
        Stage::Create(i) => if i < windows {
            (windows - i + 1) as nat
        } else {
            0
        },
        Stage::Attach => 1,
        Stage::Finished => 0,
    }
}

/// The sessions that such a multiplexer holds once the protocol has run from
/// `stage` to its end.
pub open spec fn run_from(
    sessions: Map<Seq<char>, Seq<Seq<char>>>,
    stage: Stage,
    name: Seq<char>,
    windows: Seq<TmuxWindowView>,
) -> Map<Seq<char>, Seq<Seq<char>>>
    decreases commands_left(stage, windows.len()),
{
    if commands_left(stage, windows.len()) == 0 {
        sessions
    } else {
        let (after, answer) = served(sessions, stage, name, windows);
        run_from(after, step(stage, windows.len(), answer), name, windows)
    }
}

/// The sessions that such a multiplexer holds after a session was started.
pub open spec fn started(
    sessions: Map<Seq<char>, Seq<Seq<char>>>,
    name: Seq<char>,
    windows: Seq<TmuxWindowView>,
) -> Map<Seq<char>, Seq<Seq<char>>> {
    run_from(sessions, Stage::Probe, name, windows)
}

/// The protocol ends no session: one that exists when a stage begins exists
/// when the run is over.
pub proof fn lemma_run_keeps_session(
    sessions: Map<Seq<char>, Seq<Seq<char>>>,
    stage: Stage,
    name: Seq<char>,
    windows: Seq<TmuxWindowView>,
)
    requires
        sessions.contains_key(name),
    ensures
        run_from(sessions, stage, name, windows).contains_key(name),
    decreases commands_left(stage, windows.len()),
{
    if commands_left(stage, windows.len()) > 0 {
        let (after, answer) = served(sessions, stage, name, windows);
        lemma_run_keeps_session(after, step(stage, windows.len(), answer), name, windows);
    }
}

/// Starting a session that exists changes nothing: the protocol looks it up
/// and attaches, and the multiplexer holds the same sessions with the same
/// windows as before.
pub proof fn lemma_start_of_existing_session_changes_nothing(
    sessions: Map<Seq<char>, Seq<Seq<char>>>,
    name: Seq<char>,
    windows: Seq<TmuxWindowView>,
)
    requires
        sessions.contains_key(name),
    ensures
        started(sessions, name, windows) == sessions,
{
    let n = windows.len();
    assert(run_from(sessions, Stage::Finished, name, windows) == sessions);
    assert(run_from(sessions, Stage::Attach, name, windows) == sessions);
    assert(run_from(sessions, Stage::Lookup, name, windows) == sessions);
}

/// The names of the windows of a plan, in order.
pub open spec fn window_names(windows: Seq<TmuxWindowView>) -> Seq<Seq<char>> {
    windows.map_values(|w: TmuxWindowView| w.name)
}

/// The stage at which the window `i` of a plan of `n` windows is created, or
/// the attach where the plan has no such window.
pub open spec fn stage_of_window(i: nat, n: nat) -> Stage {
    if i < n {
        Stage::Create(i as usize)
    } else {
        Stage::Attach
    }
}

/// Once the first `i` windows of the plan are there, the rest of the run adds
/// the others in order.
pub proof fn lemma_run_adds_the_other_windows(
    sessions: Map<Seq<char>, Seq<Seq<char>>>,
    i: nat,
    name: Seq<char>,
    windows: Seq<TmuxWindowView>,
)
    requires
        0 < i <= windows.len() <= usize::MAX,
        sessions.contains_key(name),
        sessions[name] == window_names(windows).subrange(0, i as int),
    ensures
        run_from(sessions, stage_of_window(i, windows.len()), name, windows) == sessions.insert(
            name,
            window_names(windows),
        ),
    decreases windows.len() - i,
{
    let n = windows.len();
    let names = window_names(windows);
    if i < n {
        let (after, answer) = served(sessions, Stage::Create(i as usize), name, windows);
        assert(after[name] =~= names.subrange(0, (i + 1) as int));
        assert(step(Stage::Create(i as usize), n, answer) == stage_of_window(i + 1, n));
        lemma_run_adds_the_other_windows(after, i + 1, name, windows);
        assert(after.insert(name, names) =~= sessions.insert(name, names));
    } else {
        assert(run_from(sessions, Stage::Finished, name, windows) == sessions);
        assert(names.subrange(0, i as int) =~= names);
        assert(sessions.insert(name, names) =~= sessions);
    }
}

/// Starting a session that does not exist creates it with the windows of the
/// plan, in the plan's order, and leaves the other sessions as they are.
pub proof fn lemma_start_creates_the_plan(
    sessions: Map<Seq<char>, Seq<Seq<char>>>,
    name: Seq<char>,
    windows: Seq<TmuxWindowView>,
)
    requires
        !sessions.contains_key(name),
        0 < windows.len() <= usize::MAX,
    ensures
        started(sessions, name, windows) == sessions.insert(name, window_names(windows)),
{
    let n = windows.len();
    let names = window_names(windows);
    let (created, answer) = served(sessions, Stage::Create(0), name, windows);
    assert(created[name] =~= names.subrange(0, 1));
    assert(step(Stage::Create(0), n, answer) == stage_of_window(1, n));
    lemma_run_adds_the_other_windows(created, 1, name, windows);
    assert(created.insert(name, names) =~= sessions.insert(name, names));
    assert(run_from(sessions, Stage::Create(0), name, windows) == run_from(
        created,
        stage_of_window(1, n),
        name,
        windows,
    ));
    assert(run_from(sessions, Stage::Lookup, name, windows) == run_from(
        sessions,
        Stage::Create(0),
        name,
        windows,
    ));
}

/// A window after the first that could not be created, in whatever way,
/// holds nothing up: the run does not end there, and the protocol goes on to
/// the next window of the plan, or to the attach after the last one.
pub proof fn lemma_later_window_holds_nothing_up(
    i: usize,
    plan: Seq<TmuxWindowView>,
    outcome: Outcome,
)
    requires
        0 < i < plan.len() <= usize::MAX,
    ensures
        failure_at(Stage::Create(i), outcome) is None,
        next_stage(Stage::Create(i), plan.len(), outcome) == stage_of_window(
            (i + 1) as nat,
            plan.len(),
        ),
        outcome.succeeded() <==> warning_at(Stage::Create(i), plan, outcome) is None,
{
}

/// Starting a session twice in a row is starting it once: the second start
/// finds the session that the first one left and adds no window to it.
pub proof fn lemma_start_twice_is_start_once(
    sessions: Map<Seq<char>, Seq<Seq<char>>>,
    name: Seq<char>,
    windows: Seq<TmuxWindowView>,
)
    ensures
        started(started(sessions, name, windows), name, windows) == started(
            sessions,
            name,
            windows,
        ),
{
    let n = windows.len();
    let once = started(sessions, name, windows);
    if sessions.contains_key(name) {
        lemma_start_of_existing_session_changes_nothing(sessions, name, windows);
    } else if n == 0 {
        assert(run_from(sessions, Stage::Finished, name, windows) == sessions);
        assert(run_from(sessions, Stage::Attach, name, windows) == sessions);
        assert(run_from(sessions, Stage::Lookup, name, windows) == sessions);
        assert(once == sessions);
    } else {
        let (created, answer) = served(sessions, Stage::Create(0), name, windows);
        let next = step(Stage::Create(0), n, answer);
        assert(run_from(sessions, Stage::Create(0), name, windows) == run_from(
            created,
            next,
            name,
            windows,
        ));
        assert(run_from(sessions, Stage::Lookup, name, windows) == run_from(
            sessions,
            Stage::Create(0),
            name,
            windows,
        ));
        lemma_run_keeps_session(created, next, name, windows);
        assert(once.contains_key(name));
        lemma_start_of_existing_session_changes_nothing(once, name, windows);
    }
}

/// Where the protocol that ends a session stands.
#[derive(Debug, Clone, Copy, PartialEq, Eq, Structural)]
pub enum KillStage {
    /// Ask whether the session exists.
    Lookup,
    /// End the session.
    Kill,
    /// Nothing is left to do.
    Finished,
}

/// The error with which an outcome ends the protocol that ends a session, if
/// it does.
pub open spec fn kill_failure_at(stage: KillStage, outcome: Outcome) -> Option<TmuxError> {
    match (stage, outcome) {
        (KillStage::Lookup, Outcome::NotStarted(_)) => Some(TmuxError::NotRun(Step::Lookup)),
        (KillStage::Kill, Outcome::NotStarted(_)) => Some(TmuxError::NotRun(Step::Kill)),
        (KillStage::Kill, Outcome::Exited { success: false, stderr, .. }) => Some(
            TmuxError::Kill(stderr),
        ),
        _ => None,
    }
}

/// The stage that follows `stage` after `outcome`: a session that does not
/// exist needs no ending.
pub open spec fn next_kill_stage(stage: KillStage, outcome: Outcome) -> KillStage {
    match stage {
        KillStage::Lookup => if outcome.succeeded() {
            KillStage::Kill
        } else {
            KillStage::Finished
        },
        _ => KillStage::Finished,
    }
}

/// A run of the protocol that ends a session.
#[derive(Debug)]
pub struct SessionKill {
    pub name: String,
    pub stage: KillStage,
    pub failure: Option<TmuxError>,
}

impl SessionKill {
    /// A run is well formed when it has finished if it has failed.
    pub open spec fn wf(&self) -> bool {
        self.failure is Some ==> self.stage == KillStage::Finished
    }

    /// Whether the run is well formed. Every run that `kill_session` begins
    /// and that `advance` leads to is.
    pub fn is_well_formed(&self) -> (r: bool)
        ensures
            r == self.wf(),
    {
        match &self.failure {
            Some(_) => self.stage == KillStage::Finished,
            None => true,
        }
    }

    /// Whether nothing is left to do.
    pub fn is_finished(&self) -> (r: bool)
        ensures
            r == (self.stage == KillStage::Finished),
    {
        self.stage == KillStage::Finished
    }

    /// The command to run at the present stage; none once the run has
    /// finished.
    pub fn command(&self) -> (r: Option<Vec<String>>)
        ensures
            opt_texts(r) == match self.stage {
                KillStage::Lookup => Some(lookup_arguments(self.name@)),
                KillStage::Kill => Some(kill_arguments(self.name@)),
                KillStage::Finished => None,
            },
    {
        match self.stage {
            KillStage::Lookup => Some(lookup_command(self.name.as_str())),
            KillStage::Kill => {
                let r = arguments(&["kill-session", "-t", self.name.as_str()]);
                assert(texts(r@) =~= kill_arguments(self.name@));
                Some(r)
            },
            KillStage::Finished => None,
        }
    }

    /// Takes the outcome of the present stage's command and moves on.
    pub fn advance(&mut self, outcome: &Outcome)
        requires
            old(self).wf(),
        ensures
            final(self).wf(),
            final(self).name == old(self).name,
            final(self).stage == next_kill_stage(old(self).stage, *outcome),
            old(self).stage == KillStage::Finished ==> final(self).failure == old(self).failure,
            old(self).stage != KillStage::Finished ==> final(self).failure == kill_failure_at(
                old(self).stage,
                *outcome,
            ),
    {
        match self.stage {
            KillStage::Lookup => {
                match outcome {
                    Outcome::NotStarted(_) => {
                        self.failure = Some(TmuxError::NotRun(Step::Lookup));
                        self.stage = KillStage::Finished;
                    },
                    Outcome::Exited { success, .. } => {
                        self.stage = if *success {
                            KillStage::Kill
                        } else {
                            KillStage::Finished
                        };
                    },
                }
            },
            KillStage::Kill => {
                match outcome {
                    Outcome::NotStarted(_) => {
                        self.failure = Some(TmuxError::NotRun(Step::Kill));
                    },
                    Outcome::Exited { success, stderr, .. } => {
                        if !*success {
                            self.failure = Some(TmuxError::Kill(stderr.clone()));
                        }
                    },
                }
                self.stage = KillStage::Finished;
            },
            KillStage::Finished => {},
        }
    }
}

/// Begins the protocol that ends the session `session_name`: it stands at the
/// lookup, with no failure.
pub fn kill_session(session_name: &str) -> (r: SessionKill)
    ensures
        r.wf(),
        r.name@ == session_name@,
        r.stage == KillStage::Lookup,
        r.failure is None,
{
    SessionKill { name: session_name.to_string(), stage: KillStage::Lookup, failure: None }
}

} // verus!
