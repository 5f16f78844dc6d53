use vstd::prelude::*;

verus! {

/// Shortest polling period, in seconds, that a production build accepts.
pub const MIN_PERIOD_SECS: u64 = 3600;

/// Interval, in seconds, of the ticks of a disabled chapter poll.
pub const IDLE_POLL_SECS: u64 = 3600;

/// Interval, in seconds, between checks for new versions.
pub const VERSION_CHECK_SECS: u64 = 86400;

/// Interval, in seconds, between cache sweeps.
pub const CACHE_SWEEP_SECS: u64 = 259200;

/// Pause, in seconds, after each series of a pass.
pub const PACING_SECS: u64 = 1;

/// The polling period that takes effect for a configured one: in a production
/// build a non-zero period under an hour is raised to an hour. Zero disables
/// polling.
pub fn effective_period(period: u64, production: bool) -> (r: u64)
    ensures
        r == if production && 0 < period < MIN_PERIOD_SECS {
            MIN_PERIOD_SECS
        } else {
            period
        },
{
    if production && period > 0 && period < MIN_PERIOD_SECS {
        MIN_PERIOD_SECS
    } else {
        period
    }
}

/// Interval of the chapter-poll timer. A disabled poll keeps a timer whose
/// ticks are ignored.
pub fn poll_interval_secs(period: u64) -> (r: u64)
    ensures
        r == if period == 0 {
            IDLE_POLL_SECS
        } else {
            period
        },
{
    if period == 0 {
        IDLE_POLL_SECS
    } else {
        period
    }
}

/// Which series a requested check covers.
#[derive(Clone, Copy, Debug, PartialEq, Eq, Structural)]
pub enum Scope {
    /// Every series in any user's library.
    All,
    /// The one series with this id.
    Manga(i64),
    /// The series in the library of the user with this id.
    Library(i64),
}

/// What started the pass in progress.
#[derive(Clone, Copy, Debug, PartialEq, Eq, Structural)]
pub enum Trigger {
    Command(Scope),
    Periodic,
}

/// What the scheduler loop selected.
#[derive(Clone, Copy, Debug, PartialEq, Eq, Structural)]
pub enum Event {
    /// A command arrived on the command channel.
    Command(Scope),
    ChapterTick,
    VersionTick,
    CacheTick,
}

/// What the loop does for a selected event.
#[derive(Clone, Copy, Debug, PartialEq, Eq, Structural)]
pub enum Action {
    /// Run a reconciliation pass over the series of the scope.
    Reconcile(Scope),
    /// Nothing to do.
    Skip,
    /// Check the server, then the extensions, for new versions.
    CheckVersions,
    ClearCache,
}

/// What becomes of the outcome of a finished pass.
#[derive(Clone, Copy, Debug, PartialEq, Eq, Structural)]
pub enum Completion {
    /// Send it on the completion signal of the command that asked for the pass.
    Reply,
    /// Only log it.
    Log,
}

/// The decisions of the scheduler loop. At most one pass runs at a time, and
/// commands are taken only while none runs.
#[derive(Clone, Copy, Debug, PartialEq, Eq, Structural)]
pub struct Scheduler {
    pub period: u64,
    pub running: Option<Trigger>,
}

/// The state and action that follow event `e` in the idle state `s`.
pub open spec fn step(s: Scheduler, e: Event) -> (Scheduler, Action) {
    match e {
        Event::Command(scope) => (
            Scheduler { period: s.period, running: Some(Trigger::Command(scope)) },
            Action::Reconcile(scope),
        ),
        Event::ChapterTick => if s.period == 0 {
            (s, Action::Skip)
        } else {
            (Scheduler { period: s.period, running: Some(Trigger::Periodic) }, Action::Reconcile(Scope::All))
        },
        Event::VersionTick => (s, Action::CheckVersions),
        Event::CacheTick => (s, Action::ClearCache),
    }
}

/// The state and completion that follow the end of the pass running in `s`.
pub open spec fn finish(s: Scheduler) -> (Scheduler, Completion) {
    (
        Scheduler { period: s.period, running: None },
        match s.running {
            Some(Trigger::Command(_)) => Completion::Reply,
            _ => Completion::Log,
        },
    )
}

impl Scheduler {
    /// An idle scheduler polling every `period` seconds; 0 disables polling.
    pub fn new(period: u64) -> (r: Scheduler)
        ensures
            r.period == period,
            r.running is None,
    {
        Scheduler { period, running: None }
    }

    /// Whether the loop may take a command or a tick: no pass is running.
    pub fn is_idle(&self) -> (r: bool)
        ensures
            r == (self.running is None),
    {
        self.running.is_none()
    }

    /// Decides what to do with an event selected while idle.
    pub fn on_event(&mut self, e: Event) -> (a: Action)
        requires
            old(self).running is None,
        ensures
            (*final(self), a) == step(*old(self), e),
    {
        match e {
            Event::Command(scope) => {
                self.running = Some(Trigger::Command(scope));
                Action::Reconcile(scope)
            },
            Event::ChapterTick => {
                if self.period == 0 {
                    Action::Skip
                } else {
                    self.running = Some(Trigger::Periodic);
                    Action::Reconcile(Scope::All)
                }
            },
            Event::VersionTick => Action::CheckVersions,
            Event::CacheTick => Action::ClearCache,
        }
    }

    /// Ends the running pass, whatever its outcome, and says where the outcome goes.
    pub fn on_pass_done(&mut self) -> (c: Completion)
        requires
            old(self).running is Some,
        ensures
            (*final(self), c) == finish(*old(self)),
    {
        let c = match self.running {
            Some(Trigger::Command(_)) => Completion::Reply,
            _ => Completion::Log,
        };
        self.running = None;
        c
    }
}

/// A command is answered exactly once: taking it starts a pass over its scope,
/// and ending that pass, however it went, sends its outcome on the command's
/// completion signal and leaves the scheduler idle with nothing left to answer.
pub proof fn lemma_one_reply(s: Scheduler, scope: Scope)
    requires
        s.running is None,
    ensures
        step(s, Event::Command(scope)).1 == Action::Reconcile(scope),
        step(s, Event::Command(scope)).0.running is Some,
        finish(step(s, Event::Command(scope)).0).1 == Completion::Reply,
        finish(step(s, Event::Command(scope)).0).0 == s,
{
}

/// Passes that no command asked for never answer a command.
pub proof fn lemma_periodic_never_replies(s: Scheduler)
    requires
        s.running is None,
        step(s, Event::ChapterTick).0.running is Some,
    ensures
        finish(step(s, Event::ChapterTick).0).1 == Completion::Log,
{
}

/// Commands are admitted one at a time: once a command is taken, the scheduler
/// takes no other event until its pass has ended.
pub proof fn lemma_admission_serialized(s: Scheduler, scope: Scope)
    requires
        s.running is None,
    ensures
        !(step(s, Event::Command(scope)).0.running is None),
        finish(step(s, Event::Command(scope)).0).0.running is None,
{
}

/// How the handling of one series ended.
#[derive(Clone, Copy, Debug, PartialEq, Eq, Structural)]
pub enum SeriesOutcome {
    /// Its chapters were stored and its new chapters announced.
    Reconciled,
    /// The source could not list its chapters; the series is skipped.
    FetchFailed,
}

/// Progress of one reconciliation pass: how many series it has handled and
/// for how long it has paused between them.
pub struct Pass {
    pub series: u64,
    pub paused_secs: u64,
}

impl Pass {
    /// Every handled series, whatever its outcome, was followed by the pause.
    pub open spec fn wf(&self) -> bool {
        self.paused_secs == self.series * PACING_SECS
    }

    pub fn new() -> (r: Pass)
        ensures
            r.wf(),
            r.series == 0,
    {
        Pass { series: 0, paused_secs: 0 }
    }

    /// Records that a series was handled and returns how long to pause before
    /// the next: the same whether or not its chapters could be fetched.
    pub fn series_done(&mut self, outcome: SeriesOutcome) -> (pause_secs: u64)
        requires
            old(self).wf(),
            old(self).series < u64::MAX,
        ensures
            final(self).wf(),
            pause_secs == PACING_SECS,
            final(self).series == old(self).series + 1,
            final(self).paused_secs == old(self).paused_secs + pause_secs,
    {
        self.series = self.series + 1;
        self.paused_secs = self.paused_secs + PACING_SECS;
        PACING_SECS
    }
}

/// A pass that has handled `n` series has paused for at least `n` times the
/// pacing delay.
pub proof fn lemma_pacing(p: Pass)
    requires
        p.wf(),
    ensures
        p.paused_secs >= p.series * PACING_SECS,
{
}

} // verus!
