use vstd::prelude::*;
use vstd::string::StringExecFns;

use crate::clock::{is_live_history, lemma_live_reads_increase};
use crate::event::{line_text, Command, LogEvent};
use crate::severity::{admits, Severity};

verus! {

/// A place that the writer sends lines to.
#[derive(Clone, Copy, Debug, PartialEq, Eq, Structural, Hash)]
pub enum Target {
    Stdout,
    Stderr,
    File,
}

/// A file target: lines are appended to `<dir>/<prefix>.log`.
#[derive(Clone, Debug)]
pub struct FileSink {
    pub dir: String,
    pub prefix: String,
    pub level: Severity,
}

/// Which targets the writer fans out to, each with its own threshold.
#[derive(Clone, Debug)]
pub struct SinkConfig {
    pub stdout_level: Option<Severity>,
    pub stderr_level: Option<Severity>,
    pub file: Option<FileSink>,
}

/// The threshold of target `t`, where `cfg` sets one up.
pub open spec fn target_level(cfg: SinkConfig, t: Target) -> Option<Severity> {
    match t {
        Target::Stdout => cfg.stdout_level,
        Target::Stderr => cfg.stderr_level,
        Target::File => match cfg.file {
            Some(f) => Some(f.level),
            None => None,
        },
    }
}

/// Target `t` is set up and writes events of `level`.
pub open spec fn writes_to(cfg: SinkConfig, t: Target, level: Severity) -> bool {
    match target_level(cfg, t) {
        Some(threshold) => admits(threshold, level),
        None => false,
    }
}

/// `seq![t]` where `b` holds, else the empty sequence.
pub open spec fn target_if(b: bool, t: Target) -> Seq<Target> {
    if b {
        seq![t]
    } else {
        Seq::empty()
    }
}

/// The targets that write an event of `level`, in the order stdout, stderr, file.
pub open spec fn targets_for(cfg: SinkConfig, level: Severity) -> Seq<Target> {
    target_if(writes_to(cfg, Target::Stdout, level), Target::Stdout) + target_if(
        writes_to(cfg, Target::Stderr, level),
        Target::Stderr,
    ) + target_if(writes_to(cfg, Target::File, level), Target::File)
}

/// Every target that `cfg` sets up, in the order stdout, stderr, file.
pub open spec fn configured_targets(cfg: SinkConfig) -> Seq<Target> {
    target_if(cfg.stdout_level is Some, Target::Stdout) + target_if(
        cfg.stderr_level is Some,
        Target::Stderr,
    ) + target_if(cfg.file is Some, Target::File)
}

/// The lines that handling `cmd` sends to target `t`.
pub open spec fn step_lines<A>(cfg: SinkConfig, t: Target, cmd: Command<A>) -> Seq<Seq<char>> {
    match cmd {
        Command::Data(e) => if writes_to(cfg, t, e.level) {
            seq![line_text(e.timestamp_ns, e.level, e.message@)]
        } else {
            Seq::empty()
        },
        _ => Seq::empty(),
    }
}

/// What target `t` holds after the writer has handled `cmds` in order.
pub open spec fn sink_lines<A>(cfg: SinkConfig, t: Target, cmds: Seq<Command<A>>) -> Seq<
    Seq<char>,
>
    decreases cmds.len(),
{
    if cmds.len() == 0 {
        Seq::empty()
    } else {
        sink_lines(cfg, t, cmds.drop_last()) + step_lines(cfg, t, cmds.last())
    }
}

/// The commands that carry `events`, in order.
pub open spec fn data_commands<A>(events: Seq<LogEvent>) -> Seq<Command<A>> {
    events.map_values(|e: LogEvent| Command::<A>::Data(e))
}

/// The lines of `events`, in order.
pub open spec fn event_lines(events: Seq<LogEvent>) -> Seq<Seq<char>> {
    events.map_values(|e: LogEvent| line_text(e.timestamp_ns, e.level, e.message@))
}

proof fn lemma_data_lines<A>(cfg: SinkConfig, t: Target, events: Seq<LogEvent>)
    requires
        forall|i: int| 0 <= i < events.len() ==> writes_to(cfg, t, #[trigger] events[i].level),
    ensures
        sink_lines(cfg, t, data_commands::<A>(events)) == event_lines(events),
    decreases events.len(),
{
    if events.len() > 0 {
        let front = events.drop_last();
        assert(data_commands::<A>(events).drop_last() =~= data_commands::<A>(front));
        assert forall|i: int| 0 <= i < front.len() implies writes_to(cfg, t, #[trigger] front[i].level) by {
            assert(front[i] == events[i]);
        }
        lemma_data_lines::<A>(cfg, t, front);
        assert(event_lines(events) =~= event_lines(front).push(
            line_text(events.last().timestamp_ns, events.last().level, events.last().message@),
        ));
    }
}

/// Over the writer's steps (`sink_lines`, what a target holds once the
/// driver has carried out `handle`'s steps in order): events handed to the
/// writer and then a shutdown leave on a target that admits them all exactly
/// their lines, one each, in the order handed over. That the driver carries the
/// steps out, and that the queue delivers in order, is not stated here.
pub proof fn lemma_drain_then_stop<A>(cfg: SinkConfig, t: Target, events: Seq<LogEvent>)
    requires
        forall|i: int| 0 <= i < events.len() ==> writes_to(cfg, t, #[trigger] events[i].level),
    ensures
        sink_lines(cfg, t, data_commands::<A>(events).push(Command::Shutdown)) == event_lines(
            events,
        ),
        event_lines(events).len() == events.len(),
{
    lemma_data_lines::<A>(cfg, t, events);
    assert(data_commands::<A>(events).push(Command::Shutdown).drop_last() =~= data_commands::<A>(
        events,
    ));
    assert(sink_lines(cfg, t, data_commands::<A>(events).push(Command::Shutdown)) =~= event_lines(
        events,
    ));
}

/// Over the writer's steps: a flush handed to the writer after some events is
/// handled when a target that admits them all holds exactly their lines,
/// whatever follows the flush. That the acknowledgement is sent only then is
/// up to the driver, which sends it when it carries out the flush step.
pub proof fn lemma_flush_after_events<A>(
    cfg: SinkConfig,
    t: Target,
    events: Seq<LogEvent>,
    ack: A,
    later: Seq<Command<A>>,
)
    requires
        forall|i: int| 0 <= i < events.len() ==> writes_to(cfg, t, #[trigger] events[i].level),
    ensures
        ({
            let cmds = data_commands::<A>(events).push(Command::Flush(ack)) + later;
            &&& cmds[events.len() as int] == Command::Flush(ack)
            &&& sink_lines(cfg, t, cmds.take(events.len() as int + 1)) == event_lines(events)
        }),
{
    let cmds = data_commands::<A>(events).push(Command::Flush(ack)) + later;
    lemma_data_lines::<A>(cfg, t, events);
    assert(cmds.take(events.len() as int + 1) =~= data_commands::<A>(events).push(Command::Flush(ack)));
    assert(cmds.take(events.len() as int + 1).drop_last() =~= data_commands::<A>(events));
    assert(sink_lines(cfg, t, cmds.take(events.len() as int + 1)) =~= event_lines(events));
}

/// Over the writer's steps and the model of live reads (`is_live_history`,
/// which no executable contract establishes for `AtomicTime`): events
/// stamped by live reads of one clock that complete one after another, handed
/// to the writer and followed by a shutdown, leave on a target that admits
/// them all one line each, in order, and the timestamps at the head of those
/// lines strictly increase.
pub proof fn lemma_logged_lines_in_order<A>(
    cfg: SinkConfig,
    t: Target,
    events: Seq<LogEvent>,
    start: u64,
    walls: Seq<u64>,
    installed: Seq<u64>,
)
    requires
        is_live_history(start, walls, installed),
        forall|i: int| 0 <= i < installed.len() ==> installed[i] < u64::MAX,
        events.len() == installed.len(),
        forall|i: int| 0 <= i < events.len() ==> #[trigger] events[i].timestamp_ns == installed[i],
        forall|i: int| 0 <= i < events.len() ==> writes_to(cfg, t, #[trigger] events[i].level),
    ensures
        sink_lines(cfg, t, data_commands::<A>(events).push(Command::Shutdown)) == event_lines(
            events,
        ),
        event_lines(events).len() == events.len(),
        forall|i: int, j: int|
            0 <= i < j < events.len() ==> events[i].timestamp_ns < events[j].timestamp_ns,
{
    lemma_drain_then_stop::<A>(cfg, t, events);
    lemma_live_reads_increase(start, walls, installed);
}

impl FileSink {
    /// The path of the file that lines are appended to: `<dir>/<prefix>.log`.
    pub fn path(&self) -> (r: String)
        ensures
            r@ == self.dir@ + seq!['/'] + self.prefix@ + seq!['.', 'l', 'o', 'g'],
    {
        let mut s = self.dir.clone();
        proof {
            reveal_strlit("/");
            reveal_strlit(".log");
        }
        s.append("/");
        s.append(self.prefix.as_str());
        s.append(".log");
        s
    }
}

impl SinkConfig {
    /// The threshold of target `t`, where one is set up.
    pub fn level_of(&self, t: Target) -> (r: Option<Severity>)
        ensures
            r == target_level(*self, t),
    {
        match t {
            Target::Stdout => self.stdout_level,
            Target::Stderr => self.stderr_level,
            Target::File => match &self.file {
                Some(f) => Some(f.level),
                None => None,
            },
        }
    }

    /// Whether target `t` writes an event of `level`.
    pub fn writes_to(&self, t: Target, level: Severity) -> (r: bool)
        ensures
            r == writes_to(*self, t, level),
    {
        match self.level_of(t) {
            Some(threshold) => threshold.admits(level),
            None => false,
        }
    }

    /// The targets that write an event of `level`.
    pub fn targets_for(&self, level: Severity) -> (r: Vec<Target>)
        ensures
            r@ == targets_for(*self, level),
    {
        let mut r: Vec<Target> = Vec::new();
        if self.writes_to(Target::Stdout, level) {
            r.push(Target::Stdout);
        }
        if self.writes_to(Target::Stderr, level) {
            r.push(Target::Stderr);
        }
        if self.writes_to(Target::File, level) {
            r.push(Target::File);
        }
        assert(r@ =~= targets_for(*self, level));
        r
    }

    /// Every target that is set up.
    pub fn targets(&self) -> (r: Vec<Target>)
        ensures
            r@ == configured_targets(*self),
    {
        let mut r: Vec<Target> = Vec::new();
        if self.stdout_level.is_some() {
            r.push(Target::Stdout);
        }
        if self.stderr_level.is_some() {
            r.push(Target::Stderr);
        }
        if self.file.is_some() {
            r.push(Target::File);
        }
        assert(r@ =~= configured_targets(*self));
        r
    }
}

/// What the writer's driver does next, after the writer has handled a command.
pub enum Step<A> {
    /// Write `line` to each of `targets`, in order.
    Write { line: String, targets: Vec<Target> },
    /// Flush each of `targets`, then hand `ack` back to the one who asked.
    Flush { ack: A, targets: Vec<Target> },
    /// Flush each of `targets`, then stop.
    Stop { targets: Vec<Target> },
}

/// The single consumer of the handoff queue: decides, command by command,
/// what is written where.
pub struct LogWriter {
    config: SinkConfig,
    running: bool,
}

impl LogWriter {
    pub closed spec fn spec_config(&self) -> SinkConfig {
        self.config
    }

    pub closed spec fn is_running(&self) -> bool {
        self.running
    }

    pub fn new(config: SinkConfig) -> (r: LogWriter)
        ensures
            r.spec_config() == config,
            r.is_running(),
    {
        LogWriter { config, running: true }
    }

    pub fn config(&self) -> (r: &SinkConfig)
        ensures
            *r == self.spec_config(),
    {
        &self.config
    }

    pub fn running(&self) -> (r: bool)
        ensures
            r == self.is_running(),
    {
        self.running
    }

    /// Handles one command taken off the queue.
    ///
    /// Data becomes one line for each target whose threshold admits it; a
    /// flush asks for every target to be flushed before the acknowledgement
    /// goes back; a shutdown asks for the same and stops the writer.
    pub fn handle<A>(&mut self, cmd: Command<A>) -> (r: Step<A>)
        requires
            old(self).is_running(),
        ensures
            final(self).spec_config() == old(self).spec_config(),
            final(self).is_running() == !(cmd is Shutdown),
            match cmd {
                Command::Data(e) => match r {
                    Step::Write { line, targets } => line@ == line_text(
                        e.timestamp_ns,
                        e.level,
                        e.message@,
                    ) && targets@ == targets_for(old(self).spec_config(), e.level),
                    _ => false,
                },
                Command::Flush(a) => match r {
                    Step::Flush { ack, targets } => ack == a && targets@ == configured_targets(
                        old(self).spec_config(),
                    ),
                    _ => false,
                },
                Command::Shutdown => match r {
                    Step::Stop { targets } => targets@ == configured_targets(
                        old(self).spec_config(),
                    ),
                    _ => false,
                },
            },
    {
        match cmd {
            Command::Data(e) => {
                let line = e.line();
                let targets = self.config.targets_for(e.level);
                Step::Write { line, targets }
            },
            Command::Flush(a) => Step::Flush { ack: a, targets: self.config.targets() },
            Command::Shutdown => {
                self.running = false;
                Step::Stop { targets: self.config.targets() }
            },
        }
    }
}

} // verus!
