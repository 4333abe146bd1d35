use vstd::prelude::*;
use vstd::string::StringExecFns;

use std::sync::mpsc::SyncSender;

use crate::clock::AtomicTime;
use crate::event::{Command, LogEvent};
use crate::severity::Severity;

verus! {

/// The acknowledgement that travels with a flush: the writer sends `()` on it
/// once everything queued before the flush is written.
pub type FlushAck = SyncSender<()>;

/// What the writer's queue carries.
pub type LogCommand = Command<FlushAck>;

/// Why a call on the logger did not go through.
#[derive(Clone, Copy, Debug, PartialEq, Eq, Structural, Hash)]
pub enum LogError {
    /// The writer has shut down: nothing receives commands any more.
    Closed,
}

/// The producer side of the pipeline: stamps each call with the clock and
/// hands it to the writer through the bounded queue.
pub struct Logger {
    time: AtomicTime,
    tx: SyncSender<LogCommand>,
}

impl Logger {
    /// The producer end of the queue that this logger feeds.
    pub closed spec fn sender(&self) -> SyncSender<LogCommand> {
        self.tx
    }

    /// The clock that stamps this logger's events.
    pub closed spec fn clock(&self) -> AtomicTime {
        self.time
    }

    /// A logger on a fresh live clock, starting from 0, that feeds the queue
    /// behind `tx`.
    pub fn new(tx: SyncSender<LogCommand>) -> (r: Logger)
        ensures
            r.sender() == tx,
    {
        Logger { time: AtomicTime::new(true, 0), tx }
    }

    /// A logger that stamps events with `time`, shared with its other clones,
    /// and feeds the queue behind `tx`.
    pub fn with_clock(tx: SyncSender<LogCommand>, time: AtomicTime) -> (r: Logger)
        ensures
            r.sender() == tx,
            r.clock() == time,
    {
        Logger { time, tx }
    }

    /// Every severity is logged; filtering happens at each target.
    pub fn enabled(&self, level: Severity) -> (r: bool)
        ensures
            r,
    {
        true
    }

    /// The event for a call at `level` with `message`, stamped now.
    pub fn event(&self, level: Severity, message: String) -> (r: LogEvent)
        ensures
            r.level == level,
            r.message@ == message@,
    {
        LogEvent::new(self.time.get_time_ns(), level, message)
    }

    /// Queues the event for `level` and `message`, blocking while the queue is
    /// full. Fails only once the writer is gone.
    pub fn log(&self, level: Severity, message: String) -> (r: Result<(), LogError>) {
        let event = self.event(level, message);
        self.send(Command::Data(event))
    }

    /// Blocks until the writer has written and flushed everything queued
    /// before this call. Fails only once the writer is gone.
    pub fn flush(&self) -> (r: Result<(), LogError>) {
        let (ack_tx, ack_rx) = std::sync::mpsc::sync_channel::<()>(1);
        match self.send(Command::Flush(ack_tx)) {
            Ok(()) => match ack_rx.recv() {
                Ok(()) => Ok(()),
                Err(_) => Err(LogError::Closed),
            },
            Err(e) => Err(e),
        }
    }

    /// Asks the writer to flush and stop. Fails only once the writer is gone.
    pub fn shutdown(&self) -> (r: Result<(), LogError>) {
        self.send(Command::Shutdown)
    }

    fn send(&self, cmd: LogCommand) -> (r: Result<(), LogError>) {
        match self.tx.send(cmd) {
            Ok(()) => Ok(()),
            Err(_) => Err(LogError::Closed),
        }
    }
}

/// Logs on behalf of a named component: each message goes out as
/// `<component>: <message>`.
#[derive(Clone, Debug)]
pub struct TempLogger {
    pub component: String,
}

impl TempLogger {
    pub fn new(component: String) -> (r: TempLogger)
        ensures
            r.component@ == component@,
    {
        TempLogger { component }
    }

    /// The message as it is logged: `<component>: <message>`.
    pub fn tagged(&self, message: &str) -> (r: String)
        ensures
            r@ == self.component@ + seq![':', ' '] + message@,
    {
        let mut s = self.component.clone();
        proof { reveal_strlit(": "); }
        s.append(": ");
        s.append(message);
        s
    }
}

} // verus!
