use std::sync::mpsc::{sync_channel, Receiver};

use nautilus_core::event::{decimal, Command, LogEvent};
use nautilus_core::logger::{LogCommand, LogError, Logger, TempLogger};
use nautilus_core::severity::Severity;
use nautilus_core::writer::{FileSink, LogWriter, SinkConfig, Step, Target};

fn stdout_only(level: Severity) -> SinkConfig {
    SinkConfig { stdout_level: Some(level), stderr_level: None, file: None }
}

/// Drives a writer over what is queued, as the worker thread does, and
/// returns the lines each target received, until the writer stops or the
/// queue is empty.
fn drain(rx: &Receiver<LogCommand>, writer: &mut LogWriter) -> Vec<(Target, String)> {
    let mut sink = Vec::new();
    while writer.running() {
        let cmd = match rx.try_recv() {
            Ok(cmd) => cmd,
            Err(_) => break,
        };
        match writer.handle(cmd) {
            Step::Write { line, targets } => {
                for t in targets {
                    sink.push((t, line.clone()));
                }
            }
            Step::Flush { ack, .. } => {
                ack.send(()).unwrap();
            }
            Step::Stop { .. } => {}
        }
    }
    sink
}

fn timestamp_of(line: &str) -> u64 {
    line.split(' ').next().unwrap().parse().unwrap()
}

#[test]
fn info_threshold_scenario() {
    let (tx, rx) = sync_channel(16);
    let logger = Logger::new(tx);
    let mut writer = LogWriter::new(stdout_only(Severity::Info));
    logger.log(Severity::Info, "hi".to_string()).unwrap();
    logger.log(Severity::Debug, "bye".to_string()).unwrap();
    logger.log(Severity::Error, "sigh".to_string()).unwrap();
    logger.shutdown().unwrap();
    let sink = drain(&rx, &mut writer);
    assert!(!writer.running());
    assert_eq!(sink.len(), 2);
    assert_eq!(sink[0].0, Target::Stdout);
    assert!(sink[0].1.ends_with(" INFO hi"));
    assert!(sink[1].1.ends_with(" ERROR sigh"));
    assert!(timestamp_of(&sink[0].1) < timestamp_of(&sink[1].1));
}

#[test]
fn k_logs_then_shutdown_gives_k_lines_in_order() {
    let (tx, rx) = sync_channel(200);
    let logger = Logger::new(tx);
    let mut writer = LogWriter::new(stdout_only(Severity::Debug));
    for i in 0..100 {
        logger.log(Severity::Warn, format!("m{}", i)).unwrap();
    }
    logger.shutdown().unwrap();
    let sink = drain(&rx, &mut writer);
    assert_eq!(sink.len(), 100);
    for (i, (_, line)) in sink.iter().enumerate() {
        assert!(line.ends_with(&format!(" WARN m{}", i)));
        if i > 0 {
            assert!(timestamp_of(&sink[i - 1].1) < timestamp_of(line));
        }
    }
}

#[test]
fn flush_is_answered_after_earlier_lines() {
    let (tx, rx) = sync_channel(32);
    let logger = Logger::new(tx.clone());
    let mut writer = LogWriter::new(stdout_only(Severity::Debug));
    for i in 0..5 {
        logger.log(Severity::Info, format!("e{}", i)).unwrap();
    }
    let (ack_tx, ack_rx) = sync_channel(1);
    tx.send(Command::Flush(ack_tx)).unwrap();
    logger.log(Severity::Info, "later".to_string()).unwrap();
    let mut sink = Vec::new();
    let mut lines_at_flush = None;
    for _ in 0..7 {
        match writer.handle(rx.try_recv().unwrap()) {
            Step::Write { line, targets } => {
                for _ in targets {
                    sink.push(line.clone());
                }
            }
            Step::Flush { ack, targets } => {
                assert_eq!(targets, vec![Target::Stdout]);
                lines_at_flush = Some(sink.len());
                ack.send(()).unwrap();
            }
            Step::Stop { .. } => panic!("no shutdown was sent"),
        }
    }
    assert_eq!(lines_at_flush, Some(5));
    assert_eq!(ack_rx.try_recv(), Ok(()));
    assert_eq!(sink.len(), 6);
    assert!(writer.running());
}

#[test]
fn logging_after_writer_is_gone_fails() {
    let (tx, rx) = sync_channel::<LogCommand>(4);
    let logger = Logger::new(tx);
    drop(rx);
    assert_eq!(logger.log(Severity::Info, "x".to_string()), Err(LogError::Closed));
    assert_eq!(logger.flush(), Err(LogError::Closed));
    assert_eq!(logger.shutdown(), Err(LogError::Closed));
}

#[test]
fn logger_enables_every_level() {
    let (tx, _rx) = sync_channel::<LogCommand>(0);
    let logger = Logger::new(tx);
    assert!(logger.enabled(Severity::Debug));
    assert!(logger.enabled(Severity::Error));
}

#[test]
fn event_is_stamped_by_the_clock() {
    let (tx, _rx) = sync_channel::<LogCommand>(0);
    let clock = nautilus_core::clock::AtomicTime::new(false, 77);
    let logger = Logger::with_clock(tx, clock);
    let e = logger.event(Severity::Warn, "w".to_string());
    assert_eq!(e, LogEvent::new(77, Severity::Warn, "w".to_string()));
    let (tx, rx) = sync_channel::<LogCommand>(1);
    let logger = Logger::new(tx);
    logger.log(Severity::Info, "first".to_string()).unwrap();
    match rx.try_recv() {
        Ok(Command::Data(e)) => {
            assert!(e.timestamp_ns > 1_500_000_000_000_000_000);
            assert_eq!(e.message, "first");
        }
        _ => panic!("the logger must feed the queue it was given"),
    }
}

#[test]
fn line_format() {
    let e = LogEvent::new(1234, Severity::Debug, "hello world".to_string());
    assert_eq!(e.line(), "1234 DEBUG hello world");
    let e = LogEvent::new(0, Severity::Error, String::new());
    assert_eq!(e.line(), "0 ERROR ");
}

#[test]
fn decimal_digits() {
    assert_eq!(decimal(0), "0");
    assert_eq!(decimal(7), "7");
    assert_eq!(decimal(120), "120");
    assert_eq!(decimal(u64::MAX), "18446744073709551615");
}

#[test]
fn severity_names_and_order() {
    assert_eq!(Severity::Debug.name(), "DEBUG");
    assert_eq!(Severity::Info.name(), "INFO");
    assert_eq!(Severity::Warn.name(), "WARN");
    assert_eq!(Severity::Error.name(), "ERROR");
    assert!(Severity::Info.admits(Severity::Error));
    assert!(Severity::Info.admits(Severity::Info));
    assert!(!Severity::Info.admits(Severity::Debug));
    assert!(!Severity::Error.admits(Severity::Warn));
}

#[test]
fn fan_out_with_independent_thresholds() {
    let cfg = SinkConfig {
        stdout_level: Some(Severity::Debug),
        stderr_level: Some(Severity::Error),
        file: Some(FileSink { dir: "logs".to_string(), prefix: "app".to_string(), level: Severity::Warn }),
    };
    assert_eq!(cfg.targets_for(Severity::Debug), vec![Target::Stdout]);
    assert_eq!(cfg.targets_for(Severity::Warn), vec![Target::Stdout, Target::File]);
    assert_eq!(cfg.targets_for(Severity::Error), vec![Target::Stdout, Target::Stderr, Target::File]);
    assert_eq!(cfg.targets(), vec![Target::Stdout, Target::Stderr, Target::File]);
    assert_eq!(cfg.level_of(Target::File), Some(Severity::Warn));
    assert!(!cfg.writes_to(Target::Stderr, Severity::Warn));
}

#[test]
fn no_targets_configured() {
    let cfg = SinkConfig { stdout_level: None, stderr_level: None, file: None };
    assert!(cfg.targets().is_empty());
    assert!(cfg.targets_for(Severity::Error).is_empty());
    let mut writer = LogWriter::new(cfg);
    match writer.handle::<()>(Command::Data(LogEvent::new(1, Severity::Error, "x".to_string()))) {
        Step::Write { targets, .. } => assert!(targets.is_empty()),
        _ => panic!("data must give a write"),
    }
}

#[test]
fn shutdown_stops_writer() {
    let mut writer = LogWriter::new(stdout_only(Severity::Warn));
    assert!(writer.running());
    match writer.handle::<()>(Command::Shutdown) {
        Step::Stop { targets } => assert_eq!(targets, vec![Target::Stdout]),
        _ => panic!("shutdown must stop"),
    }
    assert!(!writer.running());
    assert_eq!(writer.config().stdout_level, Some(Severity::Warn));
}

#[test]
fn file_sink_path() {
    let f = FileSink { dir: "/var/log".to_string(), prefix: "trader".to_string(), level: Severity::Info };
    assert_eq!(f.path(), "/var/log/trader.log");
}

#[test]
fn temp_logger_tags_messages() {
    let t = TempLogger::new("RiskEngine".to_string());
    assert_eq!(t.tagged("started"), "RiskEngine: started");
}
