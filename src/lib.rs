//! A monotonic nanosecond clock and a logging pipeline that hands events
//! from many producer threads to one writer through a bounded queue, together
//! with the identifier types that the trading core passes around.

pub mod clock;
pub mod event;
pub mod identifiers;
pub mod logger;
pub mod queue;
pub mod severity;
pub mod wall;
pub mod writer;
