//! Severity levels, log records and loggers.

use vstd::prelude::*;
use std::cmp::Ordering;
use crate::sinks::Sink;

verus! {

/// A logging severity level, ordered from `DEBUG` (lowest) to `CRITICAL`
/// (highest).
#[derive(Clone, Copy, Debug, Hash, PartialEq, Eq, Structural, Ord)]
pub enum Level {
    /// Severity level `DEBUG`.
    DEBUG,
    /// Severity level `INFO`.
    INFO,
    /// Severity level `WARNING`.
    WARNING,
    /// Severity level `ERROR`.
    ERROR,
    /// Severity level `CRITICAL`.
    CRITICAL,
}

impl Level {
    /// The position of the level in the severity order.
    pub open spec fn rank(self) -> int {
        match self {
            Level::DEBUG => 0,
            Level::INFO => 1,
            Level::WARNING => 2,
            Level::ERROR => 3,
            Level::CRITICAL => 4,
        }
    }

    /// The upper-case name of the level.
    pub open spec fn name(self) -> Seq<char> {
        match self {
            Level::DEBUG => "DEBUG"@,
            Level::INFO => "INFO"@,
            Level::WARNING => "WARNING"@,
            Level::ERROR => "ERROR"@,
            Level::CRITICAL => "CRITICAL"@,
        }
    }

    /// Returns the textual representation of the level.
    pub fn as_str(&self) -> (r: &'static str)
        ensures
            r@ == self.name(),
    {
        match self {
            Level::DEBUG => "DEBUG",
            Level::INFO => "INFO",
            Level::WARNING => "WARNING",
            Level::ERROR => "ERROR",
            Level::CRITICAL => "CRITICAL",
        }
    }

    fn ordinal(&self) -> (r: u8)
        ensures
            r as int == self.rank(),
    {
        match self {
            Level::DEBUG => 0,
            Level::INFO => 1,
            Level::WARNING => 2,
            Level::ERROR => 3,
            Level::CRITICAL => 4,
        }
    }
}

/// The comparison of two ranks.
pub open spec fn compare_ranks(a: int, b: int) -> Ordering {
    if a < b {
        Ordering::Less
    } else if a == b {
        Ordering::Equal
    } else {
        Ordering::Greater
    }
}

impl PartialOrd for Level {
    fn partial_cmp(&self, other: &Level) -> (r: Option<Ordering>)
        ensures
            r == Some(compare_ranks(self.rank(), other.rank())),
    {
        let a = self.ordinal();
        let b = other.ordinal();
        if a < b {
            Some(Ordering::Less)
        } else if a == b {
            Some(Ordering::Equal)
        } else {
            Some(Ordering::Greater)
        }
    }
}

impl vstd::std_specs::cmp::PartialOrdSpecImpl for Level {
    open spec fn obeys_partial_cmp_spec() -> bool {
        true
    }

    open spec fn partial_cmp_spec(&self, other: &Level) -> Option<Ordering> {
        Some(compare_ranks(self.rank(), other.rank()))
    }
}

/// A point in time, as a whole number of seconds away from the Unix epoch.
#[derive(Clone, Copy, Debug, PartialEq, Eq, Structural)]
pub struct Timestamp {
    /// Whether the point lies before the epoch.
    pub before_epoch: bool,
    /// The whole seconds between the point and the epoch.
    pub secs: u64,
}

/// The largest value of `i64`.
pub open spec fn i64_max() -> int {
    0x7fff_ffff_ffff_ffff
}

impl Timestamp {
    /// Signed seconds since the epoch, negative before it; a distance that
    /// does not fit in `i64` is cut to `i64::MAX` seconds.
    pub open spec fn unix_seconds(self) -> int {
        let magnitude = if self.secs > i64_max() {
            i64_max()
        } else {
            self.secs as int
        };
        if self.before_epoch {
            -magnitude
        } else {
            magnitude
        }
    }

    /// Returns the signed seconds since the epoch, negative before it.
    pub fn secs_since_epoch(&self) -> (r: i64)
        ensures
            r == self.unix_seconds(),
    {
        let magnitude: i64 = if self.secs > 0x7fff_ffff_ffff_ffffu64 {
            0x7fff_ffff_ffff_ffffi64
        } else {
            self.secs as i64
        };
        if self.before_epoch {
            -magnitude
        } else {
            magnitude
        }
    }
}

/// A log message with its metadata.
#[derive(Clone, Debug)]
pub struct LogObject {
    /// The ID of the channel the record comes from; the main channel is `0`.
    pub channel_id: usize,
    /// The message, already formatted.
    pub message: String,
    /// The severity level of the message.
    pub severity: Level,
    /// The identity of the thread that logged the message.
    pub thread_id: u64,
    /// The moment the record was created.
    pub time: Timestamp,
}

impl LogObject {
    /// Constructs a record from its channel, severity and message and the
    /// thread identity and time it was logged at.
    pub fn new(
        channel_id: usize,
        severity: Level,
        message: String,
        thread_id: u64,
        time: Timestamp,
    ) -> (r: LogObject)
        ensures
            r == (LogObject { channel_id, message, severity, thread_id, time }),
    {
        LogObject { channel_id, message, severity, thread_id, time }
    }
}

/// Gives the thread identity and the time that records are stamped with.
pub trait Clock {
    /// The identity of the calling thread.
    fn thread_id(&self) -> u64;

    /// The current time.
    fn now(&self) -> Timestamp;
}

/// A clock that always gives the same thread identity and time.
#[derive(Clone, Copy, Debug, PartialEq, Eq, Structural)]
pub struct FixedClock {
    /// The thread identity given.
    pub thread_id: u64,
    /// The time given.
    pub time: Timestamp,
}

impl Clock for FixedClock {
    fn thread_id(&self) -> (r: u64)
        ensures
            r == self.thread_id,
    {
        self.thread_id
    }

    fn now(&self) -> (r: Timestamp)
        ensures
            r == self.time,
    {
        self.time
    }
}

/// Something that logs messages with a severity level.
pub trait Logger: Sized {
    /// How the logger after logging `message` at `severity` relates to the
    /// logger before. A logger implemented outside verified code keeps this
    /// default, which claims nothing.
    open spec fn logs(before: Self, severity: Level, message: Seq<char>, after: Self) -> bool {
        true
    }

    /// Logs `message` with the given severity.
    fn log(&mut self, severity: Level, message: &str)
        ensures
            Self::logs(*old(self), severity, message@, *final(self)),
    ;

    /// Logs `message` with severity `DEBUG`.
    fn debug(&mut self, message: &str)
        ensures
            Self::logs(*old(self), Level::DEBUG, message@, *final(self)),
    {
        self.log(Level::DEBUG, message)
    }

    /// Logs `message` with severity `INFO`.
    fn info(&mut self, message: &str)
        ensures
            Self::logs(*old(self), Level::INFO, message@, *final(self)),
    {
        self.log(Level::INFO, message)
    }

    /// Logs `message` with severity `WARNING`.
    fn warning(&mut self, message: &str)
        ensures
            Self::logs(*old(self), Level::WARNING, message@, *final(self)),
    {
        self.log(Level::WARNING, message)
    }

    /// Logs `message` with severity `ERROR`.
    fn error(&mut self, message: &str)
        ensures
            Self::logs(*old(self), Level::ERROR, message@, *final(self)),
    {
        self.log(Level::ERROR, message)
    }

    /// Logs `message` with severity `CRITICAL`.
    fn critical(&mut self, message: &str)
        ensures
            Self::logs(*old(self), Level::CRITICAL, message@, *final(self)),
    {
        self.log(Level::CRITICAL, message)
    }
}

/// A logger that hands every message to two loggers, the first one first.
#[derive(Clone, Copy, Debug, Default, Hash)]
pub struct MultiLogger<T1: Logger, T2: Logger>(pub T1, pub T2);

impl<T1: Logger, T2: Logger> Logger for MultiLogger<T1, T2> {
    /// Each of the two loggers logs the message.
    open spec fn logs(before: Self, severity: Level, message: Seq<char>, after: Self) -> bool {
        &&& T1::logs(before.0, severity, message, after.0)
        &&& T2::logs(before.1, severity, message, after.1)
    }

    fn log(&mut self, severity: Level, message: &str) {
        self.0.log(severity, message);
        self.1.log(severity, message);
    }
}

/// A logger that owns its sink and logs on the main channel, `0`. It is
/// meant for one thread: logging needs exclusive access to it.
#[derive(Clone, Copy, Debug, Default)]
pub struct SimpleLogger<S: Sink, C: Clock> {
    sink: S,
    clock: C,
}

/// A logger that logs on one channel, through the sink of the
/// [SimpleLogger] it was made from.
#[derive(Debug)]
pub struct ChannelLogger<'a, S: Sink, C: Clock> {
    /// The channel records are logged on.
    pub channel_id: usize,
    /// The parent logger's sink.
    pub sink: &'a mut S,
    /// The parent logger's clock.
    pub clock: &'a C,
}

/// Whether `sink_after` is `sink_before` after it consumed a record on
/// `channel_id` with the given severity and message.
pub open spec fn dispatched<S: Sink>(
    sink_before: S,
    channel_id: usize,
    severity: Level,
    message: Seq<char>,
    sink_after: S,
) -> bool {
    exists|log_object: LogObject|
        {
            &&& log_object.channel_id == channel_id
            &&& log_object.severity == severity
            &&& log_object.message@ == message
            &&& #[trigger] S::consumes(sink_before, log_object, sink_after)
        }
}

impl<S: Sink, C: Clock> SimpleLogger<S, C> {
    /// The logger's sink.
    pub closed spec fn held_sink(self) -> S {
        self.sink
    }

    /// The logger's clock.
    pub closed spec fn held_clock(self) -> C {
        self.clock
    }

    /// Constructs a logger over a sink, stamping records by a clock.
    pub fn new(sink: S, clock: C) -> (r: Self)
        ensures
            r.held_sink() == sink,
            r.held_clock() == clock,
    {
        SimpleLogger { sink, clock }
    }

    /// Constructs a logger on the given channel, through this logger's sink.
    pub fn channel(&mut self, channel_id: usize) -> (r: ChannelLogger<'_, S, C>)
        ensures
            r.channel_id == channel_id,
            *r.sink == old(self).held_sink(),
            *r.clock == old(self).held_clock(),
            final(self).held_sink() == *final(r.sink),
            final(self).held_clock() == old(self).held_clock(),
    {
        ChannelLogger { channel_id, sink: &mut self.sink, clock: &self.clock }
    }

    /// Grants access to the sink.
    pub fn sink(&mut self) -> (r: &mut S)
        ensures
            *r == old(self).held_sink(),
            final(self).held_sink() == *final(r),
            final(self).held_clock() == old(self).held_clock(),
    {
        &mut self.sink
    }

    /// Consumes the logger, returning its sink.
    pub fn into_sink(self) -> (r: S)
        ensures
            r == self.held_sink(),
    {
        self.sink
    }
}

impl<S: Sink, C: Clock> Logger for SimpleLogger<S, C> {
    /// The sink consumes a record on channel `0` with the given severity and
    /// message; the clock stays.
    open spec fn logs(before: Self, severity: Level, message: Seq<char>, after: Self) -> bool {
        &&& after.held_clock() == before.held_clock()
        &&& dispatched(before.held_sink(), 0, severity, message, after.held_sink())
    }

    fn log(&mut self, severity: Level, message: &str) {
        let log_object = LogObject::new(
            0,
            severity,
            message.to_owned(),
            self.clock.thread_id(),
            self.clock.now(),
        );
        self.sink.consume(&log_object);
    }
}

impl<'a, S: Sink, C: Clock> ChannelLogger<'a, S, C> {
    /// Returns the channel the logger logs on.
    pub fn id(&self) -> (r: usize)
        ensures
            r == self.channel_id,
    {
        self.channel_id
    }

    /// Grants access to the sink.
    pub fn sink(&mut self) -> (r: &mut S)
        ensures
            *r == *old(self).sink,
            *final(self).sink == *final(r),
            *final(final(self).sink) == *final(old(self).sink),
            final(self).channel_id == old(self).channel_id,
            final(self).clock == old(self).clock,
    {
        &mut *self.sink
    }
}

impl<'a, S: Sink, C: Clock> Logger for ChannelLogger<'a, S, C> {
    /// The sink consumes a record on the logger's channel with the given
    /// severity and message; the channel and the clock stay.
    open spec fn logs(before: Self, severity: Level, message: Seq<char>, after: Self) -> bool {
        &&& after.channel_id == before.channel_id
        &&& after.clock == before.clock
        &&& dispatched(*before.sink, before.channel_id, severity, message, *after.sink)
    }

    /// What the logger's sink is at the end of the borrow stays that of the
    /// parent logger.
    fn log(&mut self, severity: Level, message: &str)
        ensures
            *final(final(self).sink) == *final(old(self).sink),
    {
        let log_object = LogObject::new(
            self.channel_id,
            severity,
            message.to_owned(),
            self.clock.thread_id(),
            self.clock.now(),
        );
        self.sink.consume(&log_object);
    }

    fn debug(&mut self, message: &str)
        ensures
            *final(final(self).sink) == *final(old(self).sink),
    {
        self.log(Level::DEBUG, message)
    }

    fn info(&mut self, message: &str)
        ensures
            *final(final(self).sink) == *final(old(self).sink),
    {
        self.log(Level::INFO, message)
    }

    fn warning(&mut self, message: &str)
        ensures
            *final(final(self).sink) == *final(old(self).sink),
    {
        self.log(Level::WARNING, message)
    }

    fn error(&mut self, message: &str)
        ensures
            *final(final(self).sink) == *final(old(self).sink),
    {
        self.log(Level::ERROR, message)
    }

    fn critical(&mut self, message: &str)
        ensures
            *final(final(self).sink) == *final(old(self).sink),
    {
        self.log(Level::CRITICAL, message)
    }
}

} // verus!
