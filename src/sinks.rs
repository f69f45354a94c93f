//! Sinks: the consumers of log records. A [WriteSink] filters records and
//! writes each accepted one as a line of text; a [MultiSink] hands every
//! record to two sinks.

use vstd::prelude::*;
use vstd::utf8::encode_utf8;
use crate::colors::{
    closed, escape_char, level_color, lemma_strip_color, lemma_strip_join, lemma_strip_plain,
    painted, strip_ansi, Colored, RESET_COLOR, SET_COLOR_BRIGHT_GREEN, SET_COLOR_BRIGHT_WHITE,
};
use crate::filter_maps::ChannelFilterMap;
use crate::loggers::{Level, LogObject};
use crate::text::{digits, push_decimal, push_signed_decimal, signed_digits};
use crate::writers::Write;

verus! {

/// A consumer of log records.
pub trait Sink: Sized {
    /// How the sink after consuming `log_object` relates to the sink before.
    /// A sink implemented outside verified code keeps this default, which
    /// claims nothing.
    open spec fn consumes(before: Self, log_object: LogObject, after: Self) -> bool {
        true
    }

    /// Consumes a record, that is, logs it or drops it.
    fn consume(&mut self, log_object: &LogObject)
        ensures
            Self::consumes(*old(self), *log_object, *final(self)),
    ;
}

/// The thread field of a line without colors: the thread ID in brackets, or
/// nothing.
pub open spec fn thread_field(thread_id: Option<u64>) -> Seq<char> {
    match thread_id {
        Some(t) => "["@ + digits(t as nat) + "]"@,
        None => Seq::empty(),
    }
}

/// The thread field of a colored line: the thread ID in white, in brackets,
/// or nothing.
pub open spec fn colored_thread_field(thread_id: Option<u64>) -> Seq<char> {
    match thread_id {
        Some(t) => "["@ + SET_COLOR_BRIGHT_WHITE@ + digits(t as nat) + RESET_COLOR@ + "]"@,
        None => Seq::empty(),
    }
}

/// A line without colors:
/// `[<thread>][<seconds>][<LEVEL>][<channel>]: <message>` and a newline, the
/// thread field only when a thread ID is given.
pub open spec fn plain_line(
    thread_id: Option<u64>,
    secs: int,
    severity: Level,
    channel: Seq<char>,
    message: Seq<char>,
) -> Seq<char> {
    thread_field(thread_id) + "["@ + signed_digits(secs) + "]["@ + severity.name() + "]["@
        + channel + "]: "@ + message + "\n"@
}

/// A colored line: the fields of [plain_line], the thread ID and the channel
/// in white, the seconds in green and the level in its own color, each
/// followed by a reset.
pub open spec fn colored_line(
    thread_id: Option<u64>,
    secs: int,
    severity: Level,
    channel: Seq<char>,
    message: Seq<char>,
) -> Seq<char> {
    colored_thread_field(thread_id) + "["@ + SET_COLOR_BRIGHT_GREEN@ + signed_digits(secs)
        + RESET_COLOR@ + "]["@ + painted(level_color(severity), severity.name()) + "]["@
        + SET_COLOR_BRIGHT_WHITE@ + channel + RESET_COLOR@ + "]: "@ + message + "\n"@
}

/// A [Sink] that filters records by severity and through a
/// [ChannelFilterMap], and writes each accepted record as one line to a
/// [Write].
#[derive(Clone, Copy, Debug)]
pub struct WriteSink<W: Write, M: ChannelFilterMap> {
    /// The channel filter map used.
    pub channel_map: M,
    /// Whether the output is colored.
    pub colors: bool,
    /// Whether the ID of the logging thread is written.
    pub log_thread_id: bool,
    /// The sink's minimum severity level; records below it are dropped.
    pub min_severity: Level,
    /// Whether the sink is muted; a muted sink drops every record.
    pub muted: bool,
    /// The output the lines are written to.
    pub output: W,
}

impl<W: Write, M: ChannelFilterMap> WriteSink<W, M> {
    /// Whether the sink writes `log_object`: it is not muted, the record is
    /// at or above its minimum severity and the channel filter map accepts
    /// the record.
    pub open spec fn accepts(self, log_object: LogObject) -> bool {
        &&& !self.muted
        &&& log_object.severity.rank() >= self.min_severity.rank()
        &&& self.channel_map.decide(log_object) is Some
    }

    /// The line the sink renders for `log_object`, its channel displayed as
    /// `channel`.
    pub open spec fn line(self, log_object: LogObject, channel: Seq<char>) -> Seq<char> {
        let thread_id = if self.log_thread_id {
            Some(log_object.thread_id)
        } else {
            None
        };
        if self.colors {
            colored_line(
                thread_id,
                log_object.time.unix_seconds(),
                log_object.severity,
                channel,
                log_object.message@,
            )
        } else {
            plain_line(
                thread_id,
                log_object.time.unix_seconds(),
                log_object.severity,
                channel,
                log_object.message@,
            )
        }
    }

    /// Constructs a sink over an output and a channel filter map, colored,
    /// without thread IDs, logging from `DEBUG` on and not muted.
    pub fn new(output: W, channel_map: M) -> (r: Self)
        ensures
            r == (WriteSink {
                channel_map,
                colors: true,
                log_thread_id: false,
                min_severity: Level::DEBUG,
                muted: false,
                output,
            }),
    {
        WriteSink {
            channel_map,
            colors: true,
            log_thread_id: false,
            min_severity: Level::DEBUG,
            muted: false,
            output,
        }
    }

    /// Renders `log_object` as a line, its channel displayed as `channel`.
    pub fn render(&self, log_object: &LogObject, channel: &str) -> (r: String)
        ensures
            r@ == self.line(*log_object, channel@),
    {
        let thread_id = if self.log_thread_id {
            Some(log_object.thread_id)
        } else {
            None
        };
        let secs = log_object.time.secs_since_epoch();
        let mut out = String::new();
        if self.colors {
            if let Some(t) = thread_id {
                out.append("[");
                out.append(SET_COLOR_BRIGHT_WHITE);
                push_decimal(&mut out, t);
                out.append(RESET_COLOR);
                out.append("]");
            }
            assert(out@ =~= colored_thread_field(thread_id));
            out.append("[");
            out.append(SET_COLOR_BRIGHT_GREEN);
            push_signed_decimal(&mut out, secs);
            out.append(RESET_COLOR);
            out.append("][");
            out.append(Colored(log_object.severity).as_str());
            out.append("][");
            out.append(SET_COLOR_BRIGHT_WHITE);
            out.append(channel);
            out.append(RESET_COLOR);
        } else {
            if let Some(t) = thread_id {
                out.append("[");
                push_decimal(&mut out, t);
                out.append("]");
            }
            assert(out@ =~= thread_field(thread_id));
            out.append("[");
            push_signed_decimal(&mut out, secs);
            out.append("][");
            out.append(log_object.severity.as_str());
            out.append("][");
            out.append(channel);
        }
        out.append("]: ");
        out.append(log_object.message.as_str());
        out.append("\n");
        out
    }
}

impl<W: Write, M: ChannelFilterMap> Sink for WriteSink<W, M> {
    /// The configuration and the channel filter map stay; the output takes
    /// the UTF-8 bytes of the record's line when the sink accepts the record,
    /// and stays as it is otherwise.
    open spec fn consumes(before: Self, log_object: LogObject, after: Self) -> bool {
        &&& after.channel_map == before.channel_map
        &&& after.colors == before.colors
        &&& after.log_thread_id == before.log_thread_id
        &&& after.min_severity == before.min_severity
        &&& after.muted == before.muted
        &&& if before.accepts(log_object) {
            W::writes(
                before.output,
                encode_utf8(
                    before.line(log_object, before.channel_map.decide(log_object)->Some_0),
                ),
                after.output,
            )
        } else {
            after.output == before.output
        }
    }

    /// Write failures are ignored: logging never fails its caller.
    fn consume(&mut self, log_object: &LogObject) {
        if self.muted || log_object.severity < self.min_severity {
            return ;
        }
        let channel = match self.channel_map.filter_map(log_object) {
            Some(channel) => channel,
            None => return ,
        };
        let line = self.render(log_object, channel.as_str());
        let _ = self.output.write(line.as_str().as_bytes());
    }
}

/// A [Sink] that hands every record to two sinks, the first one first.
#[derive(Clone, Copy, Debug, Default, Hash)]
pub struct MultiSink<T1: Sink, T2: Sink>(pub T1, pub T2);

impl<T1: Sink, T2: Sink> Sink for MultiSink<T1, T2> {
    /// Each of the two sinks consumes the record.
    open spec fn consumes(before: Self, log_object: LogObject, after: Self) -> bool {
        &&& T1::consumes(before.0, log_object, after.0)
        &&& T2::consumes(before.1, log_object, after.1)
    }

    fn consume(&mut self, log_object: &LogObject) {
        self.0.consume(log_object);
        self.1.consume(log_object);
    }
}

/// A fan-out sink hands the record it consumes to each of its two sinks,
/// which each consume exactly that record once.
pub proof fn lemma_multi_sink_fans_out<T1: Sink, T2: Sink>(
    before: MultiSink<T1, T2>,
    log_object: LogObject,
    after: MultiSink<T1, T2>,
)
    requires
        MultiSink::<T1, T2>::consumes(before, log_object, after),
    ensures
        T1::consumes(before.0, log_object, after.0),
        T2::consumes(before.1, log_object, after.1),
{
}

/// A sink whose minimum severity is above a record's severity leaves its
/// output as it is; one that is not muted, at or below the record's severity,
/// writes the record's line whenever its channel filter map accepts the
/// record.
pub proof fn lemma_min_severity_gate<W: Write, M: ChannelFilterMap>(
    before: WriteSink<W, M>,
    log_object: LogObject,
    after: WriteSink<W, M>,
)
    requires
        WriteSink::<W, M>::consumes(before, log_object, after),
    ensures
        log_object.severity.rank() < before.min_severity.rank() ==> after.output == before.output,
        !before.muted && log_object.severity.rank() >= before.min_severity.rank()
            && before.channel_map.decide(log_object) is Some ==> W::writes(
            before.output,
            encode_utf8(before.line(log_object, before.channel_map.decide(log_object)->Some_0)),
            after.output,
        ),
{
}

/// A muted sink leaves its output as it is, whatever the record; and a sink
/// that is muted and then unmuted accepts exactly the records it accepted
/// before.
pub proof fn lemma_mute<W: Write, M: ChannelFilterMap>(
    sink: WriteSink<W, M>,
    log_object: LogObject,
    after: WriteSink<W, M>,
)
    ensures
        sink.muted && WriteSink::<W, M>::consumes(sink, log_object, after) ==> after.output
            == sink.output,
        !sink.muted ==> (WriteSink { muted: false, ..WriteSink { muted: true, ..sink } }).accepts(
            log_object,
        ) == sink.accepts(log_object),
{
}

/// The decimal digits hold no escape character.
proof fn lemma_digits_plain(n: nat)
    ensures
        !digits(n).contains(escape_char()),
    decreases n,
{
    if n >= 10 {
        lemma_digits_plain(n / 10);
        let d = digits(n / 10).push(crate::text::digit_char((n % 10) as int));
        assert(digits(n) == d);
        if d.contains(escape_char()) {
            let i = choose|i: int| 0 <= i < d.len() && d[i] == escape_char();
            if i < d.len() - 1 {
                assert(digits(n / 10)[i] == escape_char());
                assert(digits(n / 10).contains(escape_char()));
            }
        }
    } else {
        if digits(n).contains(escape_char()) {
            let i = choose|i: int| 0 <= i < digits(n).len() && digits(n)[i] == escape_char();
            assert(digits(n)[0] == escape_char());
        }
    }
}

proof fn lemma_signed_digits_plain(i: int)
    ensures
        !signed_digits(i).contains(escape_char()),
{
    if i < 0 {
        lemma_digits_plain((-i) as nat);
        let s = seq!['-'] + digits((-i) as nat);
        if s.contains(escape_char()) {
            let k = choose|k: int| 0 <= k < s.len() && s[k] == escape_char();
            if k > 0 {
                assert(digits((-i) as nat)[k - 1] == escape_char());
                assert(digits((-i) as nat).contains(escape_char()));
            }
        }
    } else {
        lemma_digits_plain(i as nat);
    }
}

proof fn lemma_literal_plain(t: Seq<char>)
    requires
        t == "["@ || t == "]"@ || t == "]["@ || t == "]: "@ || t == "\n"@,
    ensures
        strip_ansi(t) == t,
        closed(t),
{
    reveal_strlit("[");
    reveal_strlit("]");
    reveal_strlit("][");
    reveal_strlit("]: ");
    reveal_strlit("\n");
    assert(!t.contains(escape_char())) by {
        if t.contains(escape_char()) {
            let k = choose|k: int| 0 <= k < t.len() && t[k] == escape_char();
        }
    }
    lemma_strip_plain(t);
}

proof fn lemma_level_name_plain(severity: Level)
    ensures
        !severity.name().contains(escape_char()),
{
    reveal_strlit("DEBUG");
    reveal_strlit("INFO");
    reveal_strlit("WARNING");
    reveal_strlit("ERROR");
    reveal_strlit("CRITICAL");
    let t = severity.name();
    if t.contains(escape_char()) {
        let k = choose|k: int| 0 <= k < t.len() && t[k] == escape_char();
    }
}

/// Stripping the color sequences from a colored line gives the line without
/// colors, when neither the channel's text nor the message holds an escape
/// character.
pub proof fn lemma_strip_colored_line(
    thread_id: Option<u64>,
    secs: int,
    severity: Level,
    channel: Seq<char>,
    message: Seq<char>,
)
    requires
        !channel.contains(escape_char()),
        !message.contains(escape_char()),
    ensures
        strip_ansi(colored_line(thread_id, secs, severity, channel, message)) == plain_line(
            thread_id,
            secs,
            severity,
            channel,
            message,
        ),
{
    let open_b = "["@;
    let close_b = "]"@;
    let between = "]["@;
    let colon = "]: "@;
    let newline = "\n"@;
    let white = SET_COLOR_BRIGHT_WHITE@;
    let green = SET_COLOR_BRIGHT_GREEN@;
    let reset = RESET_COLOR@;
    let secs_text = signed_digits(secs);
    lemma_literal_plain(open_b);
    lemma_literal_plain(close_b);
    lemma_literal_plain(between);
    lemma_literal_plain(colon);
    lemma_literal_plain(newline);
    lemma_strip_color(white);
    lemma_strip_color(green);
    lemma_strip_color(reset);
    lemma_signed_digits_plain(secs);
    lemma_strip_plain(secs_text);
    lemma_strip_plain(channel);
    lemma_strip_plain(message);
    lemma_level_name_plain(severity);
    crate::colors::lemma_strip_painted(level_color(severity), severity.name());
    let e = Seq::<char>::empty();
    let tc = colored_thread_field(thread_id);
    let tp = thread_field(thread_id);
    match thread_id {
        Some(t) => {
            let d = digits(t as nat);
            lemma_digits_plain(t as nat);
            lemma_strip_plain(d);
            lemma_strip_join(open_b, white);
            lemma_strip_join(open_b + white, d);
            lemma_strip_join(open_b + white + d, reset);
            lemma_strip_join(open_b + white + d + reset, close_b);
            assert(open_b + e + d + e =~= open_b + d);
            assert(open_b + e =~= open_b);
        },
        None => {
            lemma_strip_plain(e);
        },
    }
    assert(strip_ansi(tc) == tp);
    let c1 = tc + open_b;
    lemma_strip_join(tc, open_b);
    let c2 = c1 + green;
    lemma_strip_join(c1, green);
    let c3 = c2 + secs_text;
    lemma_strip_join(c2, secs_text);
    let c4 = c3 + reset;
    lemma_strip_join(c3, reset);
    let c5 = c4 + between;
    lemma_strip_join(c4, between);
    let c6 = c5 + painted(level_color(severity), severity.name());
    lemma_strip_join(c5, painted(level_color(severity), severity.name()));
    let c7 = c6 + between;
    lemma_strip_join(c6, between);
    let c8 = c7 + white;
    lemma_strip_join(c7, white);
    let c9 = c8 + channel;
    lemma_strip_join(c8, channel);
    let c10 = c9 + reset;
    lemma_strip_join(c9, reset);
    let c11 = c10 + colon;
    lemma_strip_join(c10, colon);
    let c12 = c11 + message;
    lemma_strip_join(c11, message);
    let c13 = c12 + newline;
    lemma_strip_join(c12, newline);
    assert(c13 == colored_line(thread_id, secs, severity, channel, message));
    assert(strip_ansi(c13) =~= plain_line(thread_id, secs, severity, channel, message));
}

/// A sink's line, stripped of its color sequences, is the same whether the
/// sink colors its output or not, when neither the channel's text nor the
/// message holds an escape character.
pub proof fn lemma_strip_sink_line<W: Write, M: ChannelFilterMap>(
    sink: WriteSink<W, M>,
    log_object: LogObject,
    channel: Seq<char>,
)
    requires
        !channel.contains(escape_char()),
        !log_object.message@.contains(escape_char()),
    ensures
        strip_ansi((WriteSink { colors: true, ..sink }).line(log_object, channel)) == (WriteSink {
            colors: false,
            ..sink
        }).line(log_object, channel),
{
    let thread_id = if sink.log_thread_id {
        Some(log_object.thread_id)
    } else {
        None
    };
    lemma_strip_colored_line(
        thread_id,
        log_object.time.unix_seconds(),
        log_object.severity,
        channel,
        log_object.message@,
    );
}

} // verus!
