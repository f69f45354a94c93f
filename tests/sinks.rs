use logidize::colors::{
    Colored, RESET_COLOR, SET_COLOR_BRIGHT_BLUE, SET_COLOR_BRIGHT_CYAN, SET_COLOR_BRIGHT_GREEN,
    SET_COLOR_BRIGHT_MAGENTA, SET_COLOR_BRIGHT_RED, SET_COLOR_BRIGHT_WHITE,
    SET_COLOR_BRIGHT_YELLOW,
};
use logidize::filter_maps::{
    InvisibleChannelFilterMap, SimpleChannel, SimpleChannelFilterMap, StaticChannelFilterMap,
    StaticSeverityChannelFilterMap,
};
use logidize::loggers::{FixedClock, Level, LogObject, Logger, SimpleLogger, Timestamp};
use logidize::sinks::{MultiSink, Sink, WriteSink};
use logidize::writers::{MultiWriter, Write};

const TIME: u64 = 1_712_345_678;
const THREAD: u64 = 3;

fn clock() -> FixedClock {
    FixedClock { thread_id: THREAD, time: Timestamp { before_epoch: false, secs: TIME } }
}

fn record(channel_id: usize, severity: Level, message: &str) -> LogObject {
    LogObject::new(channel_id, severity, message.to_string(), THREAD, clock().time)
}

fn log_all(colors: bool, log_thread_id: bool) -> String {
    let mut sink = WriteSink::new(Vec::new(), InvisibleChannelFilterMap);
    sink.colors = colors;
    sink.log_thread_id = log_thread_id;
    let mut logger = SimpleLogger::new(sink, clock());
    logger.debug("debug");
    logger.info("info");
    logger.warning("warning");
    logger.error("error");
    logger.critical("critical");
    for i in 1..=10 {
        logger.channel(i).log(Level::DEBUG, &format!("from channel {i}"));
    }
    String::from_utf8(logger.into_sink().output).unwrap()
}

fn strip_ansi(text: &str) -> String {
    let mut out = String::new();
    let mut in_sequence = false;
    for c in text.chars() {
        if in_sequence {
            in_sequence = c != 'm';
        } else if c == '\x1b' {
            in_sequence = true;
        } else {
            out.push(c);
        }
    }
    out
}

#[test]
fn sinks_test_colorless_idless() {
    let time = TIME;
    let output = log_all(false, false);
    let expected_output = format!(
        "[{time}][DEBUG][0]: debug\n\
         [{time}][INFO][0]: info\n\
         [{time}][WARNING][0]: warning\n\
         [{time}][ERROR][0]: error\n\
         [{time}][CRITICAL][0]: critical\n\
         [{time}][DEBUG][1]: from channel 1\n\
         [{time}][DEBUG][2]: from channel 2\n\
         [{time}][DEBUG][3]: from channel 3\n\
         [{time}][DEBUG][4]: from channel 4\n\
         [{time}][DEBUG][5]: from channel 5\n\
         [{time}][DEBUG][6]: from channel 6\n\
         [{time}][DEBUG][7]: from channel 7\n\
         [{time}][DEBUG][8]: from channel 8\n\
         [{time}][DEBUG][9]: from channel 9\n\
         [{time}][DEBUG][10]: from channel 10\n"
    );
    assert_eq!(output, expected_output);
}

#[test]
fn test_colored_ided() {
    let time = TIME;
    let id = THREAD;
    let output = log_all(true, true);
    let mut expected_output = String::new();
    let levels = [
        (SET_COLOR_BRIGHT_CYAN, "DEBUG", "debug"),
        (SET_COLOR_BRIGHT_BLUE, "INFO", "info"),
        (SET_COLOR_BRIGHT_YELLOW, "WARNING", "warning"),
        (SET_COLOR_BRIGHT_RED, "ERROR", "error"),
        (SET_COLOR_BRIGHT_MAGENTA, "CRITICAL", "critical"),
    ];
    for (color, name, message) in levels {
        expected_output.push_str(&format!(
            "[{SET_COLOR_BRIGHT_WHITE}{id}{RESET_COLOR}][{SET_COLOR_BRIGHT_GREEN}{time}{RESET_COLOR}][{color}{name}{RESET_COLOR}][{SET_COLOR_BRIGHT_WHITE}0{RESET_COLOR}]: {message}\n"
        ));
    }
    for i in 1..=10 {
        expected_output.push_str(&format!(
            "[{SET_COLOR_BRIGHT_WHITE}{id}{RESET_COLOR}][{SET_COLOR_BRIGHT_GREEN}{time}{RESET_COLOR}][{SET_COLOR_BRIGHT_CYAN}DEBUG{RESET_COLOR}][{SET_COLOR_BRIGHT_WHITE}{i}{RESET_COLOR}]: from channel {i}\n"
        ));
    }
    assert_eq!(output, expected_output);
}

#[test]
fn test_basics() {
    let mut logger = SimpleLogger::new(WriteSink::new(Vec::new(), InvisibleChannelFilterMap), clock());
    logger.debug("debug");
    logger.info("info");
    logger.warning("warning");
    logger.error("error");
    logger.critical("critical");
    logger.channel(1).debug(&format!("from channel {}", 1));
    logger.channel(2).debug(&format!("from channel {}", 2));
    let output = logger.into_sink().output;
    let mut iter = output.iter();
    let _ = iter.by_ref().filter(|char| **char == b'm').take(3).last();
    assert_eq!(std::str::from_utf8(&iter.as_slice()[..5]).unwrap(), "DEBUG");
    let _ = iter.by_ref().filter(|char| **char == b'm').take(2).last();
    assert_eq!(std::str::from_utf8(&iter.as_slice()[..1]).unwrap(), "0");
    let _ = iter.by_ref().filter(|char| **char == b'm').take(1).last();
    assert_eq!(std::str::from_utf8(&iter.as_slice()[..9]).unwrap(), "]: debug\n");

    let _ = iter.by_ref().filter(|char| **char == b'm').take(3).last();
    assert_eq!(std::str::from_utf8(&iter.as_slice()[..4]).unwrap(), "INFO");
    let _ = iter.by_ref().filter(|char| **char == b'm').take(2).last();
    assert_eq!(std::str::from_utf8(&iter.as_slice()[..1]).unwrap(), "0");
    let _ = iter.by_ref().filter(|char| **char == b'm').take(1).last();
    assert_eq!(std::str::from_utf8(&iter.as_slice()[..8]).unwrap(), "]: info\n");

    let _ = iter.by_ref().filter(|char| **char == b'\n').take(4).last();
    let _ = iter.by_ref().filter(|char| **char == b'm').take(5).last();
    assert_eq!(std::str::from_utf8(&iter.as_slice()[..1]).unwrap(), "1");
    let _ = iter.by_ref().filter(|char| **char == b'm').take(1).last();
    assert_eq!(std::str::from_utf8(&iter.as_slice()[..18]).unwrap(), "]: from channel 1\n");
}

#[test]
fn severity_threshold_gates_every_pair_of_levels() {
    let levels = [Level::DEBUG, Level::INFO, Level::WARNING, Level::ERROR, Level::CRITICAL];
    for (i, min) in levels.iter().enumerate() {
        for (j, severity) in levels.iter().enumerate() {
            let mut sink = WriteSink::new(Vec::new(), InvisibleChannelFilterMap);
            sink.colors = false;
            sink.min_severity = *min;
            sink.consume(&record(0, *severity, "m"));
            if j < i {
                assert!(sink.output.is_empty());
            } else {
                let expected = format!("[{TIME}][{}][0]: m\n", severity.as_str());
                assert_eq!(String::from_utf8(sink.output).unwrap(), expected);
            }
        }
    }
}

#[test]
fn muting_drops_everything_and_unmuting_restores() {
    let mut sink = WriteSink::new(Vec::new(), InvisibleChannelFilterMap);
    sink.colors = false;
    sink.min_severity = Level::WARNING;
    sink.muted = true;
    for severity in [Level::DEBUG, Level::INFO, Level::WARNING, Level::ERROR, Level::CRITICAL] {
        for channel in 0..3 {
            sink.consume(&record(channel, severity, "muted"));
        }
    }
    assert!(sink.output.is_empty());
    sink.muted = false;
    sink.consume(&record(0, Level::INFO, "below"));
    sink.consume(&record(1, Level::ERROR, "unmuted"));
    assert_eq!(
        String::from_utf8(sink.output).unwrap(),
        format!("[{TIME}][ERROR][1]: unmuted\n")
    );
}

#[test]
fn registry_channel_gates_and_names_records() {
    let mut channels = SimpleChannelFilterMap::new();
    channels.insert_channel(
        5,
        SimpleChannel { enabled: true, min_severity: Level::INFO, name: "X".to_string() },
    );
    let mut sink = WriteSink::new(Vec::new(), channels);
    sink.colors = false;
    sink.consume(&record(5, Level::DEBUG, "dropped"));
    assert!(sink.output.is_empty());
    sink.consume(&record(5, Level::INFO, "kept"));
    sink.consume(&record(5, Level::CRITICAL, "kept too"));
    sink.consume(&record(6, Level::CRITICAL, "unknown channel"));
    sink.channel_map.set_channel_enabled(5, false);
    sink.consume(&record(5, Level::CRITICAL, "disabled"));
    assert_eq!(
        String::from_utf8(sink.output).unwrap(),
        format!("[{TIME}][INFO][X]: kept\n[{TIME}][CRITICAL][X]: kept too\n")
    );
}

#[test]
fn stripped_colored_line_equals_plain_line() {
    let table: &'static [&'static str] = &["Main", "Rendering", "Physics"];
    let physics = record(2, Level::ERROR, "boom");
    let mut plain = WriteSink::new(Vec::new(), StaticChannelFilterMap(table));
    plain.colors = false;
    plain.consume(&physics);
    let plain = String::from_utf8(plain.output).unwrap();
    assert_eq!(plain, format!("[{TIME}][ERROR][Physics]: boom\n"));

    let mut colored = WriteSink::new(Vec::new(), StaticChannelFilterMap(table));
    colored.consume(&physics);
    let colored = String::from_utf8(colored.output).unwrap();
    assert_ne!(colored, plain);
    assert_eq!(strip_ansi(&colored), plain);
    assert_eq!(
        colored,
        format!(
            "[{SET_COLOR_BRIGHT_GREEN}{TIME}{RESET_COLOR}][{SET_COLOR_BRIGHT_RED}ERROR{RESET_COLOR}][{SET_COLOR_BRIGHT_WHITE}Physics{RESET_COLOR}]: boom\n"
        )
    );
}

#[test]
fn stripped_colored_line_with_thread_equals_plain_line() {
    let mut plain = WriteSink::new(Vec::new(), InvisibleChannelFilterMap);
    plain.colors = false;
    plain.log_thread_id = true;
    let mut colored = WriteSink::new(Vec::new(), InvisibleChannelFilterMap);
    colored.log_thread_id = true;
    let early = LogObject::new(
        12,
        Level::WARNING,
        "early".to_string(),
        4021,
        Timestamp { before_epoch: true, secs: 86_400 },
    );
    plain.consume(&early);
    colored.consume(&early);
    let plain = String::from_utf8(plain.output).unwrap();
    assert_eq!(plain, "[4021][-86400][WARNING][12]: early\n");
    assert_eq!(strip_ansi(&String::from_utf8(colored.output).unwrap()), plain);
}

#[test]
fn multi_sink_hands_the_record_to_both_sinks_once() {
    let mut first = WriteSink::new(Vec::new(), InvisibleChannelFilterMap);
    first.colors = false;
    let mut second = WriteSink::new(Vec::new(), StaticChannelFilterMap(&["main"]));
    second.colors = false;
    let mut both = MultiSink(first, second);
    both.consume(&record(0, Level::INFO, "fan out"));
    assert_eq!(
        String::from_utf8(both.0.output).unwrap(),
        format!("[{TIME}][INFO][0]: fan out\n")
    );
    assert_eq!(
        String::from_utf8(both.1.output).unwrap(),
        format!("[{TIME}][INFO][main]: fan out\n")
    );
}

#[test]
fn multi_writer_writes_to_both_outputs() {
    let mut writer = MultiWriter::new(Vec::new(), Vec::new());
    assert_eq!(writer.write(b"abc"), Ok(()));
    assert_eq!(writer.write(b"de"), Ok(()));
    assert_eq!(writer.flush(), Ok(()));
    assert_eq!(writer.0, b"abcde".to_vec());
    assert_eq!(writer.1, b"abcde".to_vec());

    let mut sink = WriteSink::new(MultiWriter::new(Vec::new(), Vec::new()), InvisibleChannelFilterMap);
    sink.colors = false;
    sink.consume(&record(1, Level::DEBUG, "x"));
    assert_eq!(sink.output.0, sink.output.1);
    assert_eq!(String::from_utf8(sink.output.0).unwrap(), format!("[{TIME}][DEBUG][1]: x\n"));
}

#[test]
fn static_severity_table_filters_per_channel() {
    let table: &'static [(&'static str, Level)] = &[
        ("Main-Channel", Level::INFO),
        ("Rendering-Channel", Level::WARNING),
        ("Physics-Channel", Level::ERROR),
    ];
    let mut sink = WriteSink::new(Vec::new(), StaticSeverityChannelFilterMap(table));
    sink.colors = false;
    sink.consume(&record(0, Level::DEBUG, "no"));
    sink.consume(&record(0, Level::INFO, "main"));
    sink.consume(&record(1, Level::INFO, "no"));
    sink.consume(&record(2, Level::ERROR, "physics"));
    sink.consume(&record(3, Level::CRITICAL, "no"));
    assert_eq!(
        String::from_utf8(sink.output).unwrap(),
        format!("[{TIME}][INFO][Main-Channel]: main\n[{TIME}][ERROR][Physics-Channel]: physics\n")
    );
}

#[test]
fn render_writes_the_given_channel_text() {
    let mut sink = WriteSink::new(Vec::new(), InvisibleChannelFilterMap);
    sink.colors = false;
    let line = sink.render(&record(0, Level::CRITICAL, "msg"), "Audio");
    assert_eq!(line, format!("[{TIME}][CRITICAL][Audio]: msg\n"));
    sink.colors = true;
    let line = sink.render(&record(0, Level::CRITICAL, "msg"), "Audio");
    assert_eq!(strip_ansi(&line), format!("[{TIME}][CRITICAL][Audio]: msg\n"));
}

#[test]
fn colored_level_names() {
    assert_eq!(Colored(Level::DEBUG).as_str(), "\x1b[1;36mDEBUG\x1b[0m");
    assert_eq!(Colored(Level::INFO).as_str(), "\x1b[1;34mINFO\x1b[0m");
    assert_eq!(Colored(Level::WARNING).as_str(), "\x1b[1;33mWARNING\x1b[0m");
    assert_eq!(Colored(Level::ERROR).as_str(), "\x1b[1;31mERROR\x1b[0m");
    assert_eq!(Colored(Level::CRITICAL).as_str(), "\x1b[1;35mCRITICAL\x1b[0m");
}

#[test]
fn write_sink_new_defaults() {
    let sink = WriteSink::new(Vec::<u8>::new(), InvisibleChannelFilterMap);
    assert!(sink.colors);
    assert!(!sink.log_thread_id);
    assert_eq!(sink.min_severity, Level::DEBUG);
    assert!(!sink.muted);
    assert!(sink.output.is_empty());
}
