//! ANSI color sequences, the colored names of severity levels, and what
//! remains of a text once its color sequences are stripped.

use vstd::prelude::*;
use crate::loggers::Level;

verus! {

/// ANSI color code for bright red.
pub const SET_COLOR_BRIGHT_RED: &'static str = "\x1b[1;31m";

/// ANSI color code for bright green.
pub const SET_COLOR_BRIGHT_GREEN: &'static str = "\x1b[1;32m";

/// ANSI color code for bright yellow.
pub const SET_COLOR_BRIGHT_YELLOW: &'static str = "\x1b[1;33m";

/// ANSI color code for bright blue.
pub const SET_COLOR_BRIGHT_BLUE: &'static str = "\x1b[1;34m";

/// ANSI color code for bright magenta.
pub const SET_COLOR_BRIGHT_MAGENTA: &'static str = "\x1b[1;35m";

/// ANSI color code for bright cyan.
pub const SET_COLOR_BRIGHT_CYAN: &'static str = "\x1b[1;36m";

/// ANSI color code for bright white.
pub const SET_COLOR_BRIGHT_WHITE: &'static str = "\x1b[1;37m";

/// ANSI color code that sets the color back to the default.
pub const SET_COLOR_DEFAULT: &'static str = "\x1b[39m";

/// ANSI color code that resets the color.
pub const RESET_COLOR: &'static str = "\x1b[0m";

/// The escape character that starts an ANSI sequence.
pub open spec fn escape_char() -> char {
    '\x1b'
}

/// The color a severity level is shown in.
pub open spec fn level_color(level: Level) -> Seq<char> {
    match level {
        Level::DEBUG => SET_COLOR_BRIGHT_CYAN@,
        Level::INFO => SET_COLOR_BRIGHT_BLUE@,
        Level::WARNING => SET_COLOR_BRIGHT_YELLOW@,
        Level::ERROR => SET_COLOR_BRIGHT_RED@,
        Level::CRITICAL => SET_COLOR_BRIGHT_MAGENTA@,
    }
}

/// `text` shown in the color `code`, followed by a reset.
pub open spec fn painted(code: Seq<char>, text: Seq<char>) -> Seq<char> {
    code + text + RESET_COLOR@
}

/// Provides the colored textual representation of a [Level].
#[derive(Clone, Copy, Debug, Hash, PartialEq, Eq, Structural)]
pub struct Colored(pub Level);

impl Colored {
    /// Returns the level's name in its color, followed by a reset.
    pub fn as_str(&self) -> (r: &'static str)
        ensures
            r@ == painted(level_color(self.0), self.0.name()),
    {
        proof {
            reveal_strlit("\x1b[1;31m");
            reveal_strlit("\x1b[1;33m");
            reveal_strlit("\x1b[1;34m");
            reveal_strlit("\x1b[1;35m");
            reveal_strlit("\x1b[1;36m");
            reveal_strlit("\x1b[0m");
            reveal_strlit("DEBUG");
            reveal_strlit("INFO");
            reveal_strlit("WARNING");
            reveal_strlit("ERROR");
            reveal_strlit("CRITICAL");
        }
        match self.0 {
            Level::DEBUG => {
                proof {
                    reveal_strlit("\x1b[1;36mDEBUG\x1b[0m");
                }
                let r = "\x1b[1;36mDEBUG\x1b[0m";
                assert(r@ =~= painted(level_color(self.0), self.0.name()));
                r
            },
            Level::INFO => {
                proof {
                    reveal_strlit("\x1b[1;34mINFO\x1b[0m");
                }
                let r = "\x1b[1;34mINFO\x1b[0m";
                assert(r@ =~= painted(level_color(self.0), self.0.name()));
                r
            },
            Level::WARNING => {
                proof {
                    reveal_strlit("\x1b[1;33mWARNING\x1b[0m");
                }
                let r = "\x1b[1;33mWARNING\x1b[0m";
                assert(r@ =~= painted(level_color(self.0), self.0.name()));
                r
            },
            Level::ERROR => {
                proof {
                    reveal_strlit("\x1b[1;31mERROR\x1b[0m");
                }
                let r = "\x1b[1;31mERROR\x1b[0m";
                assert(r@ =~= painted(level_color(self.0), self.0.name()));
                r
            },
            Level::CRITICAL => {
                proof {
                    reveal_strlit("\x1b[1;35mCRITICAL\x1b[0m");
                }
                let r = "\x1b[1;35mCRITICAL\x1b[0m";
                assert(r@ =~= painted(level_color(self.0), self.0.name()));
                r
            },
        }
    }
}

/// What remains of `s` once every ANSI sequence (from the escape character up
/// to and including the next `m`) is removed, reading from the state
/// `in_sequence`.
pub open spec fn strip_from(s: Seq<char>, in_sequence: bool) -> Seq<char>
    decreases s.len(),
{
    if s.len() == 0 {
        Seq::empty()
    } else if in_sequence {
        strip_from(s.drop_first(), s[0] != 'm')
    } else if s[0] == escape_char() {
        strip_from(s.drop_first(), true)
    } else {
        seq![s[0]] + strip_from(s.drop_first(), false)
    }
}

/// Whether reading `s` from the state `in_sequence` ends inside an ANSI
/// sequence.
pub open spec fn ends_in_sequence(s: Seq<char>, in_sequence: bool) -> bool
    decreases s.len(),
{
    if s.len() == 0 {
        in_sequence
    } else if in_sequence {
        ends_in_sequence(s.drop_first(), s[0] != 'm')
    } else {
        ends_in_sequence(s.drop_first(), s[0] == escape_char())
    }
}

/// What remains of `s` once its ANSI color sequences are removed.
pub open spec fn strip_ansi(s: Seq<char>) -> Seq<char> {
    strip_from(s, false)
}

/// Whether `s` closes every ANSI sequence it opens.
pub open spec fn closed(s: Seq<char>) -> bool {
    !ends_in_sequence(s, false)
}

proof fn lemma_strip_from_concat(a: Seq<char>, b: Seq<char>, st: bool)
    ensures
        strip_from(a + b, st) == strip_from(a, st) + strip_from(b, ends_in_sequence(a, st)),
        ends_in_sequence(a + b, st) == ends_in_sequence(b, ends_in_sequence(a, st)),
    decreases a.len(),
{
    if a.len() == 0 {
        assert(a + b =~= b);
        assert(Seq::<char>::empty() + strip_from(b, st) =~= strip_from(b, st));
    } else {
        assert((a + b).drop_first() =~= a.drop_first() + b);
        assert((a + b)[0] == a[0]);
        let next = if st {
            a[0] != 'm'
        } else {
            a[0] == escape_char()
        };
        lemma_strip_from_concat(a.drop_first(), b, next);
        if !st && a[0] != escape_char() {
            assert(seq![a[0]] + strip_from(a.drop_first(), false) + strip_from(
                b,
                ends_in_sequence(a.drop_first(), false),
            ) =~= seq![a[0]] + (strip_from(a.drop_first(), false) + strip_from(
                b,
                ends_in_sequence(a.drop_first(), false),
            )));
        }
    }
}

/// Stripping two closed texts one after the other strips each of them.
pub proof fn lemma_strip_join(a: Seq<char>, b: Seq<char>)
    requires
        closed(a),
        closed(b),
    ensures
        strip_ansi(a + b) == strip_ansi(a) + strip_ansi(b),
        closed(a + b),
{
    lemma_strip_from_concat(a, b, false);
}

/// A text without escape characters is closed and left as it is.
pub proof fn lemma_strip_plain(t: Seq<char>)
    requires
        !t.contains(escape_char()),
    ensures
        strip_ansi(t) == t,
        closed(t),
    decreases t.len(),
{
    if t.len() > 0 {
        assert(!t.drop_first().contains(escape_char())) by {
            if t.drop_first().contains(escape_char()) {
                let i = choose|i: int| 0 <= i < t.drop_first().len() && t.drop_first()[i] == escape_char();
                assert(t[i + 1] == escape_char());
            }
        }
        assert(t[0] != escape_char()) by {
            assert(t.contains(t[0]) || true);
            if t[0] == escape_char() {
                assert(t.contains(escape_char()));
            }
        }
        lemma_strip_plain(t.drop_first());
        assert(seq![t[0]] + t.drop_first() =~= t);
    }
}

proof fn lemma_strip_sequence_body(body: Seq<char>)
    requires
        !body.contains('m'),
    ensures
        strip_from(body + seq!['m'], true) == Seq::<char>::empty(),
        !ends_in_sequence(body + seq!['m'], true),
    decreases body.len(),
{
    let s = body + seq!['m'];
    if body.len() == 0 {
        assert(s.drop_first() =~= Seq::<char>::empty());
        assert(s[0] == 'm');
        assert(strip_from(s.drop_first(), false) == Seq::<char>::empty());
        assert(!ends_in_sequence(s.drop_first(), false));
    } else {
        assert(s.drop_first() =~= body.drop_first() + seq!['m']);
        assert(s[0] == body[0]);
        assert(body[0] != 'm') by {
            if body[0] == 'm' {
                assert(body.contains('m'));
            }
        }
        assert(!body.drop_first().contains('m')) by {
            if body.drop_first().contains('m') {
                let i = choose|i: int| 0 <= i < body.drop_first().len() && body.drop_first()[i] == 'm';
                assert(body[i + 1] == 'm');
            }
        }
        lemma_strip_sequence_body(body.drop_first());
    }
}

/// An escape character, a body without `m`, then `m`: one ANSI sequence,
/// which stripping removes whole.
proof fn lemma_strip_sequence(body: Seq<char>)
    requires
        !body.contains('m'),
    ensures
        strip_ansi(seq![escape_char()] + body + seq!['m']) == Seq::<char>::empty(),
        closed(seq![escape_char()] + body + seq!['m']),
{
    let s = seq![escape_char()] + body + seq!['m'];
    assert(s.drop_first() =~= body + seq!['m']);
    lemma_strip_sequence_body(body);
}

/// Every color code of this module is a single ANSI sequence: stripping
/// removes it whole.
pub proof fn lemma_strip_color(code: Seq<char>)
    requires
        code == SET_COLOR_BRIGHT_RED@ || code == SET_COLOR_BRIGHT_GREEN@ || code
            == SET_COLOR_BRIGHT_YELLOW@ || code == SET_COLOR_BRIGHT_BLUE@ || code
            == SET_COLOR_BRIGHT_MAGENTA@ || code == SET_COLOR_BRIGHT_CYAN@ || code
            == SET_COLOR_BRIGHT_WHITE@ || code == SET_COLOR_DEFAULT@ || code == RESET_COLOR@,
    ensures
        strip_ansi(code) == Seq::<char>::empty(),
        closed(code),
{
    reveal_strlit("\x1b[1;31m");
    reveal_strlit("\x1b[1;32m");
    reveal_strlit("\x1b[1;33m");
    reveal_strlit("\x1b[1;34m");
    reveal_strlit("\x1b[1;35m");
    reveal_strlit("\x1b[1;36m");
    reveal_strlit("\x1b[1;37m");
    reveal_strlit("\x1b[39m");
    reveal_strlit("\x1b[0m");
    let body = code.subrange(1, code.len() - 1);
    assert(code =~= seq![escape_char()] + body + seq!['m']);
    assert(!body.contains('m')) by {
        if body.contains('m') {
            let i = choose|i: int| 0 <= i < body.len() && body[i] == 'm';
            assert(code[i + 1] == 'm');
        }
    }
    lemma_strip_sequence(body);
}

/// A text without escape characters, painted in one of the colors of this
/// module, strips back to the text.
pub proof fn lemma_strip_painted(code: Seq<char>, text: Seq<char>)
    requires
        code == SET_COLOR_BRIGHT_RED@ || code == SET_COLOR_BRIGHT_GREEN@ || code
            == SET_COLOR_BRIGHT_YELLOW@ || code == SET_COLOR_BRIGHT_BLUE@ || code
            == SET_COLOR_BRIGHT_MAGENTA@ || code == SET_COLOR_BRIGHT_CYAN@ || code
            == SET_COLOR_BRIGHT_WHITE@ || code == SET_COLOR_DEFAULT@,
        !text.contains(escape_char()),
    ensures
        strip_ansi(painted(code, text)) == text,
        closed(painted(code, text)),
{
    lemma_strip_color(code);
    lemma_strip_color(RESET_COLOR@);
    lemma_strip_plain(text);
    lemma_strip_join(code, text);
    lemma_strip_join(code + text, RESET_COLOR@);
    assert(Seq::<char>::empty() + text =~= text);
    assert(text + Seq::<char>::empty() =~= text);
}

} // verus!
