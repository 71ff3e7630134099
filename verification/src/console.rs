//! The console: levels, how the standard writer lays a message out, and the Console
//! Standard's formatter, which decides which arguments a format string takes and where.
use vstd::prelude::*;

use crate::text::{chars_of, owned, push_chars, string_from_chars};

verus! {

/// A console level.
#[derive(Debug, Clone, Copy, PartialEq, Eq, Structural)]
pub enum Level {
    Debug,
    Info,
    Warn,
    Error,
    Log,
}

/// The level's label, as the standard writer and script writers see it.
pub open spec fn level_label(level: Level) -> Seq<char> {
    match level {
        Level::Debug => "DEBUG"@,
        Level::Info => "INFO"@,
        Level::Warn => "WARN"@,
        Level::Error => "ERROR"@,
        Level::Log => "LOG"@,
    }
}

impl Level {
    /// The level's label (`DEBUG`, `INFO`, `WARN`, `ERROR`, `LOG`).
    pub fn label(&self) -> (s: String)
        ensures
            s@ == level_label(*self),
    {
        match self {
            Level::Debug => owned("DEBUG"),
            Level::Info => owned("INFO"),
            Level::Warn => owned("WARN"),
            Level::Error => owned("ERROR"),
            Level::Log => owned("LOG"),
        }
    }
}

/// The line the standard writer prints: the message alone at `Log`, else the label, a space
/// and the message.
pub open spec fn std_line(level: Level, message: Seq<char>) -> Seq<char> {
    if level == Level::Log {
        message
    } else {
        level_label(level) + seq![' '] + message
    }
}

/// How the standard writer writes a message: whether to standard error (for `Error` and
/// `Warn`), and the line.
pub fn std_output(level: Level, message: &String) -> (r: (bool, String))
    ensures
        r.0 == (level == Level::Error || level == Level::Warn),
        r.1@ == std_line(level, message@),
{
    let to_stderr = level == Level::Error || level == Level::Warn;
    if level == Level::Log {
        return (to_stderr, owned(message.as_str()));
    }
    let label = level.label();
    let mut out: Vec<char> = Vec::new();
    push_chars(&mut out, &label);
    out.push(' ');
    push_chars(&mut out, message);
    assert(out@ =~= std_line(level, message@));
    (to_stderr, string_from_chars(&out))
}

/// One piece of formatted output.
#[derive(Debug, Clone, Copy, PartialEq, Eq, Structural)]
pub enum Piece {
    /// A character of the format string, copied.
    Text(char),
    /// The argument at `index`, rendered by the specifier (`s`, `d`, `i`, `f`, `o` or `O`).
    Arg(char, usize),
}

/// A recognised specifier letter.
pub open spec fn is_specifier(c: char) -> bool {
    c == 's' || c == 'd' || c == 'i' || c == 'f' || c == 'o' || c == 'O' || c == 'c'
}

/// The pieces of the format string `cs` when the next unconsumed argument is `idx` of
/// `nargs`, and the index after the last one consumed. `%%` and a lone trailing `%` give `%`;
/// a recognised specifier with an argument left takes it (`%c` then writes nothing); anything
/// else after `%` is copied with it.
pub open spec fn plan(cs: Seq<char>, idx: nat, nargs: nat) -> (Seq<Piece>, nat)
    decreases cs.len(),
{
    if cs.len() == 0 {
        (Seq::empty(), idx)
    } else if cs[0] != '%' {
        let r = plan(cs.drop_first(), idx, nargs);
        (seq![Piece::Text(cs[0])] + r.0, r.1)
    } else if cs.len() == 1 {
        (seq![Piece::Text('%')], idx)
    } else {
        let c = cs[1];
        let rest = cs.subrange(2, cs.len() as int);
        if c == '%' {
            let r = plan(rest, idx, nargs);
            (seq![Piece::Text('%')] + r.0, r.1)
        } else if is_specifier(c) && idx < nargs {
            let r = plan(rest, idx + 1, nargs);
            if c == 'c' {
                r
            } else {
                (seq![Piece::Arg(c, idx as usize)] + r.0, r.1)
            }
        } else {
            let r = plan(rest, idx, nargs);
            (seq![Piece::Text('%')] + (seq![Piece::Text(c)] + r.0), r.1)
        }
    }
}

/// Each of `%s`, `%d`, `%i`, `%f`, `%o` and `%O`, with an argument left, is replaced by that
/// argument and consumes it; what follows is formatted from the next argument on. So
/// `"%" + c` with one further argument gives exactly `[Arg(c, 1)]` and consumes both values.
pub proof fn specifier_takes_the_next_argument(c: char, rest: Seq<char>, idx: nat, nargs: nat)
    requires
        c == 's' || c == 'd' || c == 'i' || c == 'f' || c == 'o' || c == 'O',
        idx < nargs,
    ensures
        plan(seq!['%', c] + rest, idx, nargs) == (
            seq![Piece::Arg(c, idx as usize)] + plan(rest, idx + 1, nargs).0,
            plan(rest, idx + 1, nargs).1,
        ),
        plan(seq!['%', c], 1, 2) == (seq![Piece::Arg(c, 1)], 2nat),
{
    let s = seq!['%', c] + rest;
    assert(s[0] == '%');
    assert(s[1] == c);
    assert(s.subrange(2, s.len() as int) =~= rest);
    let t = seq!['%', c];
    assert(t[0] == '%');
    assert(t[1] == c);
    assert(t.subrange(2, t.len() as int) =~= Seq::<char>::empty());
    assert(plan(Seq::<char>::empty(), 2, 2) == (Seq::<Piece>::empty(), 2nat));
    assert(seq![Piece::Arg(c, 1)] + Seq::<Piece>::empty() =~= seq![Piece::Arg(c, 1)]);
    assert(plan(t, 1, 2) == (seq![Piece::Arg(c, 1)] + plan(Seq::<char>::empty(), 2, 2).0, plan(Seq::<char>::empty(), 2, 2).1));
}

/// `%c` with an argument left consumes it and writes nothing.
pub proof fn css_specifier_consumes_its_argument(rest: Seq<char>, idx: nat, nargs: nat)
    requires
        idx < nargs,
    ensures
        plan(seq!['%', 'c'] + rest, idx, nargs) == plan(rest, idx + 1, nargs),
{
    let s = seq!['%', 'c'] + rest;
    assert(s[0] == '%');
    assert(s[1] == 'c');
    assert(s.subrange(2, s.len() as int) =~= rest);
}

/// A character other than `%` is copied as it is, and consumes nothing.
pub proof fn plain_text_is_copied(x: char, rest: Seq<char>, idx: nat, nargs: nat)
    requires
        x != '%',
    ensures
        plan(seq![x] + rest, idx, nargs) == (seq![Piece::Text(x)] + plan(rest, idx, nargs).0, plan(rest, idx, nargs).1),
{
    let s = seq![x] + rest;
    assert(s[0] == x);
    assert(s.drop_first() =~= rest);
}

proof fn lemma_push_concat(a: Seq<Piece>, x: Piece, r: Seq<Piece>)
    ensures
        a.push(x) + r == a + (seq![x] + r),
{
    assert(a.push(x) + r =~= a + (seq![x] + r));
}

proof fn lemma_push2_concat(a: Seq<Piece>, x: Piece, y: Piece, r: Seq<Piece>)
    ensures
        a.push(x).push(y) + r == a + (seq![x] + (seq![y] + r)),
{
    assert(a.push(x).push(y) + r =~= a + (seq![x] + (seq![y] + r)));
}

/// One step of the formatter over the characters from `pos`: the pieces it writes, the
/// position and argument index after it, and how they relate to [`plan`].
proof fn lemma_plan_step(cs: Seq<char>, pos: int, idx: nat, nargs: nat)
    requires
        0 <= pos < cs.len(),
    ensures
        ({
            let rest = cs.subrange(pos, cs.len() as int);
            let c = cs[pos];
            if c != '%' {
                plan(rest, idx, nargs) == (
                    seq![Piece::Text(c)] + plan(cs.subrange(pos + 1, cs.len() as int), idx, nargs).0,
                    plan(cs.subrange(pos + 1, cs.len() as int), idx, nargs).1,
                )
            } else if pos + 1 == cs.len() {
                plan(rest, idx, nargs) == (seq![Piece::Text('%')], idx)
            } else {
                let d = cs[pos + 1];
                let tail = cs.subrange(pos + 2, cs.len() as int);
                if d == '%' {
                    plan(rest, idx, nargs) == (seq![Piece::Text('%')] + plan(tail, idx, nargs).0, plan(tail, idx, nargs).1)
                } else if is_specifier(d) && idx < nargs {
                    if d == 'c' {
                        plan(rest, idx, nargs) == plan(tail, idx + 1, nargs)
                    } else {
                        plan(rest, idx, nargs) == (
                            seq![Piece::Arg(d, idx as usize)] + plan(tail, idx + 1, nargs).0,
                            plan(tail, idx + 1, nargs).1,
                        )
                    }
                } else {
                    plan(rest, idx, nargs) == (
                        seq![Piece::Text('%')] + (seq![Piece::Text(d)] + plan(tail, idx, nargs).0),
                        plan(tail, idx, nargs).1,
                    )
                }
            }
        }),
{
    let rest = cs.subrange(pos, cs.len() as int);
    assert(rest[0] == cs[pos]);
    assert(rest.drop_first() =~= cs.subrange(pos + 1, cs.len() as int));
    if pos + 1 < cs.len() {
        assert(rest[1] == cs[pos + 1]);
        assert(rest.subrange(2, rest.len() as int) =~= cs.subrange(pos + 2, cs.len() as int));
    }
}

/// The Console Standard's formatter over a format string followed by `nargs - 1` arguments:
/// the pieces to write, and how many leading values (the format string included) were
/// consumed.
pub fn format_specifiers(format: &str, nargs: usize) -> (r: (Vec<Piece>, usize))
    requires
        nargs >= 1,
    ensures
        r.0@ == plan(format@, 1, nargs as nat).0,
        r.1 == plan(format@, 1, nargs as nat).1,
{
    let cs = chars_of(format);
    let ghost total = plan(format@, 1, nargs as nat);
    let mut out: Vec<Piece> = Vec::new();
    let mut pos: usize = 0;
    let mut idx: usize = 1;
    assert(cs@.subrange(0, cs@.len() as int) =~= format@);
    assert(out@ + total.0 =~= total.0);
    while pos < cs.len()
        invariant
            cs@ == format@,
            total == plan(format@, 1, nargs as nat),
            pos <= cs@.len(),
            1 <= idx <= nargs,
            out@ + plan(cs@.subrange(pos as int, cs@.len() as int), idx as nat, nargs as nat).0 == total.0,
            plan(cs@.subrange(pos as int, cs@.len() as int), idx as nat, nargs as nat).1 == total.1,
        decreases cs.len() - pos,
    {
        let ghost before = out@;
        let ghost idx0 = idx as nat;
        proof {
            lemma_plan_step(cs@, pos as int, idx0, nargs as nat);
        }
        let c = cs[pos];
        if c != '%' {
            out.push(Piece::Text(c));
            pos = pos + 1;
            proof {
                lemma_push_concat(before, Piece::Text(c), plan(cs@.subrange(pos as int, cs@.len() as int), idx0, nargs as nat).0);
            }
        } else if pos + 1 == cs.len() {
            out.push(Piece::Text('%'));
            pos = pos + 1;
            proof {
                assert(cs@.subrange(pos as int, cs@.len() as int) =~= Seq::<char>::empty());
                lemma_push_concat(before, Piece::Text('%'), Seq::<Piece>::empty());
            }
        } else {
            let d = cs[pos + 1];
            if d == '%' {
                out.push(Piece::Text('%'));
                pos = pos + 2;
                proof {
                    lemma_push_concat(before, Piece::Text('%'), plan(cs@.subrange(pos as int, cs@.len() as int), idx0, nargs as nat).0);
                }
            } else if (d == 's' || d == 'd' || d == 'i' || d == 'f' || d == 'o' || d == 'O' || d == 'c') && idx < nargs {
                if d != 'c' {
                    out.push(Piece::Arg(d, idx));
                }
                idx = idx + 1;
                pos = pos + 2;
                proof {
                    if d != 'c' {
                        lemma_push_concat(
                            before,
                            Piece::Arg(d, idx0 as usize),
                            plan(cs@.subrange(pos as int, cs@.len() as int), idx as nat, nargs as nat).0,
                        );
                    }
                }
            } else {
                out.push(Piece::Text('%'));
                out.push(Piece::Text(d));
                pos = pos + 2;
                proof {
                    lemma_push2_concat(
                        before,
                        Piece::Text('%'),
                        Piece::Text(d),
                        plan(cs@.subrange(pos as int, cs@.len() as int), idx0, nargs as nat).0,
                    );
                }
            }
        }
    }
    assert(cs@.subrange(pos as int, cs@.len() as int) =~= Seq::<char>::empty());
    assert(out@ + Seq::<Piece>::empty() =~= out@);
    (out, idx)
}

proof fn lemma_cons_index(x: Piece, r: Seq<Piece>)
    ensures
        (seq![x] + r).len() == 1 + r.len(),
        (seq![x] + r)[0] == x,
        forall|k: int| 1 <= k < 1 + r.len() ==> #[trigger] (seq![x] + r)[k] == r[k - 1],
{
}

/// The formatter consumes arguments in order and never past the last one: the index after it
/// lies between the starting index and the argument count.
pub proof fn lemma_plan_consumes_within_bounds(cs: Seq<char>, idx: nat, nargs: nat)
    requires
        idx <= nargs,
    ensures
        idx <= plan(cs, idx, nargs).1 <= nargs,
    decreases cs.len(),
{
    if cs.len() > 0 {
        if cs[0] != '%' {
            lemma_plan_consumes_within_bounds(cs.drop_first(), idx, nargs);
        } else if cs.len() > 1 {
            let c = cs[1];
            let rest = cs.subrange(2, cs.len() as int);
            if is_specifier(c) && idx < nargs && c != '%' {
                lemma_plan_consumes_within_bounds(rest, idx + 1, nargs);
            } else {
                lemma_plan_consumes_within_bounds(rest, idx, nargs);
            }
        }
    }
}

/// A format string without `%` is copied as it is and consumes no argument.
#[verifier::spinoff_prover]
#[verifier::rlimit(40)]
pub proof fn lemma_plan_plain_text(cs: Seq<char>, idx: nat, nargs: nat)
    requires
        forall|k: int| 0 <= k < cs.len() ==> cs[k] != '%',
    ensures
        plan(cs, idx, nargs).0.len() == cs.len(),
        forall|k: int| 0 <= k < cs.len() ==> #[trigger] plan(cs, idx, nargs).0[k] == Piece::Text(cs[k]),
        plan(cs, idx, nargs).1 == idx,
    decreases cs.len(),
{
    if cs.len() > 0 {
        assert(cs[0] != '%');
        assert forall|k: int| 0 <= k < cs.drop_first().len() implies cs.drop_first()[k] != '%' by {
            assert(cs[k + 1] != '%');
        }
        lemma_plan_plain_text(cs.drop_first(), idx, nargs);
        let r = plan(cs.drop_first(), idx, nargs);
        assert(plan(cs, idx, nargs) == (seq![Piece::Text(cs[0])] + r.0, r.1));
        lemma_cons_index(Piece::Text(cs[0]), r.0);
        assert forall|k: int| 0 <= k < cs.len() implies #[trigger] plan(cs, idx, nargs).0[k] == Piece::Text(cs[k]) by {
            if k > 0 {
                assert(cs.drop_first()[k - 1] == cs[k]);
            }
        }
    }
}
/// The message `console.assert` writes for a failed assertion: `Assertion failed`, then, when
/// values were given, a colon and each formatted value after a space.
pub open spec fn assertion_text(values: Seq<Seq<char>>) -> Seq<char>
    decreases values.len(),
{
    if values.len() == 0 {
        "Assertion failed"@
    } else if values.len() == 1 {
        "Assertion failed"@ + seq![':', ' '] + values[0]
    } else {
        assertion_text(values.drop_last()) + seq![' '] + values.last()
    }
}

/// Builds the message of a failed `console.assert` from the already formatted values.
pub fn assertion_message(values: &Vec<String>) -> (r: String)
    ensures
        r@ == assertion_text(values@.map_values(|v: String| v@)),
{
    let ghost vs = values@.map_values(|v: String| v@);
    let mut out = chars_of("Assertion failed");
    let mut i: usize = 0;
    assert(vs.subrange(0, 0) =~= Seq::<Seq<char>>::empty());
    while i < values.len()
        invariant
            vs == values@.map_values(|v: String| v@),
            i <= values@.len(),
            out@ == assertion_text(vs.subrange(0, i as int)),
        decreases values.len() - i,
    {
        if i == 0 {
            out.push(':');
        }
        out.push(' ');
        push_chars(&mut out, &values[i]);
        assert(vs.subrange(0, i + 1).drop_last() =~= vs.subrange(0, i as int));
        i = i + 1;
        assert(out@ =~= assertion_text(vs.subrange(0, i as int)));
    }
    assert(vs.subrange(0, vs.len() as int) =~= vs);
    string_from_chars(&out)
}

/// Whether a `console.log` call formats its first value: it must be a string and at least one
/// more value must follow.
pub fn formatter_applies(count: usize, first_is_string: bool) -> (b: bool)
    ensures
        b == (count > 1 && first_is_string),
{
    count > 1 && first_is_string
}

/// The line `console.log` writes after the formatter: the formatted text, then each value the
/// formatter did not take, each after a space except the very first value of a call that
/// formatted nothing.
pub open spec fn log_line_text(formatted: Seq<char>, formatter_used: bool, rest: Seq<Seq<char>>) -> Seq<char>
    decreases rest.len(),
{
    if rest.len() == 0 {
        formatted
    } else {
        let before = log_line_text(formatted, formatter_used, rest.drop_last());
        if !formatter_used && rest.len() == 1 {
            before + rest.last()
        } else {
            before + seq![' '] + rest.last()
        }
    }
}

/// Lays out a `console.log` line from the formatter's output (empty when it did not apply)
/// and the remaining values, already formatted.
pub fn log_line(formatted: &str, formatter_used: bool, rest: &Vec<String>) -> (r: String)
    ensures
        r@ == log_line_text(formatted@, formatter_used, rest@.map_values(|v: String| v@)),
{
    let ghost vs = rest@.map_values(|v: String| v@);
    let mut out = chars_of(formatted);
    let mut i: usize = 0;
    assert(vs.subrange(0, 0) =~= Seq::<Seq<char>>::empty());
    while i < rest.len()
        invariant
            vs == rest@.map_values(|v: String| v@),
            i <= rest@.len(),
            out@ == log_line_text(formatted@, formatter_used, vs.subrange(0, i as int)),
        decreases rest.len() - i,
    {
        if formatter_used || i > 0 {
            out.push(' ');
        }
        push_chars(&mut out, &rest[i]);
        assert(vs.subrange(0, i + 1).drop_last() =~= vs.subrange(0, i as int));
        i = i + 1;
        assert(out@ =~= log_line_text(formatted@, formatter_used, vs.subrange(0, i as int)));
    }
    assert(vs.subrange(0, vs.len() as int) =~= vs);
    string_from_chars(&out)
}

} // verus!
