//! The modifier rewriter: the state machine that consumes modifier spans.
//!
//! A pass first normalizes the (possibly multi-character) trigger to the
//! single marker character `^`, then scans left to right with three states:
//!
//! * `Normal` — the marker switches to `Modified`; any other character is
//!   copied through.
//! * `Modified` — `{` switches to `Long` with no output; any other
//!   character is emitted through the table (or unchanged when the table has
//!   no entry for it) and the scan returns to `Normal`.
//! * `Long` — `}` ends the span and returns to `Normal` with no output;
//!   every other character is emitted through the table.
//!
//! A marker at the end of input is dropped; an unterminated brace span maps
//! the whole rest of the input.

use vstd::prelude::*;
use crate::table::CharTable;
use crate::table::lookup;
use crate::substitute::replace_all;
use crate::substitute::replace_chars;

verus! {

/// The scanner's state.
pub enum Mode {
    Normal,
    Modified,
    Long,
}

/// The output of the scan starting in state `mode` over the rest of the
/// input, mapping modified characters through `m`.
pub open spec fn scan_from(mode: Mode, s: Seq<char>, m: Map<char, char>) -> Seq<char>
    decreases s.len(),
{
    if s.len() == 0 {
        Seq::empty()
    } else {
        let c = s[0];
        let rest = s.skip(1);
        match mode {
            Mode::Normal => if c == '^' {
                scan_from(Mode::Modified, rest, m)
            } else {
                seq![c] + scan_from(Mode::Normal, rest, m)
            },
            Mode::Modified => if c == '{' {
                scan_from(Mode::Long, rest, m)
            } else {
                seq![lookup(m, c)] + scan_from(Mode::Normal, rest, m)
            },
            Mode::Long => if c == '}' {
                scan_from(Mode::Normal, rest, m)
            } else {
                seq![lookup(m, c)] + scan_from(Mode::Long, rest, m)
            },
        }
    }
}

/// One whole rewrite pass: normalize `trigger` to the marker, then scan
/// from the `Normal` state.
pub open spec fn rewrite_spec(s: Seq<char>, trigger: Seq<char>, m: Map<char, char>) -> Seq<char> {
    scan_from(Mode::Normal, replace_all(s, trigger, seq!['^']), m)
}

/// Run the scanner over `s`, mapping modified characters through `table`.
fn scan_chars(s: &Vec<char>, table: &CharTable) -> (r: Vec<char>)
    ensures
        r@ == scan_from(Mode::Normal, s@, table@),
{
    let n: usize = s.len();
    let mut out: Vec<char> = Vec::new();
    let mut mode = Mode::Normal;
    let mut i: usize = 0;
    proof {
        assert(s@.skip(0) =~= s@);
        assert(Seq::<char>::empty() + scan_from(Mode::Normal, s@, table@) =~= scan_from(
            Mode::Normal,
            s@,
            table@,
        ));
    }
    while i < n
        invariant
            i <= n,
            n == s@.len(),
            scan_from(Mode::Normal, s@, table@) == out@ + scan_from(
                mode,
                s@.skip(i as int),
                table@,
            ),
        decreases n - i,
    {
        let ghost rest = s@.skip(i as int);
        let ghost old_out = out@;
        let ghost old_mode = mode;
        proof {
            assert(rest[0] == s@[i as int]);
            assert(rest.skip(1) =~= s@.skip(i + 1));
        }
        let c = s[i];
        match mode {
            Mode::Normal => {
                if c == '^' {
                    mode = Mode::Modified;
                } else {
                    out.push(c);
                }
            },
            Mode::Modified => {
                if c == '{' {
                    mode = Mode::Long;
                } else {
                    out.push(table.get(c));
                    mode = Mode::Normal;
                }
            },
            Mode::Long => {
                if c == '}' {
                    mode = Mode::Normal;
                } else {
                    out.push(table.get(c));
                }
            },
        }
        i = i + 1;
        proof {
            assert(out@ + scan_from(mode, s@.skip(i as int), table@) =~= old_out + scan_from(
                old_mode,
                rest,
                table@,
            ));
        }
    }
    proof {
        assert(s@.skip(n as int) =~= Seq::<char>::empty());
        assert(out@ + Seq::<char>::empty() =~= out@);
    }
    out
}

/// Rewrite every span of `modifier` in `s` through `table`: normalize the
/// trigger, then run the scanner.
pub fn apply_modifier(s: &str, modifier: &str, table: &CharTable) -> (r: String)
    ensures
        r@ == rewrite_spec(s@, modifier@, table@),
{
    let sc: Vec<char> = crate::chars::str_to_chars(s);
    let mc: Vec<char> = crate::chars::str_to_chars(modifier);
    let replaced: Vec<char> = if mc.len() > 0 {
        let mut marker: Vec<char> = Vec::new();
        marker.push('^');
        proof {
            assert(marker@ =~= seq!['^']);
        }
        replace_chars(&sc, &mc, &marker)
    } else {
        sc
    };
    let scanned = scan_chars(&replaced, table);
    crate::chars::chars_to_string(&scanned)
}

} // verus!
