//! Laws of the converter, proved once and for all.
//!
//! The public proof functions here state the guarantees a caller can rely
//! on: text free of macros and triggers passes through unchanged; a
//! single-character modifier span becomes exactly the mapped character; a
//! brace-delimited span becomes exactly its characters mapped one by one;
//! and a character without a table entry survives its span unchanged.

use vstd::prelude::*;
use crate::data;
use crate::rewrite::Mode;
use crate::rewrite::rewrite_spec;
use crate::rewrite::scan_from;
use crate::substitute::occurs;
use crate::substitute::occurs_at;
use crate::substitute::replace_all;
use crate::substitute::substitute_all;
use crate::table::lookup;

verus! {

/// Each character of `s` mapped through `m`, characters without an entry
/// kept as they are.
pub open spec fn map_chars(s: Seq<char>, m: Map<char, char>) -> Seq<char>
    decreases s.len(),
{
    if s.len() == 0 {
        Seq::empty()
    } else {
        seq![lookup(m, s[0])] + map_chars(s.skip(1), m)
    }
}

/// A pattern that holds a character `s` lacks cannot occur in `s`.
proof fn lemma_occurs_needs_char(s: Seq<char>, pat: Seq<char>, c: char)
    requires
        pat.contains(c),
        !s.contains(c),
    ensures
        !occurs(s, pat),
{
    if occurs(s, pat) {
        let i = choose|i: int| occurs_at(s, pat, i);
        let j = choose|j: int| 0 <= j < pat.len() && pat[j] == c;
        assert(s.subrange(i, i + pat.len() as int)[j] == s[i + j]);
        assert(s.contains(s[i + j]));
    }
}

/// Replacement of a pattern that does not occur changes nothing.
proof fn lemma_replace_absent(s: Seq<char>, pat: Seq<char>, rep: Seq<char>)
    requires
        pat.len() > 0,
        !occurs(s, pat),
    ensures
        replace_all(s, pat, rep) == s,
    decreases s.len(),
{
    if s.len() >= pat.len() {
        if s.take(pat.len() as int) == pat {
            assert(s.subrange(0, pat.len() as int) =~= s.take(pat.len() as int));
            assert(occurs_at(s, pat, 0));
            assert(false);
        }
        if occurs(s.skip(1), pat) {
            let i = choose|i: int| occurs_at(s.skip(1), pat, i);
            assert(s.skip(1).subrange(i, i + pat.len()) =~= s.subrange(i + 1, i + 1 + pat.len()));
            assert(occurs_at(s, pat, i + 1));
            assert(false);
        }
        lemma_replace_absent(s.skip(1), pat, rep);
        assert(seq![s[0]] + s.skip(1) =~= s);
    }
}

/// Replacement walks over a prefix free of the pattern's first character.
proof fn lemma_replace_prefix(p: Seq<char>, t: Seq<char>, pat: Seq<char>, rep: Seq<char>)
    requires
        pat.len() > 0,
        !p.contains(pat[0]),
    ensures
        replace_all(p + t, pat, rep) == p + replace_all(t, pat, rep),
    decreases p.len(),
{
    if p.len() == 0 {
        assert(p + t =~= t);
        assert(p + replace_all(t, pat, rep) =~= replace_all(t, pat, rep));
    } else {
        let s = p + t;
        assert(s[0] == p[0]);
        assert(p.contains(p[0]));
        if s.len() < pat.len() {
            assert(t.len() < pat.len());
            assert(p + replace_all(t, pat, rep) =~= s);
        } else {
            assert(s.take(pat.len() as int)[0] == p[0]);
            assert(s.take(pat.len() as int) != pat);
            if p.skip(1).contains(pat[0]) {
                let k = choose|k: int| 0 <= k < p.skip(1).len() && p.skip(1)[k] == pat[0];
                assert(p[k + 1] == pat[0]);
                assert(p.contains(p[k + 1]));
                assert(false);
            }
            lemma_replace_prefix(p.skip(1), t, pat, rep);
            assert(s.skip(1) =~= p.skip(1) + t);
            assert(seq![s[0]] + (p.skip(1) + replace_all(t, pat, rep)) =~= p + replace_all(
                t,
                pat,
                rep,
            ));
        }
    }
}

/// The scanner copies marker-free text through unchanged.
proof fn lemma_scan_plain(s: Seq<char>, m: Map<char, char>)
    requires
        !s.contains('^'),
    ensures
        scan_from(Mode::Normal, s, m) == s,
    decreases s.len(),
{
    if s.len() > 0 {
        assert(s.contains(s[0]));
        if s.skip(1).contains('^') {
            let k = choose|k: int| 0 <= k < s.skip(1).len() && s.skip(1)[k] == '^';
            assert(s[k + 1] == '^');
            assert(s.contains(s[k + 1]));
            assert(false);
        }
        lemma_scan_plain(s.skip(1), m);
        assert(seq![s[0]] + s.skip(1) =~= s);
    }
}

/// The scanner walks over a marker-free prefix, copying it through.
proof fn lemma_scan_prefix(p: Seq<char>, t: Seq<char>, m: Map<char, char>)
    requires
        !p.contains('^'),
    ensures
        scan_from(Mode::Normal, p + t, m) == p + scan_from(Mode::Normal, t, m),
    decreases p.len(),
{
    if p.len() == 0 {
        assert(p + t =~= t);
        assert(p + scan_from(Mode::Normal, t, m) =~= scan_from(Mode::Normal, t, m));
    } else {
        let s = p + t;
        assert(s[0] == p[0]);
        assert(p.contains(p[0]));
        if p.skip(1).contains('^') {
            let k = choose|k: int| 0 <= k < p.skip(1).len() && p.skip(1)[k] == '^';
            assert(p[k + 1] == '^');
            assert(p.contains(p[k + 1]));
            assert(false);
        }
        lemma_scan_prefix(p.skip(1), t, m);
        assert(s.skip(1) =~= p.skip(1) + t);
        assert(seq![p[0]] + (p.skip(1) + scan_from(Mode::Normal, t, m)) =~= p + scan_from(
            Mode::Normal,
            t,
            m,
        ));
    }
}

/// In the `Long` state the scanner maps every character up to the closing
/// brace, drops the brace, and returns to `Normal`.
proof fn lemma_scan_long(inner: Seq<char>, t: Seq<char>, m: Map<char, char>)
    requires
        !inner.contains('}'),
    ensures
        scan_from(Mode::Long, inner + seq!['}'] + t, m) == map_chars(inner, m) + scan_from(
            Mode::Normal,
            t,
            m,
        ),
    decreases inner.len(),
{
    let s = inner + seq!['}'] + t;
    if inner.len() == 0 {
        assert(s =~= seq!['}'] + t);
        assert(s.skip(1) =~= t);
        assert(map_chars(inner, m) + scan_from(Mode::Normal, t, m) =~= scan_from(
            Mode::Normal,
            t,
            m,
        ));
    } else {
        assert(s[0] == inner[0]);
        assert(inner.contains(inner[0]));
        if inner.skip(1).contains('}') {
            let k = choose|k: int| 0 <= k < inner.skip(1).len() && inner.skip(1)[k] == '}';
            assert(inner[k + 1] == '}');
            assert(inner.contains(inner[k + 1]));
            assert(false);
        }
        lemma_scan_long(inner.skip(1), t, m);
        assert(s.skip(1) =~= inner.skip(1) + seq!['}'] + t);
        assert(seq![lookup(m, inner[0])] + (map_chars(inner.skip(1), m) + scan_from(
            Mode::Normal,
            t,
            m,
        )) =~= map_chars(inner, m) + scan_from(Mode::Normal, t, m));
    }
}

/// A rewrite pass leaves text unchanged when the trigger does not occur in
/// it and it holds no marker character.
proof fn lemma_rewrite_plain(s: Seq<char>, trigger: Seq<char>, m: Map<char, char>)
    requires
        trigger.len() > 0,
        !occurs(s, trigger),
        !s.contains('^'),
    ensures
        rewrite_spec(s, trigger, m) == s,
{
    lemma_replace_absent(s, trigger, seq!['^']);
    lemma_scan_plain(s, m);
}

/// Substitution changes nothing when no table key occurs in the text.
proof fn lemma_substitute_absent(s: Seq<char>, pairs: Seq<(Seq<char>, Seq<char>)>)
    requires
        forall|i: int| 0 <= i < pairs.len() ==> !occurs(s, (#[trigger] pairs[i]).0),
    ensures
        substitute_all(s, pairs) == s,
    decreases pairs.len(),
{
    if pairs.len() > 0 {
        if pairs[0].0.len() == 0 {
            assert(s.subrange(0, 0) =~= pairs[0].0);
            assert(occurs_at(s, pairs[0].0, 0));
            assert(false);
        }
        lemma_replace_absent(s, pairs[0].0, pairs[0].1);
        assert(forall|i: int|
            0 <= i < pairs.skip(1).len() ==> (#[trigger] pairs.skip(1)[i]) == pairs[i + 1]);
        lemma_substitute_absent(s, pairs.skip(1));
    }
}

/// Text containing no symbol macro and none of the characters `^`, `_` and
/// `\` converts to itself.
pub proof fn lemma_plain_text_unchanged(s: Seq<char>)
    requires
        forall|i: int|
            0 <= i < data::symbol_pairs().len() ==> !occurs(
                s,
                (#[trigger] data::symbol_pairs()[i]).0,
            ),
        !s.contains('^'),
        !s.contains('_'),
        !s.contains('\\'),
    ensures
        crate::convert_spec(s) == s,
{
    lemma_substitute_absent(s, data::symbol_pairs());
    reveal_strlit("^");
    reveal_strlit("_");
    reveal_strlit("\\bb");
    reveal_strlit("\\bf");
    reveal_strlit("\\it");
    reveal_strlit("\\cal");
    reveal_strlit("\\frak");
    reveal_strlit("\\mono");
    assert("^"@.contains('^')) by {
        assert("^"@[0] == '^');
    }
    assert("_"@.contains('_')) by {
        assert("_"@[0] == '_');
    }
    assert("\\bb"@.contains('\\')) by {
        assert("\\bb"@[0] == '\\');
    }
    assert("\\bf"@.contains('\\')) by {
        assert("\\bf"@[0] == '\\');
    }
    assert("\\it"@.contains('\\')) by {
        assert("\\it"@[0] == '\\');
    }
    assert("\\cal"@.contains('\\')) by {
        assert("\\cal"@[0] == '\\');
    }
    assert("\\frak"@.contains('\\')) by {
        assert("\\frak"@[0] == '\\');
    }
    assert("\\mono"@.contains('\\')) by {
        assert("\\mono"@[0] == '\\');
    }
    lemma_occurs_needs_char(s, "^"@, '^');
    lemma_occurs_needs_char(s, "_"@, '_');
    lemma_occurs_needs_char(s, "\\bb"@, '\\');
    lemma_occurs_needs_char(s, "\\bf"@, '\\');
    lemma_occurs_needs_char(s, "\\it"@, '\\');
    lemma_occurs_needs_char(s, "\\cal"@, '\\');
    lemma_occurs_needs_char(s, "\\frak"@, '\\');
    lemma_occurs_needs_char(s, "\\mono"@, '\\');
    lemma_rewrite_plain(s, "^"@, data::superscript_map());
    lemma_rewrite_plain(s, "_"@, data::subscript_map());
    lemma_rewrite_plain(s, "\\bb"@, data::bb_map());
    lemma_rewrite_plain(s, "\\bf"@, data::bf_map());
    lemma_rewrite_plain(s, "\\it"@, data::it_map());
    lemma_rewrite_plain(s, "\\cal"@, data::cal_map());
    lemma_rewrite_plain(s, "\\frak"@, data::frak_map());
    lemma_rewrite_plain(s, "\\mono"@, data::mono_map());
}

/// Text holding none of the characters `^`, `_` and `\` converts to
/// itself: every default macro key begins with a backslash, so no macro can
/// occur in such text either.
pub proof fn lemma_text_without_special_chars_unchanged(s: Seq<char>)
    requires
        !s.contains('^'),
        !s.contains('_'),
        !s.contains('\\'),
    ensures
        crate::convert_spec(s) == s,
{
    data::lemma_symbol_keys_backslash();
    assert forall|i: int|
        0 <= i < data::symbol_pairs().len() implies !occurs(
        s,
        (#[trigger] data::symbol_pairs()[i]).0,
    ) by {
        let key = data::symbol_pairs()[i].0;
        assert(key.contains(key[0]));
        lemma_occurs_needs_char(s, key, '\\');
    }
    lemma_plain_text_unchanged(s);
}

/// The common shape of a one-character span: the trigger and the character
/// vanish and the looked-up character takes their place; the prefix passes
/// through and the rest is rewritten as usual.
proof fn lemma_span_core(
    prefix: Seq<char>,
    x: char,
    rest: Seq<char>,
    trigger: Seq<char>,
    m: Map<char, char>,
)
    requires
        trigger.len() > 0,
        !prefix.contains(trigger[0]),
        !prefix.contains('^'),
        x != '{',
        x != trigger[0],
    ensures
        rewrite_spec(prefix + trigger + seq![x] + rest, trigger, m) == prefix + seq![lookup(m, x)]
            + rewrite_spec(rest, trigger, m),
{
    let mk = seq!['^'];
    let tail = trigger + (seq![x] + rest);
    assert(prefix + trigger + seq![x] + rest =~= prefix + tail);
    lemma_replace_prefix(prefix, tail, trigger, mk);
    assert(tail.take(trigger.len() as int) =~= trigger);
    assert(tail.skip(trigger.len() as int) =~= seq![x] + rest);
    if seq![x].contains(trigger[0]) {
        let k = choose|k: int| 0 <= k < seq![x].len() && seq![x][k] == trigger[0];
        assert(false);
    }
    lemma_replace_prefix(seq![x], rest, trigger, mk);
    let r = replace_all(rest, trigger, mk);
    assert(replace_all(tail, trigger, mk) == mk + (seq![x] + r));
    let scanned = mk + (seq![x] + r);
    lemma_scan_prefix(prefix, scanned, m);
    assert(scanned.skip(1) =~= seq![x] + r);
    assert((seq![x] + r).skip(1) =~= r);
    assert(scanned[0] == '^');
    assert(scan_from(Mode::Normal, scanned, m) == scan_from(Mode::Modified, seq![x] + r, m));
    assert((seq![x] + r)[0] == x);
    assert(scan_from(Mode::Modified, seq![x] + r, m) == seq![lookup(m, x)] + scan_from(
        Mode::Normal,
        r,
        m,
    ));
    assert(prefix + (seq![lookup(m, x)] + scan_from(Mode::Normal, r, m)) =~= prefix + seq![
        lookup(m, x),
    ] + scan_from(Mode::Normal, r, m));
}

/// A single-character span whose character has a table entry rewrites to
/// exactly the mapped character: trigger and character are consumed, the
/// prefix passes through, and the rest is rewritten as usual.
pub proof fn lemma_single_char_span(
    prefix: Seq<char>,
    x: char,
    rest: Seq<char>,
    trigger: Seq<char>,
    m: Map<char, char>,
)
    requires
        trigger.len() > 0,
        !prefix.contains(trigger[0]),
        !prefix.contains('^'),
        x != '{',
        x != trigger[0],
        m.contains_key(x),
    ensures
        rewrite_spec(prefix + trigger + seq![x] + rest, trigger, m) == prefix + seq![m[x]]
            + rewrite_spec(rest, trigger, m),
{
    lemma_span_core(prefix, x, rest, trigger, m);
}

/// A character without a table entry passes through its span unchanged:
/// only the trigger is consumed.
pub proof fn lemma_unmapped_char_passes_through(
    prefix: Seq<char>,
    x: char,
    rest: Seq<char>,
    trigger: Seq<char>,
    m: Map<char, char>,
)
    requires
        trigger.len() > 0,
        !prefix.contains(trigger[0]),
        !prefix.contains('^'),
        x != '{',
        x != trigger[0],
        !m.contains_key(x),
    ensures
        rewrite_spec(prefix + trigger + seq![x] + rest, trigger, m) == prefix + seq![x]
            + rewrite_spec(rest, trigger, m),
{
    lemma_span_core(prefix, x, rest, trigger, m);
}

/// A brace-delimited span rewrites to its characters mapped one by one:
/// trigger and braces are consumed, the prefix passes through, and the rest
/// is rewritten as usual.
pub proof fn lemma_brace_span(
    prefix: Seq<char>,
    inner: Seq<char>,
    rest: Seq<char>,
    trigger: Seq<char>,
    m: Map<char, char>,
)
    requires
        trigger.len() > 0,
        trigger[0] != '{',
        trigger[0] != '}',
        !prefix.contains(trigger[0]),
        !prefix.contains('^'),
        !inner.contains(trigger[0]),
        !inner.contains('}'),
    ensures
        rewrite_spec(prefix + trigger + seq!['{'] + inner + seq!['}'] + rest, trigger, m) == prefix
            + map_chars(inner, m) + rewrite_spec(rest, trigger, m),
{
    let mk = seq!['^'];
    let braced = seq!['{'] + inner + seq!['}'];
    let tail = trigger + (braced + rest);
    assert(prefix + trigger + seq!['{'] + inner + seq!['}'] + rest =~= prefix + tail);
    lemma_replace_prefix(prefix, tail, trigger, mk);
    assert(tail.take(trigger.len() as int) =~= trigger);
    assert(tail.skip(trigger.len() as int) =~= braced + rest);
    assert(forall|k: int| 0 <= k < braced.len() ==> #[trigger] braced[k] != trigger[0]) by {
        assert forall|k: int| 0 <= k < braced.len() implies #[trigger] braced[k] != trigger[0] by {
            if k == 0 {
                assert(braced[k] == '{');
            } else if k <= inner.len() {
                assert(braced[k] == inner[k - 1]);
                if inner[k - 1] == trigger[0] {
                    assert(inner.contains(inner[k - 1]));
                }
            } else {
                assert(braced[k] == '}');
            }
        }
    }
    if braced.contains(trigger[0]) {
        let k = choose|k: int| 0 <= k < braced.len() && braced[k] == trigger[0];
        assert(false);
    }
    lemma_replace_prefix(braced, rest, trigger, mk);
    let r = replace_all(rest, trigger, mk);
    assert(replace_all(tail, trigger, mk) == mk + (braced + r));
    let scanned = mk + (braced + r);
    lemma_scan_prefix(prefix, scanned, m);
    assert(scanned.skip(1) =~= braced + r);
    assert((braced + r)[0] == '{');
    assert((braced + r).skip(1) =~= inner + seq!['}'] + r);
    lemma_scan_long(inner, r, m);
    assert(scanned[0] == '^');
    assert(scan_from(Mode::Normal, scanned, m) == scan_from(Mode::Modified, braced + r, m));
    assert(scan_from(Mode::Modified, braced + r, m) == scan_from(
        Mode::Long,
        inner + seq!['}'] + r,
        m,
    ));
    assert(prefix + (map_chars(inner, m) + scan_from(Mode::Normal, r, m)) =~= prefix + map_chars(
        inner,
        m,
    ) + scan_from(Mode::Normal, r, m));
}

} // verus!
