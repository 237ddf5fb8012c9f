//! Lookup tables for the converter.
//!
//! A [`CharTable`] maps single characters to their modified forms (for
//! superscripts, subscripts and font styles); its view is the mathematical
//! `Map<char, char>` it denotes.  A [`SymbolTable`] lists macro/replacement
//! string pairs in the order in which substitution applies them; its view is
//! the sequence of those pairs as character sequences.

use vstd::prelude::*;
use vstd::string::StrSliceExecFns;
use vstd::string::StringExecFns;

verus! {

/// The map denoted by a sequence of key/value pairs.  When a key is listed
/// twice, the earliest entry wins, matching first-match lookup.
pub open spec fn pairs_map(ps: Seq<(char, char)>) -> Map<char, char>
    decreases ps.len(),
{
    if ps.len() == 0 {
        Map::empty()
    } else {
        pairs_map(ps.skip(1)).insert(ps[0].0, ps[0].1)
    }
}

/// The pairwise zip of two equally long character sequences.
pub open spec fn zip_pairs(ks: Seq<char>, vs: Seq<char>) -> Seq<(char, char)> {
    Seq::new(ks.len(), |i: int| (ks[i], vs[i]))
}

/// Table lookup with pass-through: a character without an entry maps to
/// itself.
pub open spec fn lookup(m: Map<char, char>, c: char) -> char {
    if m.contains_key(c) {
        m[c]
    } else {
        c
    }
}

/// A finite character-to-character mapping, used for one modifier kind.
pub struct CharTable {
    pairs: Vec<(char, char)>,
}

impl View for CharTable {
    type V = Map<char, char>;

    closed spec fn view(&self) -> Map<char, char> {
        pairs_map(self.pairs@)
    }
}

proof fn lemma_pairs_map_found(ps: Seq<(char, char)>, i: int, c: char)
    requires
        0 <= i < ps.len(),
        ps[i].0 == c,
        forall|j: int| 0 <= j < i ==> ps[j].0 != c,
    ensures
        pairs_map(ps).contains_key(c),
        pairs_map(ps)[c] == ps[i].1,
    decreases i,
{
    if i > 0 {
        lemma_pairs_map_found(ps.skip(1), i - 1, c);
    }
}

proof fn lemma_pairs_map_absent(ps: Seq<(char, char)>, c: char)
    requires
        forall|j: int| 0 <= j < ps.len() ==> ps[j].0 != c,
    ensures
        !pairs_map(ps).contains_key(c),
    decreases ps.len(),
{
    if ps.len() > 0 {
        lemma_pairs_map_absent(ps.skip(1), c);
    }
}

impl CharTable {
    /// Build a table from two parallel strings: the character at each
    /// position of `keys` maps to the character at the same position of
    /// `vals`.
    pub fn from_strs(keys: &str, vals: &str) -> (t: CharTable)
        requires
            keys@.len() == vals@.len(),
        ensures
            t@ == pairs_map(zip_pairs(keys@, vals@)),
    {
        let n: usize = keys.unicode_len();
        let mut pairs: Vec<(char, char)> = Vec::new();
        let mut i: usize = 0;
        while i < n
            invariant
                i <= n,
                n == keys@.len(),
                keys@.len() == vals@.len(),
                pairs@ == zip_pairs(keys@, vals@).take(i as int),
            decreases n - i,
        {
            pairs.push((keys.get_char(i), vals.get_char(i)));
            proof {
                assert(zip_pairs(keys@, vals@).take(i + 1) =~= zip_pairs(keys@, vals@).take(
                    i as int,
                ).push((keys@[i as int], vals@[i as int])));
            }
            i = i + 1;
        }
        proof {
            assert(pairs@ =~= zip_pairs(keys@, vals@));
        }
        CharTable { pairs }
    }

    /// Look `c` up, returning the mapped character, or `c` itself when the
    /// table has no entry for it.
    pub fn get(&self, c: char) -> (r: char)
        ensures
            r == lookup(self@, c),
    {
        let n: usize = self.pairs.len();
        let mut i: usize = 0;
        while i < n
            invariant
                i <= n,
                n == self.pairs@.len(),
                forall|j: int| 0 <= j < i ==> self.pairs@[j].0 != c,
            decreases n - i,
        {
            let (k, v) = self.pairs[i];
            if k == c {
                proof {
                    lemma_pairs_map_found(self.pairs@, i as int, c);
                }
                return v;
            }
            i = i + 1;
        }
        proof {
            lemma_pairs_map_absent(self.pairs@, c);
        }
        c
    }
}

/// An ordered list of macro/replacement pairs.  Substitution applies the
/// entries in list order, so when one key is a prefix of another the earlier
/// entry takes precedence; builders should list longer keys first.
pub struct SymbolTable {
    pairs: Vec<(String, String)>,
}

impl View for SymbolTable {
    type V = Seq<(Seq<char>, Seq<char>)>;

    closed spec fn view(&self) -> Seq<(Seq<char>, Seq<char>)> {
        self.pairs@.map(|i: int, p: (String, String)| (p.0@, p.1@))
    }
}

impl SymbolTable {
    /// The empty table.
    pub fn new() -> (t: SymbolTable)
        ensures
            t@ == Seq::<(Seq<char>, Seq<char>)>::empty(),
    {
        let t = SymbolTable { pairs: Vec::new() };
        proof {
            assert(t@ =~= Seq::<(Seq<char>, Seq<char>)>::empty());
        }
        t
    }

    /// Append an entry mapping `key` to `val`.
    pub fn add(&mut self, key: &str, val: &str)
        ensures
            final(self)@ == old(self)@.push((key@, val@)),
    {
        self.pairs.push((String::from_str(key), String::from_str(val)));
        proof {
            assert(final(self)@ =~= old(self)@.push((key@, val@)));
        }
    }

    /// The number of entries.
    pub fn len(&self) -> (n: usize)
        ensures
            n == self@.len(),
    {
        self.pairs.len()
    }

    /// The key of entry `i`, as a fresh character vector.
    pub fn key_chars(&self, i: usize) -> (v: Vec<char>)
        requires
            i < self@.len(),
        ensures
            v@ == self@[i as int].0,
    {
        crate::chars::str_to_chars(self.pairs[i].0.as_str())
    }

    /// The replacement of entry `i`, as a fresh character vector.
    pub fn val_chars(&self, i: usize) -> (v: Vec<char>)
        requires
            i < self@.len(),
        ensures
            v@ == self@[i as int].1,
    {
        crate::chars::str_to_chars(self.pairs[i].1.as_str())
    }
}

} // verus!
