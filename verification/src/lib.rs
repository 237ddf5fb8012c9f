//! Conversion of LaTeX-style markup to plain Unicode text.
//!
//! The crate expands symbol macros (`\alpha` and the like) by literal
//! substitution from a symbol table, and then rewrites modifier spans
//! (`^`, `_`, and the font commands `\bb`, `\bf`, `\it`, `\cal`, `\frak`,
//! `\mono`) through a small three-state scanner, mapping each modified
//! character through a per-modifier table.
//!
//! [`convert`] runs the whole pipeline with the default tables;
//! [`convert_latex_symbols`] runs only the symbol-substitution stage.  The
//! stages are also available with caller-supplied tables, as
//! [`substitute`](substitute::substitute) and
//! [`apply_modifier`](rewrite::apply_modifier).

use vstd::prelude::*;

mod chars;
pub mod data;
pub mod laws;
pub mod rewrite;
pub mod substitute;
pub mod table;

pub use data::default_bb;
pub use data::default_bf;
pub use data::default_cal;
pub use data::default_frak;
pub use data::default_it;
pub use data::default_mono;
pub use data::default_subscripts;
pub use data::default_superscripts;
pub use data::default_symbols;
pub use rewrite::apply_modifier;
pub use rewrite::Mode;
pub use substitute::substitute;
pub use table::CharTable;
pub use table::SymbolTable;

verus! {

/// The modifier stage: one rewrite pass per modifier kind over the default
/// tables, superscript first, subscript second, then the font styles.
pub open spec fn all_modifiers_spec(s: Seq<char>) -> Seq<char> {
    let s1 = rewrite::rewrite_spec(s, "^"@, data::superscript_map());
    let s2 = rewrite::rewrite_spec(s1, "_"@, data::subscript_map());
    let s3 = rewrite::rewrite_spec(s2, "\\bb"@, data::bb_map());
    let s4 = rewrite::rewrite_spec(s3, "\\bf"@, data::bf_map());
    let s5 = rewrite::rewrite_spec(s4, "\\it"@, data::it_map());
    let s6 = rewrite::rewrite_spec(s5, "\\cal"@, data::cal_map());
    let s7 = rewrite::rewrite_spec(s6, "\\frak"@, data::frak_map());
    rewrite::rewrite_spec(s7, "\\mono"@, data::mono_map())
}

/// The whole pipeline: symbol substitution over the default symbol table,
/// then every modifier rewrite in the fixed order.
pub open spec fn convert_spec(s: Seq<char>) -> Seq<char> {
    all_modifiers_spec(substitute::substitute_all(s, data::symbol_pairs()))
}

/// Convert latex expressions to their unicode representation.
///
/// Symbols, super- and subscripts and fonts are supported.
pub fn convert(s: &str) -> (r: String)
    ensures
        r@ == convert_spec(s@),
{
    let s = convert_latex_symbols(s);
    apply_all_modifiers(s.as_str())
}

/// Replace each "\alpha" and similar latex symbols with their unicode
/// representation.
pub fn convert_latex_symbols(s: &str) -> (r: String)
    ensures
        r@ == substitute::substitute_all(s@, data::symbol_pairs()),
{
    let table = data::default_symbols();
    substitute::substitute(s, &table)
}

/// Replace super- and subscripts and fonts with their unicode
/// representation, one modifier kind at a time.
pub fn apply_all_modifiers(s: &str) -> (r: String)
    ensures
        r@ == all_modifiers_spec(s@),
{
    let s = rewrite::apply_modifier(s, "^", &data::default_superscripts());
    let s = rewrite::apply_modifier(s.as_str(), "_", &data::default_subscripts());
    let s = rewrite::apply_modifier(s.as_str(), "\\bb", &data::default_bb());
    let s = rewrite::apply_modifier(s.as_str(), "\\bf", &data::default_bf());
    let s = rewrite::apply_modifier(s.as_str(), "\\it", &data::default_it());
    let s = rewrite::apply_modifier(s.as_str(), "\\cal", &data::default_cal());
    let s = rewrite::apply_modifier(s.as_str(), "\\frak", &data::default_frak());
    let s = rewrite::apply_modifier(s.as_str(), "\\mono", &data::default_mono());
    s
}

} // verus!
