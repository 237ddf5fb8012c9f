use latex_unicode::convert;
use latex_unicode::convert_latex_symbols;
use latex_unicode::apply_all_modifiers;
use latex_unicode::apply_modifier;
use latex_unicode::substitute;
use latex_unicode::default_superscripts;
use latex_unicode::default_subscripts;
use latex_unicode::CharTable;
use latex_unicode::SymbolTable;

#[test]
fn single_symbol() {
    assert_eq!(convert(r"\alpha"), "α");
}

#[test]
fn plain_text_unchanged() {
    assert_eq!(convert("hello world"), "hello world");
    assert_eq!(convert("a{b}c 1+2=3"), "a{b}c 1+2=3");
    assert_eq!(convert(""), "");
}

#[test]
fn symbols_in_context() {
    assert_eq!(convert_latex_symbols(r"\alpha + \beta"), "α + β");
    assert_eq!(convert(r"\Gamma\delta"), "Γδ");
    assert_eq!(convert(r"\unknown stays"), r"\unknown stays");
}

#[test]
fn symbol_prefix_keys() {
    assert_eq!(convert_latex_symbols(r"\int"), "∫");
    assert_eq!(convert_latex_symbols(r"\infty"), "∞");
    assert_eq!(convert_latex_symbols(r"\in"), "∈");
    assert_eq!(convert_latex_symbols(r"x \in \emptyset"), "x ∈ ∅");
}

#[test]
fn superscript_single_char() {
    assert_eq!(convert("x^2"), "x²");
    assert_eq!(convert("x^2^3"), "x²³");
}

#[test]
fn subscript_brace_span() {
    assert_eq!(convert("x_{12}"), "x₁₂");
    assert_eq!(convert("x_{an}"), "xₐₙ");
}

#[test]
fn unmapped_char_passes_through() {
    assert_eq!(convert("x^Q"), "xQ");
    assert_eq!(convert("x_{Q1}"), "xQ₁");
}

#[test]
fn unterminated_brace_span() {
    assert_eq!(convert("x^{unterminated"), "xuⁿtermⁱⁿated");
}

#[test]
fn trailing_trigger_dropped() {
    assert_eq!(convert("x^"), "x");
    assert_eq!(convert("x_"), "x");
}

#[test]
fn superscript_and_subscript_together() {
    assert_eq!(convert("a^2_3"), "a²₃");
    assert_eq!(convert("x^1 + y_2"), "x¹ + y₂");
}

#[test]
fn symbols_then_modifiers() {
    assert_eq!(convert(r"\alpha^2"), "α²");
    assert_eq!(convert(r"\beta_{12}"), "β₁₂");
}

#[test]
fn font_modifiers() {
    assert_eq!(convert(r"\bbR"), "ℝ");
    assert_eq!(convert(r"\bb{NZQ}"), "ℕℤℚ");
    assert_eq!(convert(r"\bf{AB9}"), "𝐀𝐁𝟗");
    assert_eq!(convert(r"\it{ax}"), "𝑎𝑥");
    assert_eq!(convert(r"\ith"), "ℎ");
    assert_eq!(convert(r"\cal{L}"), "ℒ");
    assert_eq!(convert(r"\frakg"), "𝔤");
    assert_eq!(convert(r"\mono{abc}"), "𝚊𝚋𝚌");
}

#[test]
fn all_modifiers_without_symbols() {
    assert_eq!(apply_all_modifiers("x^2_3"), "x²₃");
    assert_eq!(apply_all_modifiers("plain"), "plain");
}

#[test]
fn default_tables_lookup() {
    assert_eq!(default_superscripts().get('2'), '²');
    assert_eq!(default_superscripts().get('n'), 'ⁿ');
    assert_eq!(default_superscripts().get('Q'), 'Q');
    assert_eq!(default_subscripts().get('a'), 'ₐ');
    assert_eq!(default_subscripts().get('+'), '₊');
}

#[test]
fn custom_modifier_table() {
    let table = CharTable::from_strs("ab", "AB");
    assert_eq!(apply_modifier("q*a*b q", "*", &table), "qAB q");
    assert_eq!(apply_modifier("*{ab}c", "*", &table), "ABc");
    assert_eq!(apply_modifier("*z", "*", &table), "z");
}

#[test]
fn custom_symbol_table() {
    let mut table = SymbolTable::new();
    table.add(":x:", "y");
    table.add(":long:", "<>");
    assert_eq!(substitute("a:x:c", &table), "ayc");
    assert_eq!(substitute(":x::x:", &table), "yy");
    assert_eq!(substitute("a:long:b", &table), "a<>b");
    assert_eq!(substitute("nothing", &table), "nothing");
}
