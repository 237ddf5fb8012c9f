//! The default conversion tables.
//!
//! The symbol table lists LaTeX macro names with their Unicode values,
//! longest key first and lexicographically within one length, so that a
//! macro that is a prefix of a longer one (such as `\in` and `\int`)
//! never steals the longer macro's occurrences.  No replacement value
//! contains a backslash, a marker character or another key, so one
//! substitution pass never creates text that a later pass would rewrite.
//!
//! The seven modifier tables map plain characters to their superscript,
//! subscript and font-styled forms where Unicode has them.

use vstd::prelude::*;
use crate::table::CharTable;
use crate::table::SymbolTable;
use crate::table::pairs_map;
use crate::table::zip_pairs;

verus! {

/// The entries of the default symbol table, in substitution order.
pub open spec fn symbol_pairs() -> Seq<(Seq<char>, Seq<char>)> {
    seq![
        ("\\Rightarrow"@, "⇒"@),
        ("\\rightarrow"@, "→"@),
        ("\\Leftarrow"@, "⇐"@),
        ("\\leftarrow"@, "←"@),
        ("\\emptyset"@, "∅"@),
        ("\\Upsilon"@, "Υ"@),
        ("\\epsilon"@, "ε"@),
        ("\\omicron"@, "ο"@),
        ("\\partial"@, "∂"@),
        ("\\upsilon"@, "υ"@),
        ("\\Lambda"@, "Λ"@),
        ("\\approx"@, "≈"@),
        ("\\exists"@, "∃"@),
        ("\\forall"@, "∀"@),
        ("\\lambda"@, "λ"@),
        ("\\subset"@, "⊂"@),
        ("\\supset"@, "⊃"@),
        ("\\Delta"@, "Δ"@),
        ("\\Gamma"@, "Γ"@),
        ("\\Omega"@, "Ω"@),
        ("\\Sigma"@, "Σ"@),
        ("\\Theta"@, "Θ"@),
        ("\\alpha"@, "α"@),
        ("\\delta"@, "δ"@),
        ("\\equiv"@, "≡"@),
        ("\\gamma"@, "γ"@),
        ("\\infty"@, "∞"@),
        ("\\kappa"@, "κ"@),
        ("\\nabla"@, "∇"@),
        ("\\notin"@, "∉"@),
        ("\\omega"@, "ω"@),
        ("\\sigma"@, "σ"@),
        ("\\theta"@, "θ"@),
        ("\\times"@, "×"@),
        ("\\beta"@, "β"@),
        ("\\cdot"@, "⋅"@),
        ("\\iota"@, "ι"@),
        ("\\prod"@, "∏"@),
        ("\\sqrt"@, "√"@),
        ("\\zeta"@, "ζ"@),
        ("\\Phi"@, "Φ"@),
        ("\\Psi"@, "Ψ"@),
        ("\\cap"@, "∩"@),
        ("\\chi"@, "χ"@),
        ("\\cup"@, "∪"@),
        ("\\div"@, "÷"@),
        ("\\eta"@, "η"@),
        ("\\geq"@, "≥"@),
        ("\\int"@, "∫"@),
        ("\\leq"@, "≤"@),
        ("\\neq"@, "≠"@),
        ("\\phi"@, "φ"@),
        ("\\psi"@, "ψ"@),
        ("\\rho"@, "ρ"@),
        ("\\sum"@, "∑"@),
        ("\\tau"@, "τ"@),
        ("\\Pi"@, "Π"@),
        ("\\Xi"@, "Ξ"@),
        ("\\in"@, "∈"@),
        ("\\mp"@, "∓"@),
        ("\\mu"@, "μ"@),
        ("\\nu"@, "ν"@),
        ("\\pi"@, "π"@),
        ("\\pm"@, "±"@),
        ("\\xi"@, "ξ"@),
    ]
}

/// The default symbol table: Greek letters and common mathematical
/// symbols.
#[verifier::rlimit(100)]
pub fn default_symbols() -> (t: SymbolTable)
    ensures
        t@ == symbol_pairs(),
{
    let mut t = SymbolTable::new();
    t.add("\\Rightarrow", "⇒");
    t.add("\\rightarrow", "→");
    t.add("\\Leftarrow", "⇐");
    t.add("\\leftarrow", "←");
    t.add("\\emptyset", "∅");
    t.add("\\Upsilon", "Υ");
    t.add("\\epsilon", "ε");
    t.add("\\omicron", "ο");
    t.add("\\partial", "∂");
    t.add("\\upsilon", "υ");
    t.add("\\Lambda", "Λ");
    t.add("\\approx", "≈");
    t.add("\\exists", "∃");
    t.add("\\forall", "∀");
    t.add("\\lambda", "λ");
    t.add("\\subset", "⊂");
    t.add("\\supset", "⊃");
    t.add("\\Delta", "Δ");
    t.add("\\Gamma", "Γ");
    t.add("\\Omega", "Ω");
    t.add("\\Sigma", "Σ");
    t.add("\\Theta", "Θ");
    t.add("\\alpha", "α");
    t.add("\\delta", "δ");
    t.add("\\equiv", "≡");
    t.add("\\gamma", "γ");
    t.add("\\infty", "∞");
    t.add("\\kappa", "κ");
    t.add("\\nabla", "∇");
    t.add("\\notin", "∉");
    t.add("\\omega", "ω");
    t.add("\\sigma", "σ");
    t.add("\\theta", "θ");
    t.add("\\times", "×");
    t.add("\\beta", "β");
    t.add("\\cdot", "⋅");
    t.add("\\iota", "ι");
    t.add("\\prod", "∏");
    t.add("\\sqrt", "√");
    t.add("\\zeta", "ζ");
    t.add("\\Phi", "Φ");
    t.add("\\Psi", "Ψ");
    t.add("\\cap", "∩");
    t.add("\\chi", "χ");
    t.add("\\cup", "∪");
    t.add("\\div", "÷");
    t.add("\\eta", "η");
    t.add("\\geq", "≥");
    t.add("\\int", "∫");
    t.add("\\leq", "≤");
    t.add("\\neq", "≠");
    t.add("\\phi", "φ");
    t.add("\\psi", "ψ");
    t.add("\\rho", "ρ");
    t.add("\\sum", "∑");
    t.add("\\tau", "τ");
    t.add("\\Pi", "Π");
    t.add("\\Xi", "Ξ");
    t.add("\\in", "∈");
    t.add("\\mp", "∓");
    t.add("\\mu", "μ");
    t.add("\\nu", "ν");
    t.add("\\pi", "π");
    t.add("\\pm", "±");
    t.add("\\xi", "ξ");
    proof {
        assert(t@ =~~= symbol_pairs());
    }
    t
}

/// The superscript table.
pub open spec fn superscript_map() -> Map<char, char> {
    pairs_map(zip_pairs("0123456789+-=()ni"@, "⁰¹²³⁴⁵⁶⁷⁸⁹⁺⁻⁼⁽⁾ⁿⁱ"@))
}

/// Build the table that [`superscript_map`] describes.
pub fn default_superscripts() -> (t: CharTable)
    ensures
        t@ == superscript_map(),
{
    proof {
        reveal_strlit("0123456789+-=()ni");
        reveal_strlit("⁰¹²³⁴⁵⁶⁷⁸⁹⁺⁻⁼⁽⁾ⁿⁱ");
    }
    CharTable::from_strs("0123456789+-=()ni", "⁰¹²³⁴⁵⁶⁷⁸⁹⁺⁻⁼⁽⁾ⁿⁱ")
}

/// The subscript table.
pub open spec fn subscript_map() -> Map<char, char> {
    pairs_map(zip_pairs("0123456789+-=()aehijklmnoprstuvx"@, "₀₁₂₃₄₅₆₇₈₉₊₋₌₍₎ₐₑₕᵢⱼₖₗₘₙₒₚᵣₛₜᵤᵥₓ"@))
}

/// Build the table that [`subscript_map`] describes.
pub fn default_subscripts() -> (t: CharTable)
    ensures
        t@ == subscript_map(),
{
    proof {
        reveal_strlit("0123456789+-=()aehijklmnoprstuvx");
        reveal_strlit("₀₁₂₃₄₅₆₇₈₉₊₋₌₍₎ₐₑₕᵢⱼₖₗₘₙₒₚᵣₛₜᵤᵥₓ");
    }
    CharTable::from_strs("0123456789+-=()aehijklmnoprstuvx", "₀₁₂₃₄₅₆₇₈₉₊₋₌₍₎ₐₑₕᵢⱼₖₗₘₙₒₚᵣₛₜᵤᵥₓ")
}

/// The blackboard-bold (double-struck) font table.
pub open spec fn bb_map() -> Map<char, char> {
    pairs_map(zip_pairs("ABCDEFGHIJKLMNOPQRSTUVWXYZabcdefghijklmnopqrstuvwxyz0123456789"@, "𝔸𝔹ℂ𝔻𝔼𝔽𝔾ℍ𝕀𝕁𝕂𝕃𝕄ℕ𝕆ℙℚℝ𝕊𝕋𝕌𝕍𝕎𝕏𝕐ℤ𝕒𝕓𝕔𝕕𝕖𝕗𝕘𝕙𝕚𝕛𝕜𝕝𝕞𝕟𝕠𝕡𝕢𝕣𝕤𝕥𝕦𝕧𝕨𝕩𝕪𝕫𝟘𝟙𝟚𝟛𝟜𝟝𝟞𝟟𝟠𝟡"@))
}

/// Build the table that [`bb_map`] describes.
pub fn default_bb() -> (t: CharTable)
    ensures
        t@ == bb_map(),
{
    proof {
        reveal_strlit("ABCDEFGHIJKLMNOPQRSTUVWXYZabcdefghijklmnopqrstuvwxyz0123456789");
        reveal_strlit("𝔸𝔹ℂ𝔻𝔼𝔽𝔾ℍ𝕀𝕁𝕂𝕃𝕄ℕ𝕆ℙℚℝ𝕊𝕋𝕌𝕍𝕎𝕏𝕐ℤ𝕒𝕓𝕔𝕕𝕖𝕗𝕘𝕙𝕚𝕛𝕜𝕝𝕞𝕟𝕠𝕡𝕢𝕣𝕤𝕥𝕦𝕧𝕨𝕩𝕪𝕫𝟘𝟙𝟚𝟛𝟜𝟝𝟞𝟟𝟠𝟡");
    }
    CharTable::from_strs("ABCDEFGHIJKLMNOPQRSTUVWXYZabcdefghijklmnopqrstuvwxyz0123456789", "𝔸𝔹ℂ𝔻𝔼𝔽𝔾ℍ𝕀𝕁𝕂𝕃𝕄ℕ𝕆ℙℚℝ𝕊𝕋𝕌𝕍𝕎𝕏𝕐ℤ𝕒𝕓𝕔𝕕𝕖𝕗𝕘𝕙𝕚𝕛𝕜𝕝𝕞𝕟𝕠𝕡𝕢𝕣𝕤𝕥𝕦𝕧𝕨𝕩𝕪𝕫𝟘𝟙𝟚𝟛𝟜𝟝𝟞𝟟𝟠𝟡")
}

/// The bold font table.
pub open spec fn bf_map() -> Map<char, char> {
    pairs_map(zip_pairs("ABCDEFGHIJKLMNOPQRSTUVWXYZabcdefghijklmnopqrstuvwxyz0123456789"@, "𝐀𝐁𝐂𝐃𝐄𝐅𝐆𝐇𝐈𝐉𝐊𝐋𝐌𝐍𝐎𝐏𝐐𝐑𝐒𝐓𝐔𝐕𝐖𝐗𝐘𝐙𝐚𝐛𝐜𝐝𝐞𝐟𝐠𝐡𝐢𝐣𝐤𝐥𝐦𝐧𝐨𝐩𝐪𝐫𝐬𝐭𝐮𝐯𝐰𝐱𝐲𝐳𝟎𝟏𝟐𝟑𝟒𝟓𝟔𝟕𝟖𝟗"@))
}

/// Build the table that [`bf_map`] describes.
pub fn default_bf() -> (t: CharTable)
    ensures
        t@ == bf_map(),
{
    proof {
        reveal_strlit("ABCDEFGHIJKLMNOPQRSTUVWXYZabcdefghijklmnopqrstuvwxyz0123456789");
        reveal_strlit("𝐀𝐁𝐂𝐃𝐄𝐅𝐆𝐇𝐈𝐉𝐊𝐋𝐌𝐍𝐎𝐏𝐐𝐑𝐒𝐓𝐔𝐕𝐖𝐗𝐘𝐙𝐚𝐛𝐜𝐝𝐞𝐟𝐠𝐡𝐢𝐣𝐤𝐥𝐦𝐧𝐨𝐩𝐪𝐫𝐬𝐭𝐮𝐯𝐰𝐱𝐲𝐳𝟎𝟏𝟐𝟑𝟒𝟓𝟔𝟕𝟖𝟗");
    }
    CharTable::from_strs("ABCDEFGHIJKLMNOPQRSTUVWXYZabcdefghijklmnopqrstuvwxyz0123456789", "𝐀𝐁𝐂𝐃𝐄𝐅𝐆𝐇𝐈𝐉𝐊𝐋𝐌𝐍𝐎𝐏𝐐𝐑𝐒𝐓𝐔𝐕𝐖𝐗𝐘𝐙𝐚𝐛𝐜𝐝𝐞𝐟𝐠𝐡𝐢𝐣𝐤𝐥𝐦𝐧𝐨𝐩𝐪𝐫𝐬𝐭𝐮𝐯𝐰𝐱𝐲𝐳𝟎𝟏𝟐𝟑𝟒𝟓𝟔𝟕𝟖𝟗")
}

/// The italic font table.
pub open spec fn it_map() -> Map<char, char> {
    pairs_map(zip_pairs("ABCDEFGHIJKLMNOPQRSTUVWXYZabcdefghijklmnopqrstuvwxyz"@, "𝐴𝐵𝐶𝐷𝐸𝐹𝐺𝐻𝐼𝐽𝐾𝐿𝑀𝑁𝑂𝑃𝑄𝑅𝑆𝑇𝑈𝑉𝑊𝑋𝑌𝑍𝑎𝑏𝑐𝑑𝑒𝑓𝑔ℎ𝑖𝑗𝑘𝑙𝑚𝑛𝑜𝑝𝑞𝑟𝑠𝑡𝑢𝑣𝑤𝑥𝑦𝑧"@))
}

/// Build the table that [`it_map`] describes.
pub fn default_it() -> (t: CharTable)
    ensures
        t@ == it_map(),
{
    proof {
        reveal_strlit("ABCDEFGHIJKLMNOPQRSTUVWXYZabcdefghijklmnopqrstuvwxyz");
        reveal_strlit("𝐴𝐵𝐶𝐷𝐸𝐹𝐺𝐻𝐼𝐽𝐾𝐿𝑀𝑁𝑂𝑃𝑄𝑅𝑆𝑇𝑈𝑉𝑊𝑋𝑌𝑍𝑎𝑏𝑐𝑑𝑒𝑓𝑔ℎ𝑖𝑗𝑘𝑙𝑚𝑛𝑜𝑝𝑞𝑟𝑠𝑡𝑢𝑣𝑤𝑥𝑦𝑧");
    }
    CharTable::from_strs("ABCDEFGHIJKLMNOPQRSTUVWXYZabcdefghijklmnopqrstuvwxyz", "𝐴𝐵𝐶𝐷𝐸𝐹𝐺𝐻𝐼𝐽𝐾𝐿𝑀𝑁𝑂𝑃𝑄𝑅𝑆𝑇𝑈𝑉𝑊𝑋𝑌𝑍𝑎𝑏𝑐𝑑𝑒𝑓𝑔ℎ𝑖𝑗𝑘𝑙𝑚𝑛𝑜𝑝𝑞𝑟𝑠𝑡𝑢𝑣𝑤𝑥𝑦𝑧")
}

/// The calligraphic (script) font table.
pub open spec fn cal_map() -> Map<char, char> {
    pairs_map(zip_pairs("ABCDEFGHIJKLMNOPQRSTUVWXYZabcdefghijklmnopqrstuvwxyz"@, "𝒜ℬ𝒞𝒟ℰℱ𝒢ℋℐ𝒥𝒦ℒℳ𝒩𝒪𝒫𝒬ℛ𝒮𝒯𝒰𝒱𝒲𝒳𝒴𝒵𝒶𝒷𝒸𝒹ℯ𝒻ℊ𝒽𝒾𝒿𝓀𝓁𝓂𝓃ℴ𝓅𝓆𝓇𝓈𝓉𝓊𝓋𝓌𝓍𝓎𝓏"@))
}

/// Build the table that [`cal_map`] describes.
pub fn default_cal() -> (t: CharTable)
    ensures
        t@ == cal_map(),
{
    proof {
        reveal_strlit("ABCDEFGHIJKLMNOPQRSTUVWXYZabcdefghijklmnopqrstuvwxyz");
        reveal_strlit("𝒜ℬ𝒞𝒟ℰℱ𝒢ℋℐ𝒥𝒦ℒℳ𝒩𝒪𝒫𝒬ℛ𝒮𝒯𝒰𝒱𝒲𝒳𝒴𝒵𝒶𝒷𝒸𝒹ℯ𝒻ℊ𝒽𝒾𝒿𝓀𝓁𝓂𝓃ℴ𝓅𝓆𝓇𝓈𝓉𝓊𝓋𝓌𝓍𝓎𝓏");
    }
    CharTable::from_strs("ABCDEFGHIJKLMNOPQRSTUVWXYZabcdefghijklmnopqrstuvwxyz", "𝒜ℬ𝒞𝒟ℰℱ𝒢ℋℐ𝒥𝒦ℒℳ𝒩𝒪𝒫𝒬ℛ𝒮𝒯𝒰𝒱𝒲𝒳𝒴𝒵𝒶𝒷𝒸𝒹ℯ𝒻ℊ𝒽𝒾𝒿𝓀𝓁𝓂𝓃ℴ𝓅𝓆𝓇𝓈𝓉𝓊𝓋𝓌𝓍𝓎𝓏")
}

/// The Fraktur font table.
pub open spec fn frak_map() -> Map<char, char> {
    pairs_map(zip_pairs("ABCDEFGHIJKLMNOPQRSTUVWXYZabcdefghijklmnopqrstuvwxyz"@, "𝔄𝔅ℭ𝔇𝔈𝔉𝔊ℌℑ𝔍𝔎𝔏𝔐𝔑𝔒𝔓𝔔ℜ𝔖𝔗𝔘𝔙𝔚𝔛𝔜ℨ𝔞𝔟𝔠𝔡𝔢𝔣𝔤𝔥𝔦𝔧𝔨𝔩𝔪𝔫𝔬𝔭𝔮𝔯𝔰𝔱𝔲𝔳𝔴𝔵𝔶𝔷"@))
}

/// Build the table that [`frak_map`] describes.
pub fn default_frak() -> (t: CharTable)
    ensures
        t@ == frak_map(),
{
    proof {
        reveal_strlit("ABCDEFGHIJKLMNOPQRSTUVWXYZabcdefghijklmnopqrstuvwxyz");
        reveal_strlit("𝔄𝔅ℭ𝔇𝔈𝔉𝔊ℌℑ𝔍𝔎𝔏𝔐𝔑𝔒𝔓𝔔ℜ𝔖𝔗𝔘𝔙𝔚𝔛𝔜ℨ𝔞𝔟𝔠𝔡𝔢𝔣𝔤𝔥𝔦𝔧𝔨𝔩𝔪𝔫𝔬𝔭𝔮𝔯𝔰𝔱𝔲𝔳𝔴𝔵𝔶𝔷");
    }
    CharTable::from_strs("ABCDEFGHIJKLMNOPQRSTUVWXYZabcdefghijklmnopqrstuvwxyz", "𝔄𝔅ℭ𝔇𝔈𝔉𝔊ℌℑ𝔍𝔎𝔏𝔐𝔑𝔒𝔓𝔔ℜ𝔖𝔗𝔘𝔙𝔚𝔛𝔜ℨ𝔞𝔟𝔠𝔡𝔢𝔣𝔤𝔥𝔦𝔧𝔨𝔩𝔪𝔫𝔬𝔭𝔮𝔯𝔰𝔱𝔲𝔳𝔴𝔵𝔶𝔷")
}

/// The monospace font table.
pub open spec fn mono_map() -> Map<char, char> {
    pairs_map(zip_pairs("ABCDEFGHIJKLMNOPQRSTUVWXYZabcdefghijklmnopqrstuvwxyz0123456789"@, "𝙰𝙱𝙲𝙳𝙴𝙵𝙶𝙷𝙸𝙹𝙺𝙻𝙼𝙽𝙾𝙿𝚀𝚁𝚂𝚃𝚄𝚅𝚆𝚇𝚈𝚉𝚊𝚋𝚌𝚍𝚎𝚏𝚐𝚑𝚒𝚓𝚔𝚕𝚖𝚗𝚘𝚙𝚚𝚛𝚜𝚝𝚞𝚟𝚠𝚡𝚢𝚣𝟶𝟷𝟸𝟹𝟺𝟻𝟼𝟽𝟾𝟿"@))
}

/// Build the table that [`mono_map`] describes.
pub fn default_mono() -> (t: CharTable)
    ensures
        t@ == mono_map(),
{
    proof {
        reveal_strlit("ABCDEFGHIJKLMNOPQRSTUVWXYZabcdefghijklmnopqrstuvwxyz0123456789");
        reveal_strlit("𝙰𝙱𝙲𝙳𝙴𝙵𝙶𝙷𝙸𝙹𝙺𝙻𝙼𝙽𝙾𝙿𝚀𝚁𝚂𝚃𝚄𝚅𝚆𝚇𝚈𝚉𝚊𝚋𝚌𝚍𝚎𝚏𝚐𝚑𝚒𝚓𝚔𝚕𝚖𝚗𝚘𝚙𝚚𝚛𝚜𝚝𝚞𝚟𝚠𝚡𝚢𝚣𝟶𝟷𝟸𝟹𝟺𝟻𝟼𝟽𝟾𝟿");
    }
    CharTable::from_strs("ABCDEFGHIJKLMNOPQRSTUVWXYZabcdefghijklmnopqrstuvwxyz0123456789", "𝙰𝙱𝙲𝙳𝙴𝙵𝙶𝙷𝙸𝙹𝙺𝙻𝙼𝙽𝙾𝙿𝚀𝚁𝚂𝚃𝚄𝚅𝚆𝚇𝚈𝚉𝚊𝚋𝚌𝚍𝚎𝚏𝚐𝚑𝚒𝚓𝚔𝚕𝚖𝚗𝚘𝚙𝚚𝚛𝚜𝚝𝚞𝚟𝚠𝚡𝚢𝚣𝟶𝟷𝟸𝟹𝟺𝟻𝟼𝟽𝟾𝟿")
}

/// Every key of the default symbol table begins with a backslash.
pub proof fn lemma_symbol_keys_backslash()
    ensures
        forall|i: int|
            0 <= i < symbol_pairs().len() ==> ((#[trigger] symbol_pairs()[i]).0.len() > 0
                && symbol_pairs()[i].0[0] == '\\'),
{
    reveal_strlit("\\Rightarrow");
    reveal_strlit("\\rightarrow");
    reveal_strlit("\\Leftarrow");
    reveal_strlit("\\leftarrow");
    reveal_strlit("\\emptyset");
    reveal_strlit("\\Upsilon");
    reveal_strlit("\\epsilon");
    reveal_strlit("\\omicron");
    reveal_strlit("\\partial");
    reveal_strlit("\\upsilon");
    reveal_strlit("\\Lambda");
    reveal_strlit("\\approx");
    reveal_strlit("\\exists");
    reveal_strlit("\\forall");
    reveal_strlit("\\lambda");
    reveal_strlit("\\subset");
    reveal_strlit("\\supset");
    reveal_strlit("\\Delta");
    reveal_strlit("\\Gamma");
    reveal_strlit("\\Omega");
    reveal_strlit("\\Sigma");
    reveal_strlit("\\Theta");
    reveal_strlit("\\alpha");
    reveal_strlit("\\delta");
    reveal_strlit("\\equiv");
    reveal_strlit("\\gamma");
    reveal_strlit("\\infty");
    reveal_strlit("\\kappa");
    reveal_strlit("\\nabla");
    reveal_strlit("\\notin");
    reveal_strlit("\\omega");
    reveal_strlit("\\sigma");
    reveal_strlit("\\theta");
    reveal_strlit("\\times");
    reveal_strlit("\\beta");
    reveal_strlit("\\cdot");
    reveal_strlit("\\iota");
    reveal_strlit("\\prod");
    reveal_strlit("\\sqrt");
    reveal_strlit("\\zeta");
    reveal_strlit("\\Phi");
    reveal_strlit("\\Psi");
    reveal_strlit("\\cap");
    reveal_strlit("\\chi");
    reveal_strlit("\\cup");
    reveal_strlit("\\div");
    reveal_strlit("\\eta");
    reveal_strlit("\\geq");
    reveal_strlit("\\int");
    reveal_strlit("\\leq");
    reveal_strlit("\\neq");
    reveal_strlit("\\phi");
    reveal_strlit("\\psi");
    reveal_strlit("\\rho");
    reveal_strlit("\\sum");
    reveal_strlit("\\tau");
    reveal_strlit("\\Pi");
    reveal_strlit("\\Xi");
    reveal_strlit("\\in");
    reveal_strlit("\\mp");
    reveal_strlit("\\mu");
    reveal_strlit("\\nu");
    reveal_strlit("\\pi");
    reveal_strlit("\\pm");
    reveal_strlit("\\xi");
    assert forall|i: int|
        0 <= i < symbol_pairs().len() implies ((#[trigger] symbol_pairs()[i]).0.len() > 0
        && symbol_pairs()[i].0[0] == '\\') by {
        if i == 0 {
            assert(symbol_pairs()[0].0 == "\\Rightarrow"@);
        } else if i == 1 {
            assert(symbol_pairs()[1].0 == "\\rightarrow"@);
        } else if i == 2 {
            assert(symbol_pairs()[2].0 == "\\Leftarrow"@);
        } else if i == 3 {
            assert(symbol_pairs()[3].0 == "\\leftarrow"@);
        } else if i == 4 {
            assert(symbol_pairs()[4].0 == "\\emptyset"@);
        } else if i == 5 {
            assert(symbol_pairs()[5].0 == "\\Upsilon"@);
        } else if i == 6 {
            assert(symbol_pairs()[6].0 == "\\epsilon"@);
        } else if i == 7 {
            assert(symbol_pairs()[7].0 == "\\omicron"@);
        } else if i == 8 {
            assert(symbol_pairs()[8].0 == "\\partial"@);
        } else if i == 9 {
            assert(symbol_pairs()[9].0 == "\\upsilon"@);
        } else if i == 10 {
            assert(symbol_pairs()[10].0 == "\\Lambda"@);
        } else if i == 11 {
            assert(symbol_pairs()[11].0 == "\\approx"@);
        } else if i == 12 {
            assert(symbol_pairs()[12].0 == "\\exists"@);
        } else if i == 13 {
            assert(symbol_pairs()[13].0 == "\\forall"@);
        } else if i == 14 {
            assert(symbol_pairs()[14].0 == "\\lambda"@);
        } else if i == 15 {
            assert(symbol_pairs()[15].0 == "\\subset"@);
        } else if i == 16 {
            assert(symbol_pairs()[16].0 == "\\supset"@);
        } else if i == 17 {
            assert(symbol_pairs()[17].0 == "\\Delta"@);
        } else if i == 18 {
            assert(symbol_pairs()[18].0 == "\\Gamma"@);
        } else if i == 19 {
            assert(symbol_pairs()[19].0 == "\\Omega"@);
        } else if i == 20 {
            assert(symbol_pairs()[20].0 == "\\Sigma"@);
        } else if i == 21 {
            assert(symbol_pairs()[21].0 == "\\Theta"@);
        } else if i == 22 {
            assert(symbol_pairs()[22].0 == "\\alpha"@);
        } else if i == 23 {
            assert(symbol_pairs()[23].0 == "\\delta"@);
        } else if i == 24 {
            assert(symbol_pairs()[24].0 == "\\equiv"@);
        } else if i == 25 {
            assert(symbol_pairs()[25].0 == "\\gamma"@);
        } else if i == 26 {
            assert(symbol_pairs()[26].0 == "\\infty"@);
        } else if i == 27 {
            assert(symbol_pairs()[27].0 == "\\kappa"@);
        } else if i == 28 {
            assert(symbol_pairs()[28].0 == "\\nabla"@);
        } else if i == 29 {
            assert(symbol_pairs()[29].0 == "\\notin"@);
        } else if i == 30 {
            assert(symbol_pairs()[30].0 == "\\omega"@);
        } else if i == 31 {
            assert(symbol_pairs()[31].0 == "\\sigma"@);
        } else if i == 32 {
            assert(symbol_pairs()[32].0 == "\\theta"@);
        } else if i == 33 {
            assert(symbol_pairs()[33].0 == "\\times"@);
        } else if i == 34 {
            assert(symbol_pairs()[34].0 == "\\beta"@);
        } else if i == 35 {
            assert(symbol_pairs()[35].0 == "\\cdot"@);
        } else if i == 36 {
            assert(symbol_pairs()[36].0 == "\\iota"@);
        } else if i == 37 {
            assert(symbol_pairs()[37].0 == "\\prod"@);
        } else if i == 38 {
            assert(symbol_pairs()[38].0 == "\\sqrt"@);
        } else if i == 39 {
            assert(symbol_pairs()[39].0 == "\\zeta"@);
        } else if i == 40 {
            assert(symbol_pairs()[40].0 == "\\Phi"@);
        } else if i == 41 {
            assert(symbol_pairs()[41].0 == "\\Psi"@);
        } else if i == 42 {
            assert(symbol_pairs()[42].0 == "\\cap"@);
        } else if i == 43 {
            assert(symbol_pairs()[43].0 == "\\chi"@);
        } else if i == 44 {
            assert(symbol_pairs()[44].0 == "\\cup"@);
        } else if i == 45 {
            assert(symbol_pairs()[45].0 == "\\div"@);
        } else if i == 46 {
            assert(symbol_pairs()[46].0 == "\\eta"@);
        } else if i == 47 {
            assert(symbol_pairs()[47].0 == "\\geq"@);
        } else if i == 48 {
            assert(symbol_pairs()[48].0 == "\\int"@);
        } else if i == 49 {
            assert(symbol_pairs()[49].0 == "\\leq"@);
        } else if i == 50 {
            assert(symbol_pairs()[50].0 == "\\neq"@);
        } else if i == 51 {
            assert(symbol_pairs()[51].0 == "\\phi"@);
        } else if i == 52 {
            assert(symbol_pairs()[52].0 == "\\psi"@);
        } else if i == 53 {
            assert(symbol_pairs()[53].0 == "\\rho"@);
        } else if i == 54 {
            assert(symbol_pairs()[54].0 == "\\sum"@);
        } else if i == 55 {
            assert(symbol_pairs()[55].0 == "\\tau"@);
        } else if i == 56 {
            assert(symbol_pairs()[56].0 == "\\Pi"@);
        } else if i == 57 {
            assert(symbol_pairs()[57].0 == "\\Xi"@);
        } else if i == 58 {
            assert(symbol_pairs()[58].0 == "\\in"@);
        } else if i == 59 {
            assert(symbol_pairs()[59].0 == "\\mp"@);
        } else if i == 60 {
            assert(symbol_pairs()[60].0 == "\\mu"@);
        } else if i == 61 {
            assert(symbol_pairs()[61].0 == "\\nu"@);
        } else if i == 62 {
            assert(symbol_pairs()[62].0 == "\\pi"@);
        } else if i == 63 {
            assert(symbol_pairs()[63].0 == "\\pm"@);
        } else if i == 64 {
            assert(symbol_pairs()[64].0 == "\\xi"@);
        }
    }
}

} // verus!
