//! Parameter styles and placeholder tokens.
//!
//! A parameter style is the dialect-specific convention for the placeholder
//! text that stands in the rendered SQL in place of a bound value: `Numeric`
//! produces `$1`, `$2`, ... while `QMark` produces `?` for every value.

use vstd::prelude::*;

verus! {

/// The closed set of supported placeholder conventions.
#[derive(Debug, Clone, Copy, PartialEq, Eq, Structural)]
pub enum ParamStyle {
    /// `$1`, `$2`, ...: each bound value gets its 1-based position.
    Numeric,
    /// `?` for every bound value, no numbering.
    QMark,
}

impl Default for ParamStyle {
    /// The default placeholder convention.
    fn default() -> (style: ParamStyle)
        ensures
            style == ParamStyle::Numeric,
    {
        ParamStyle::Numeric
    }
}

/// The identifier-quoting conventions. Stored by the configuration but not
/// yet consumed by any rendering path; no filter attaches to it.
#[derive(Debug, Clone, Copy, PartialEq, Eq, Structural)]
pub enum IDQuoteChar {
    Backtick,
    DoubleQuote,
}

impl Default for IDQuoteChar {
    /// The default quoting convention.
    fn default() -> (c: IDQuoteChar)
        ensures
            c == IDQuoteChar::DoubleQuote,
    {
        IDQuoteChar::DoubleQuote
    }
}

/// The style a given name selects: `"qmark"` selects `QMark`, `"numeric"`
/// selects `Numeric`, and any unrecognized name falls back to the default,
/// `Numeric`, rather than failing.
pub open spec fn spec_param_style(name: Seq<char>) -> ParamStyle {
    if name == "qmark"@ {
        ParamStyle::QMark
    } else {
        ParamStyle::Numeric
    }
}

/// The quoting convention a given name selects: a backtick selects
/// `Backtick`, a double quote selects `DoubleQuote`, and any unrecognized
/// name falls back to the default, `DoubleQuote`.
pub open spec fn spec_quote_char(name: Seq<char>) -> IDQuoteChar {
    if name == "`"@ {
        IDQuoteChar::Backtick
    } else {
        IDQuoteChar::DoubleQuote
    }
}

/// Looks a style name up against the supported set; an unrecognized name
/// yields the default rather than an error.
pub fn parse_param_style(name: &str) -> (style: ParamStyle)
    ensures
        style == spec_param_style(name@),
{
    let owned = name.to_owned();
    if owned == "qmark".to_owned() {
        ParamStyle::QMark
    } else {
        ParamStyle::Numeric
    }
}

/// Looks a quote character up; an unrecognized one yields the default.
pub fn parse_quote_char(name: &str) -> (c: IDQuoteChar)
    ensures
        c == spec_quote_char(name@),
{
    let owned = name.to_owned();
    if owned == "`".to_owned() {
        IDQuoteChar::Backtick
    } else {
        IDQuoteChar::DoubleQuote
    }
}

/// The character for a single decimal digit.
pub open spec fn digit_char(d: nat) -> char
    recommends
        d < 10,
{
    if d == 0 {
        '0'
    } else if d == 1 {
        '1'
    } else if d == 2 {
        '2'
    } else if d == 3 {
        '3'
    } else if d == 4 {
        '4'
    } else if d == 5 {
        '5'
    } else if d == 6 {
        '6'
    } else if d == 7 {
        '7'
    } else if d == 8 {
        '8'
    } else {
        '9'
    }
}

/// The decimal digits of `n`, most significant first, with no leading zeros
/// (a single `0` for zero itself).
pub open spec fn decimal_rep(n: nat) -> Seq<char>
    decreases n,
{
    if n < 10 {
        seq![digit_char(n)]
    } else {
        decimal_rep(n / 10).push(digit_char(n % 10))
    }
}

/// The placeholder token a style emits for the value at 1-based position
/// `index`.
pub open spec fn placeholder_text(style: ParamStyle, index: nat) -> Seq<char> {
    match style {
        ParamStyle::Numeric => seq!['$'] + decimal_rep(index),
        ParamStyle::QMark => seq!['?'],
    }
}

pub(crate) fn digit_str(d: usize) -> (s: &'static str)
    requires
        d < 10,
    ensures
        s@ == seq![digit_char(d as nat)],
{
    proof {
        reveal_strlit("0");
        reveal_strlit("1");
        reveal_strlit("2");
        reveal_strlit("3");
        reveal_strlit("4");
        reveal_strlit("5");
        reveal_strlit("6");
        reveal_strlit("7");
        reveal_strlit("8");
        reveal_strlit("9");
    }
    let s: &'static str = match d {
        0 => "0",
        1 => "1",
        2 => "2",
        3 => "3",
        4 => "4",
        5 => "5",
        6 => "6",
        7 => "7",
        8 => "8",
        _ => "9",
    };
    proof {
        assert(s@ =~= seq![digit_char(d as nat)]);
    }
    s
}

/// Appends the decimal digits of `n` to `out`.
fn push_decimal(out: &mut String, n: usize)
    ensures
        final(out)@ == old(out)@ + decimal_rep(n as nat),
    decreases n,
{
    let ghost orig = out@;
    if n >= 10 {
        proof {
            assert(n / 10 < n) by (nonlinear_arith)
                requires
                    n >= 10,
            ;
        }
        push_decimal(out, n / 10);
        out.append(digit_str(n % 10));
        proof {
            assert(out@ =~= orig + decimal_rep(n as nat));
        }
    } else {
        out.append(digit_str(n));
        proof {
            assert(out@ =~= orig + decimal_rep(n as nat));
        }
    }
}

/// Formats the placeholder token for the value at 1-based position `index`
/// under the given style.
pub fn format_placeholder(style: ParamStyle, index: usize) -> (token: String)
    ensures
        token@ == placeholder_text(style, index as nat),
{
    match style {
        ParamStyle::Numeric => {
            let mut out = "$".to_owned();
            proof {
                reveal_strlit("$");
                assert("$"@ =~= seq!['$']);
            }
            push_decimal(&mut out, index);
            out
        },
        ParamStyle::QMark => {
            let out = "?".to_owned();
            proof {
                reveal_strlit("?");
                assert("?"@ =~= seq!['?']);
            }
            out
        },
    }
}

} // verus!
