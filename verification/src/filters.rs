//! The binding filters: the two callbacks the templating engine invokes
//! while evaluating a template. Each one records values in the parameter
//! accumulator and returns the placeholder text that the engine splices
//! into the rendered SQL in place of the values themselves.

use vstd::prelude::*;

use crate::accumulator::Accumulator;
use crate::style::format_placeholder;
use crate::style::decimal_rep;
use crate::style::placeholder_text;
use crate::style::ParamStyle;

verus! {

/// The comma-joined placeholder group for `count` values bound after
/// `start` values were already recorded in the render: the placeholders
/// for positions `start + 1` through `start + count`.
pub open spec fn in_clause_body(style: ParamStyle, start: nat, count: nat) -> Seq<char>
    decreases count,
{
    if count == 0 {
        Seq::empty()
    } else if count == 1 {
        placeholder_text(style, start + 1)
    } else {
        in_clause_body(style, start, (count - 1) as nat) + seq![',', ' '] + placeholder_text(
            style,
            start + count,
        )
    }
}

/// The full token `bind_in_clause` returns: the placeholder group wrapped
/// in parentheses.
pub open spec fn in_clause_text(style: ParamStyle, start: nat, count: nat) -> Seq<char> {
    seq!['('] + in_clause_body(style, start, count) + seq![')']
}

/// The placeholder tokens a bind-only render of `count` values emits under
/// `style`, in append order. `bind` over an accumulator of `len` values
/// emits the placeholder for position `len + 1` and grows it by one, so
/// starting from the empty accumulator the k-th call (0-based) emits the
/// placeholder for position k + 1 — which is what this sequence holds.
pub open spec fn bind_tokens(style: ParamStyle, count: nat) -> Seq<Seq<char>>
    decreases count,
{
    if count == 0 {
        Seq::empty()
    } else {
        bind_tokens(style, (count - 1) as nat).push(placeholder_text(style, count))
    }
}

/// Law: a render that binds N values through `bind` alone under `Numeric`
/// style emits exactly the placeholders `$1` .. `$N`, in append order:
/// the k-th token is `$` followed by the decimal digits of k + 1. The
/// value list such a render returns equals the bound values in that same
/// order, by the contracts of `bind` (the accumulator grows by exactly
/// the bound value) and `Accumulator::drain` (the full contents come back
/// in append order).
pub proof fn lemma_numeric_bind_tokens(count: nat)
    ensures
        bind_tokens(ParamStyle::Numeric, count).len() == count,
        forall|k: int|
            0 <= k < count ==> #[trigger] bind_tokens(ParamStyle::Numeric, count)[k] == seq!['$']
                + decimal_rep((k + 1) as nat),
    decreases count,
{
    if count > 0 {
        lemma_numeric_bind_tokens((count - 1) as nat);
        assert forall|k: int| 0 <= k < count implies #[trigger] bind_tokens(
            ParamStyle::Numeric,
            count,
        )[k] == seq!['$'] + decimal_rep((k + 1) as nat) by {
            if k < count - 1 {
                assert(bind_tokens(ParamStyle::Numeric, count)[k] == bind_tokens(
                    ParamStyle::Numeric,
                    (count - 1) as nat,
                )[k]);
            } else {
                assert(bind_tokens(ParamStyle::Numeric, count)[k] == placeholder_text(
                    ParamStyle::Numeric,
                    count,
                ));
            }
        }
    }
}

/// Records one value and returns the placeholder token that stands for it
/// in the rendered text: the token for 1-based position `len + 1`, where
/// `len` values were bound before this call.
pub fn bind(acc: &mut Accumulator, style: ParamStyle, value: String) -> (token: String)
    ensures
        final(acc)@ == old(acc)@.push(value),
        final(acc).wf(),
        token@ == placeholder_text(style, old(acc)@.len() + 1),
{
    let index = acc.append(value);
    format_placeholder(style, index)
}

/// Records each value of the sequence, in input order, and returns the
/// parenthesized, comma-joined group of their placeholder tokens. An
/// empty input yields the literal `()` and records nothing.
pub fn bind_in_clause(acc: &mut Accumulator, style: ParamStyle, values: Vec<String>) -> (token:
    String)
    ensures
        final(acc)@ == old(acc)@ + values@,
        old(acc).wf() ==> final(acc).wf(),
        token@ == in_clause_text(style, old(acc)@.len(), values@.len()),
        values@.len() == 0 ==> token@ == seq!['(', ')'] && final(acc)@ == old(acc)@,
{
    let ghost orig = acc@;
    let ghost orig_wf = acc.wf();
    let ghost start: nat = acc@.len();
    let mut out = "(".to_owned();
    proof {
        reveal_strlit("(");
        assert(out@ =~= seq!['('] + in_clause_body(style, start, 0));
        assert(acc@ =~= orig + values@.subrange(0, 0));
    }
    let mut i: usize = 0;
    while i < values.len()
        invariant
            i <= values@.len(),
            start == orig.len(),
            acc@ == orig + values@.subrange(0, i as int),
            orig_wf || i > 0 ==> acc.wf(),
            out@ == seq!['('] + in_clause_body(style, start, i as nat),
        decreases values@.len() - i,
    {
        if i > 0 {
            proof {
                reveal_strlit(", ");
                assert(", "@ =~= seq![',', ' ']);
            }
            out.append(", ");
        }
        let token = bind(acc, style, values[i].clone());
        out.append(token.as_str());
        proof {
            assert(values@.subrange(0, i as int + 1) =~= values@.subrange(0, i as int).push(
                values@[i as int],
            ));
            assert(acc@ =~= orig + values@.subrange(0, i as int + 1));
            assert(out@ =~= seq!['('] + in_clause_body(style, start, i as nat + 1));
        }
        i = i + 1;
    }
    proof {
        reveal_strlit(")");
        assert(")"@ =~= seq![')']);
        assert(values@.subrange(0, values@.len() as int) =~= values@);
    }
    out.append(")");
    proof {
        assert(out@ =~= in_clause_text(style, start, values@.len()));
        if values@.len() == 0 {
            assert(out@ =~= seq!['(', ')']);
            assert(acc@ =~= orig);
        }
    }
    out
}

} // verus!
