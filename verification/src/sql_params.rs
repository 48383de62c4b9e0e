//! Numbered statement parameters (`@P1`, `@P2`, ...) and the value tuples a
//! multi-row SQL Server statement is built from.

use vstd::prelude::*;
use crate::line_protocol::join;
use crate::text::{decimal, push_decimal};

verus! {

/// How one parameter is written: as it is, converted to `DECIMAL(20,0)`, or
/// converted from ISO-8601 text to `DATETIME2(7)`.
#[derive(Debug, Clone, Copy, PartialEq, Eq, Structural)]
pub enum ParamKind {
    Plain,
    Decimal,
    DateTime,
}

/// `@Pk`, wrapped as its kind asks.
pub open spec fn param_text(k: nat, kind: ParamKind) -> Seq<char> {
    let p = "@P"@ + decimal(k);
    match kind {
        ParamKind::Plain => p,
        ParamKind::Decimal => "CONVERT(DECIMAL(20,0),"@ + p + ")"@,
        ParamKind::DateTime => "CONVERT(DATETIME2(7),LEFT("@ + p + ",27),127)"@,
    }
}

/// The parameters `first, first+1, ...` written by `kinds`, comma-separated.
pub open spec fn params_text(first: nat, kinds: Seq<ParamKind>) -> Seq<char> {
    join(Seq::new(kinds.len(), |i: int| param_text((first + i) as nat, kinds[i])), ","@)
}

/// One parenthesized tuple.
pub open spec fn tuple_text(first: nat, kinds: Seq<ParamKind>) -> Seq<char> {
    "("@ + params_text(first, kinds) + ")"@
}

/// `rows` consecutive tuples, numbered on from `first`, comma-separated.
pub open spec fn tuples_text(rows: nat, first: nat, kinds: Seq<ParamKind>) -> Seq<char> {
    join(Seq::new(rows, |r: int| tuple_text((first + r * kinds.len()) as nat, kinds)), ","@)
}

/// Appends one parameter.
pub fn push_param(out: &mut String, k: u64, kind: ParamKind)
    ensures
        final(out)@ == old(out)@ + param_text(k as nat, kind),
{
    match kind {
        ParamKind::Plain => {
            out.append("@P");
            push_decimal(out, k);
        },
        ParamKind::Decimal => {
            out.append("CONVERT(DECIMAL(20,0),");
            out.append("@P");
            push_decimal(out, k);
            out.append(")");
        },
        ParamKind::DateTime => {
            out.append("CONVERT(DATETIME2(7),LEFT(");
            out.append("@P");
            push_decimal(out, k);
            out.append(",27),127)");
        },
    }
    assert(out@ =~= old(out)@ + param_text(k as nat, kind));
}

proof fn lemma_join_step(parts: Seq<Seq<char>>, i: int, sep: Seq<char>)
    requires
        0 <= i < parts.len(),
    ensures
        join(parts.take(i + 1), sep) == if i == 0 {
            parts[0]
        } else {
            join(parts.take(i), sep) + sep + parts[i]
        },
{
    assert(parts.take(i + 1).drop_last() =~= parts.take(i));
    if i == 0 {
        assert(parts.take(1)[0] == parts[0]);
    }
}

/// Appends the parameters `first, first+1, ...` written by `kinds`.
pub fn push_params(out: &mut String, first: u64, kinds: &Vec<ParamKind>)
    requires
        first + kinds@.len() <= u64::MAX,
    ensures
        final(out)@ == old(out)@ + params_text(first as nat, kinds@),
{
    let ghost parts = Seq::new(kinds@.len(), |i: int| param_text((first + i) as nat, kinds@[i]));
    let mut i: usize = 0;
    assert(parts.take(0) =~= Seq::<Seq<char>>::empty());
    while i < kinds.len()
        invariant
            i <= kinds.len(),
            first + kinds@.len() <= u64::MAX,
            parts == Seq::new(kinds@.len(), |i: int| param_text((first + i) as nat, kinds@[i])),
            out@ == old(out)@ + join(parts.take(i as int), ","@),
        decreases kinds.len() - i,
    {
        if i > 0 {
            out.append(",");
        }
        push_param(out, first + i as u64, kinds[i]);
        proof {
            lemma_join_step(parts, i as int, ","@);
            assert(out@ =~= old(out)@ + join(parts.take(i + 1), ","@));
        }
        i = i + 1;
    }
    assert(parts.take(kinds.len() as int) =~= parts);
}

/// Appends `rows` tuples of `kinds`, numbered on from `first`.
pub fn push_tuples(out: &mut String, rows: usize, first: u64, kinds: &Vec<ParamKind>)
    requires
        first + rows * kinds@.len() <= u64::MAX,
    ensures
        final(out)@ == old(out)@ + tuples_text(rows as nat, first as nat, kinds@),
{
    let ghost parts = Seq::new(rows as nat, |r: int| tuple_text((first + r * kinds@.len()) as nat, kinds@));
    let width = kinds.len();
    let mut r: usize = 0;
    let mut next: u64 = first;
    assert(parts.take(0) =~= Seq::<Seq<char>>::empty());
    while r < rows
        invariant
            r <= rows,
            width == kinds@.len(),
            first + rows * width <= u64::MAX,
            next == first + r * width,
            parts == Seq::new(rows as nat, |r: int| tuple_text((first + r * kinds@.len()) as nat, kinds@)),
            out@ == old(out)@ + join(parts.take(r as int), ","@),
        decreases rows - r,
    {
        assert(first + (r + 1) * width <= first + rows * width) by (nonlinear_arith)
            requires
                r < rows,
        ;
        assert((r + 1) * width == r * width + width) by (nonlinear_arith);
        if r > 0 {
            out.append(",");
        }
        out.append("(");
        push_params(out, next, kinds);
        out.append(")");
        proof {
            lemma_join_step(parts, r as int, ","@);
            assert(out@ =~= old(out)@ + join(parts.take(r + 1), ","@));
        }
        next = next + width as u64;
        r = r + 1;
    }
    assert(parts.take(rows as int) =~= parts);
}

/// `count` plain parameters.
pub open spec fn plain_kinds(count: nat) -> Seq<ParamKind> {
    Seq::new(count, |_i: int| ParamKind::Plain)
}

/// A template of `count` plain parameters.
pub fn plain_template(count: usize) -> (r: Vec<ParamKind>)
    ensures
        r@ == plain_kinds(count as nat),
{
    let mut v: Vec<ParamKind> = Vec::new();
    let mut i: usize = 0;
    while i < count
        invariant
            i <= count,
            v@ == plain_kinds(i as nat),
        decreases count - i,
    {
        v.push(ParamKind::Plain);
        i = i + 1;
        assert(v@ =~= plain_kinds(i as nat));
    }
    v
}

} // verus!
