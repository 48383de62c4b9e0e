//! Durable identities of OpenOT documents and their storage keys.

use vstd::prelude::*;

use crate::text::{hex_fixed, push_hex_fixed};

verus! {

/// Whether a loss range was reported by the producer or inferred from gaps.
#[derive(Debug, Clone, Copy, PartialEq, Eq, Structural)]
pub enum LossBasis {
    Authoritative,
    Inferred,
}

pub open spec fn basis_text(basis: LossBasis) -> Seq<char> {
    match basis {
        LossBasis::Authoritative => "authoritative"@,
        LossBasis::Inferred => "inferred"@,
    }
}

impl LossBasis {
    /// Stable lowercase name used in keys and read-model rows.
    pub fn as_str(&self) -> (r: &'static str)
        ensures
            r@ == basis_text(*self),
    {
        match self {
            LossBasis::Authoritative => "authoritative",
            LossBasis::Inferred => "inferred",
        }
    }
}

/// The identity under which one document is stored exactly once.
#[derive(Debug, Clone, Copy, PartialEq, Eq, Structural)]
pub enum DocumentIdentity {
    /// An event or placeholder: one source record.
    Record { buffer_id: u32, run_id: u64, source_id: u32, seq: u64 },
    /// A loss range.
    Loss {
        buffer_id: u32,
        run_id: u64,
        source_id: u32,
        epoch_id: u64,
        first_seq: u64,
        last_seq: u64,
        basis: LossBasis,
    },
}

/// `r:{buffer:08x}:{run:016x}:{source:08x}:{seq:016x}` for records and
/// `l:{buffer:08x}:{run:016x}:{source:08x}:{epoch:016x}:{first:016x}:{last:016x}:{basis}`
/// for loss ranges.
pub open spec fn storage_key_text(identity: DocumentIdentity) -> Seq<char> {
    match identity {
        DocumentIdentity::Record { buffer_id, run_id, source_id, seq } => "r:"@ + hex_fixed(
            buffer_id as nat,
            8,
        ) + ":"@ + hex_fixed(run_id as nat, 16) + ":"@ + hex_fixed(source_id as nat, 8) + ":"@
            + hex_fixed(seq as nat, 16),
        DocumentIdentity::Loss {
            buffer_id,
            run_id,
            source_id,
            epoch_id,
            first_seq,
            last_seq,
            basis,
        } => "l:"@ + hex_fixed(buffer_id as nat, 8) + ":"@ + hex_fixed(run_id as nat, 16) + ":"@
            + hex_fixed(source_id as nat, 8) + ":"@ + hex_fixed(epoch_id as nat, 16) + ":"@
            + hex_fixed(first_seq as nat, 16) + ":"@ + hex_fixed(last_seq as nat, 16) + ":"@
            + basis_text(basis),
    }
}

impl DocumentIdentity {
    /// The storage key of this identity.
    pub fn storage_key(&self) -> (r: String)
        ensures
            r@ == storage_key_text(*self),
    {
        let mut out = String::new();
        match self {
            DocumentIdentity::Record { buffer_id, run_id, source_id, seq } => {
                out.append("r:");
                push_hex_fixed(&mut out, *buffer_id as u64, 8);
                out.append(":");
                push_hex_fixed(&mut out, *run_id, 16);
                out.append(":");
                push_hex_fixed(&mut out, *source_id as u64, 8);
                out.append(":");
                push_hex_fixed(&mut out, *seq, 16);
            },
            DocumentIdentity::Loss {
                buffer_id,
                run_id,
                source_id,
                epoch_id,
                first_seq,
                last_seq,
                basis,
            } => {
                out.append("l:");
                push_hex_fixed(&mut out, *buffer_id as u64, 8);
                out.append(":");
                push_hex_fixed(&mut out, *run_id, 16);
                out.append(":");
                push_hex_fixed(&mut out, *source_id as u64, 8);
                out.append(":");
                push_hex_fixed(&mut out, *epoch_id, 16);
                out.append(":");
                push_hex_fixed(&mut out, *first_seq, 16);
                out.append(":");
                push_hex_fixed(&mut out, *last_seq, 16);
                out.append(":");
                out.append(basis.as_str());
            },
        }
        assert(out@ =~= storage_key_text(*self));
        out
    }
}


proof fn lemma_cancel(a: Seq<char>, b: Seq<char>, c: Seq<char>, d: Seq<char>)
    requires
        a + b == c + d,
        a.len() == c.len(),
    ensures
        a == c,
        b == d,
{
    assert(a =~= (a + b).subrange(0, a.len() as int));
    assert(c =~= (c + d).subrange(0, c.len() as int));
    assert(b =~= (a + b).subrange(a.len() as int, (a + b).len() as int));
    assert(d =~= (c + d).subrange(c.len() as int, (c + d).len() as int));
}

pub open spec fn pow16(w: nat) -> nat
    decreases w,
{
    if w == 0 {
        1
    } else {
        16 * pow16((w - 1) as nat)
    }
}

proof fn lemma_hex_len(n: nat, w: nat)
    ensures
        hex_fixed(n, w).len() == w,
    decreases w,
{
    if w > 0 {
        lemma_hex_len(n / 16, (w - 1) as nat);
    }
}

proof fn lemma_hex_injective(a: nat, b: nat, w: nat)
    requires
        a < pow16(w),
        b < pow16(w),
        hex_fixed(a, w) == hex_fixed(b, w),
    ensures
        a == b,
    decreases w,
{
    if w > 0 {
        let ha = hex_fixed(a, w);
        let hb = hex_fixed(b, w);
        assert(ha.last() == crate::text::hex_char(a % 16));
        assert(hb.last() == crate::text::hex_char(b % 16));
        assert(ha.drop_last() == hex_fixed(a / 16, (w - 1) as nat));
        assert(hb.drop_last() == hex_fixed(b / 16, (w - 1) as nat));
        assert(a / 16 < pow16((w - 1) as nat)) by (nonlinear_arith)
            requires
                a < 16 * pow16((w - 1) as nat),
        ;
        assert(b / 16 < pow16((w - 1) as nat)) by (nonlinear_arith)
            requires
                b < 16 * pow16((w - 1) as nat),
        ;
        lemma_hex_injective(a / 16, b / 16, (w - 1) as nat);
        assert(a % 16 == b % 16);
    }
}

proof fn lemma_pow16_values()
    ensures
        pow16(8) == 4294967296,
        pow16(16) == 18446744073709551616,
{
    reveal_with_fuel(pow16, 17);
}

/// Peels the last `:`-separated hexadecimal field off two equal keys.
proof fn lemma_peel(x: Seq<char>, y: Seq<char>, a: nat, b: nat, w: nat)
    requires
        x + ":"@ + hex_fixed(a, w) == y + ":"@ + hex_fixed(b, w),
        a < pow16(w),
        b < pow16(w),
    ensures
        x == y,
        a == b,
{
    lemma_hex_len(a, w);
    lemma_hex_len(b, w);
    let xa = x + ":"@;
    let yb = y + ":"@;
    assert(xa + hex_fixed(a, w) == yb + hex_fixed(b, w));
    assert((xa + hex_fixed(a, w)).len() == xa.len() + w);
    assert((yb + hex_fixed(b, w)).len() == yb.len() + w);
    assert(xa.len() == yb.len());
    lemma_cancel(x + ":"@, hex_fixed(a, w), y + ":"@, hex_fixed(b, w));
    lemma_hex_injective(a, b, w);
    reveal_strlit(":");
    lemma_cancel(x, ":"@, y, ":"@);
}

/// Distinct identities have distinct storage keys, so a key names exactly
/// one document.
pub proof fn law_storage_keys_are_distinct(a: DocumentIdentity, b: DocumentIdentity)
    requires
        storage_key_text(a) == storage_key_text(b),
    ensures
        a == b,
{
    lemma_pow16_values();
    reveal_strlit("r:");
    reveal_strlit("l:");
    reveal_strlit(":");
    reveal_strlit("authoritative");
    reveal_strlit("inferred");
    let ka = storage_key_text(a);
    let kb = storage_key_text(b);
    match (a, b) {
        (
            DocumentIdentity::Record { buffer_id: b1, run_id: r1, source_id: s1, seq: q1 },
            DocumentIdentity::Record { buffer_id: b2, run_id: r2, source_id: s2, seq: q2 },
        ) => {
            let p1 = "r:"@ + hex_fixed(b1 as nat, 8) + ":"@ + hex_fixed(r1 as nat, 16) + ":"@ + hex_fixed(s1 as nat, 8);
            let p2 = "r:"@ + hex_fixed(b2 as nat, 8) + ":"@ + hex_fixed(r2 as nat, 16) + ":"@ + hex_fixed(s2 as nat, 8);
            lemma_peel(p1, p2, q1 as nat, q2 as nat, 16);
            lemma_peel("r:"@ + hex_fixed(b1 as nat, 8) + ":"@ + hex_fixed(r1 as nat, 16), "r:"@ + hex_fixed(b2 as nat, 8) + ":"@ + hex_fixed(r2 as nat, 16), s1 as nat, s2 as nat, 8);
            lemma_peel("r:"@ + hex_fixed(b1 as nat, 8), "r:"@ + hex_fixed(b2 as nat, 8), r1 as nat, r2 as nat, 16);
            lemma_hex_len(b1 as nat, 8);
            lemma_hex_len(b2 as nat, 8);
            lemma_cancel("r:"@, hex_fixed(b1 as nat, 8), "r:"@, hex_fixed(b2 as nat, 8));
            lemma_hex_injective(b1 as nat, b2 as nat, 8);
        },
        (DocumentIdentity::Record { .. }, DocumentIdentity::Loss { .. }) => {
            assert(ka[0] == 'r');
            assert(kb[0] == 'l');
        },
        (DocumentIdentity::Loss { .. }, DocumentIdentity::Record { .. }) => {
            assert(ka[0] == 'l');
            assert(kb[0] == 'r');
        },
        (
            DocumentIdentity::Loss { buffer_id: b1, run_id: r1, source_id: s1, epoch_id: e1, first_seq: f1, last_seq: l1, basis: t1 },
            DocumentIdentity::Loss { buffer_id: b2, run_id: r2, source_id: s2, epoch_id: e2, first_seq: f2, last_seq: l2, basis: t2 },
        ) => {
            let head1 = "l:"@ + hex_fixed(b1 as nat, 8) + ":"@ + hex_fixed(r1 as nat, 16) + ":"@
                + hex_fixed(s1 as nat, 8) + ":"@ + hex_fixed(e1 as nat, 16) + ":"@ + hex_fixed(f1 as nat, 16) + ":"@
                + hex_fixed(l1 as nat, 16) + ":"@;
            let head2 = "l:"@ + hex_fixed(b2 as nat, 8) + ":"@ + hex_fixed(r2 as nat, 16) + ":"@
                + hex_fixed(s2 as nat, 8) + ":"@ + hex_fixed(e2 as nat, 16) + ":"@ + hex_fixed(f2 as nat, 16) + ":"@
                + hex_fixed(l2 as nat, 16) + ":"@;
            lemma_hex_len(b1 as nat, 8);
            lemma_hex_len(b2 as nat, 8);
            lemma_hex_len(r1 as nat, 16);
            lemma_hex_len(r2 as nat, 16);
            lemma_hex_len(s1 as nat, 8);
            lemma_hex_len(s2 as nat, 8);
            lemma_hex_len(e1 as nat, 16);
            lemma_hex_len(e2 as nat, 16);
            lemma_hex_len(f1 as nat, 16);
            lemma_hex_len(f2 as nat, 16);
            lemma_hex_len(l1 as nat, 16);
            lemma_hex_len(l2 as nat, 16);
            assert(head1.len() == head2.len());
            assert(ka == head1 + basis_text(t1));
            assert(kb == head2 + basis_text(t2));
            assert(ka.len() == head1.len() + basis_text(t1).len());
            assert(kb.len() == head2.len() + basis_text(t2).len());
            assert(basis_text(t1).len() == basis_text(t2).len());
            if t1 != t2 {
                assert(basis_text(t1).len() != basis_text(t2).len());
            }
            lemma_cancel(head1, basis_text(t1), head2, basis_text(t2));
            let x1 = "l:"@ + hex_fixed(b1 as nat, 8) + ":"@ + hex_fixed(r1 as nat, 16) + ":"@
                + hex_fixed(s1 as nat, 8) + ":"@ + hex_fixed(e1 as nat, 16) + ":"@ + hex_fixed(f1 as nat, 16);
            let x2 = "l:"@ + hex_fixed(b2 as nat, 8) + ":"@ + hex_fixed(r2 as nat, 16) + ":"@
                + hex_fixed(s2 as nat, 8) + ":"@ + hex_fixed(e2 as nat, 16) + ":"@ + hex_fixed(f2 as nat, 16);
            lemma_cancel(x1 + ":"@ + hex_fixed(l1 as nat, 16), ":"@, x2 + ":"@ + hex_fixed(l2 as nat, 16), ":"@);
            lemma_peel(x1, x2, l1 as nat, l2 as nat, 16);
            let y1 = "l:"@ + hex_fixed(b1 as nat, 8) + ":"@ + hex_fixed(r1 as nat, 16) + ":"@
                + hex_fixed(s1 as nat, 8) + ":"@ + hex_fixed(e1 as nat, 16);
            let y2 = "l:"@ + hex_fixed(b2 as nat, 8) + ":"@ + hex_fixed(r2 as nat, 16) + ":"@
                + hex_fixed(s2 as nat, 8) + ":"@ + hex_fixed(e2 as nat, 16);
            lemma_peel(y1, y2, f1 as nat, f2 as nat, 16);
            let z1 = "l:"@ + hex_fixed(b1 as nat, 8) + ":"@ + hex_fixed(r1 as nat, 16) + ":"@ + hex_fixed(s1 as nat, 8);
            let z2 = "l:"@ + hex_fixed(b2 as nat, 8) + ":"@ + hex_fixed(r2 as nat, 16) + ":"@ + hex_fixed(s2 as nat, 8);
            lemma_peel(z1, z2, e1 as nat, e2 as nat, 16);
            lemma_peel("l:"@ + hex_fixed(b1 as nat, 8) + ":"@ + hex_fixed(r1 as nat, 16), "l:"@ + hex_fixed(b2 as nat, 8) + ":"@ + hex_fixed(r2 as nat, 16), s1 as nat, s2 as nat, 8);
            lemma_peel("l:"@ + hex_fixed(b1 as nat, 8), "l:"@ + hex_fixed(b2 as nat, 8), r1 as nat, r2 as nat, 16);
            lemma_cancel("l:"@, hex_fixed(b1 as nat, 8), "l:"@, hex_fixed(b2 as nat, 8));
            lemma_hex_injective(b1 as nat, b2 as nat, 8);
        },
    }
}

/// `a` sorts strictly before `b`, character by character, a proper prefix
/// first. For storage keys, which are ASCII, this is their byte order.
pub open spec fn text_lt(a: Seq<char>, b: Seq<char>) -> bool
    decreases a.len(),
{
    if a.len() == 0 {
        b.len() > 0
    } else if b.len() == 0 {
        false
    } else if (a[0] as u32) < (b[0] as u32) {
        true
    } else if a[0] == b[0] {
        text_lt(a.drop_first(), b.drop_first())
    } else {
        false
    }
}

proof fn lemma_text_lt_irreflexive(a: Seq<char>)
    ensures
        !text_lt(a, a),
    decreases a.len(),
{
    if a.len() > 0 {
        lemma_text_lt_irreflexive(a.drop_first());
    }
}

/// Comparing two texts that start with parts of equal length compares the
/// parts first, then what follows.
proof fn lemma_text_lt_concat(p1: Seq<char>, s1: Seq<char>, p2: Seq<char>, s2: Seq<char>)
    requires
        p1.len() == p2.len(),
    ensures
        text_lt(p1 + s1, p2 + s2) == (text_lt(p1, p2) || (p1 == p2 && text_lt(s1, s2))),
    decreases p1.len(),
{
    if p1.len() == 0 {
        assert(p1 + s1 =~= s1);
        assert(p2 + s2 =~= s2);
        assert(p1 =~= p2);
    } else {
        lemma_text_lt_concat(p1.drop_first(), s1, p2.drop_first(), s2);
        assert((p1 + s1).drop_first() =~= p1.drop_first() + s1);
        assert((p2 + s2).drop_first() =~= p2.drop_first() + s2);
        assert((p1 + s1)[0] == p1[0]);
        assert((p2 + s2)[0] == p2[0]);
        if p1[0] == p2[0] {
            if p1.drop_first() == p2.drop_first() {
                assert forall|i: int| 0 <= i < p1.len() implies p1[i] == p2[i] by {
                    if i > 0 {
                        assert(p1[i] == p1.drop_first()[i - 1]);
                        assert(p2[i] == p2.drop_first()[i - 1]);
                    }
                }
                assert(p1 =~= p2);
            } else {
                assert(p1 != p2);
            }
        } else {
            assert(p1 != p2);
        }
    }
}

proof fn lemma_hex_char_order(x: nat, y: nat)
    requires
        x < 16,
        y < 16,
    ensures
        ((crate::text::hex_char(x) as u32) < (crate::text::hex_char(y) as u32)) == (x < y),
        (crate::text::hex_char(x) == crate::text::hex_char(y)) == (x == y),
{
    let cx = crate::text::hex_char(x);
    let cy = crate::text::hex_char(y);
    assert(cx as u32 == if x < 10 { x + 48 } else { x + 87 });
    assert(cy as u32 == if y < 10 { y + 48 } else { y + 87 });
}

/// Fixed-width hexadecimal text sorts as the numbers it shows.
proof fn lemma_hex_order(a: nat, b: nat, w: nat)
    requires
        a < pow16(w),
        b < pow16(w),
    ensures
        text_lt(hex_fixed(a, w), hex_fixed(b, w)) == (a < b),
    decreases w,
{
    if w == 0 {
        assert(a == 0 && b == 0);
    } else {
        let p = (w - 1) as nat;
        assert(a / 16 < pow16(p)) by (nonlinear_arith)
            requires
                a < 16 * pow16(p),
        ;
        assert(b / 16 < pow16(p)) by (nonlinear_arith)
            requires
                b < 16 * pow16(p),
        ;
        lemma_hex_order(a / 16, b / 16, p);
        lemma_hex_len(a / 16, p);
        lemma_hex_len(b / 16, p);
        let ha = hex_fixed(a / 16, p);
        let hb = hex_fixed(b / 16, p);
        let ca = crate::text::hex_char(a % 16);
        let cb = crate::text::hex_char(b % 16);
        assert(hex_fixed(a, w) =~= ha + seq![ca]);
        assert(hex_fixed(b, w) =~= hb + seq![cb]);
        lemma_text_lt_concat(ha, seq![ca], hb, seq![cb]);
        lemma_hex_char_order(a % 16, b % 16);
        assert(seq![ca].drop_first() =~= Seq::<char>::empty());
        assert(seq![cb].drop_first() =~= Seq::<char>::empty());
        assert(!text_lt(Seq::<char>::empty(), Seq::<char>::empty()));
        assert(seq![ca][0] == ca && seq![cb][0] == cb);
        assert(text_lt(seq![ca], seq![cb]) == ((ca as u32) < (cb as u32)));
        if ha == hb {
            lemma_hex_injective(a / 16, b / 16, p);
        }
        vstd::arithmetic::div_mod::lemma_fundamental_div_mod(a as int, 16);
        vstd::arithmetic::div_mod::lemma_fundamental_div_mod(b as int, 16);
    }
}

/// One more `:`-separated field: the longer texts compare by what came
/// before, then by the new fields.
proof fn lemma_field_step(pa: Seq<char>, pb: Seq<char>, a: nat, b: nat, w: nat)
    requires
        pa.len() == pb.len(),
        a < pow16(w),
        b < pow16(w),
    ensures
        text_lt(pa + ":"@ + hex_fixed(a, w), pb + ":"@ + hex_fixed(b, w)) == (text_lt(pa, pb) || (pa == pb
            && a < b)),
        (pa + ":"@ + hex_fixed(a, w) == pb + ":"@ + hex_fixed(b, w)) == (pa == pb && a == b),
{
    reveal_strlit(":");
    lemma_text_lt_concat(pa, ":"@, pb, ":"@);
    lemma_text_lt_irreflexive(":"@);
    lemma_text_lt_concat(pa + ":"@, hex_fixed(a, w), pb + ":"@, hex_fixed(b, w));
    lemma_hex_order(a, b, w);
    if pa + ":"@ == pb + ":"@ {
        lemma_cancel(pa, ":"@, pb, ":"@);
    }
    if pa + ":"@ + hex_fixed(a, w) == pb + ":"@ + hex_fixed(b, w) {
        lemma_peel(pa, pb, a, b, w);
    }
}

/// The order of record keys: fields compared left to right, as numbers.
pub open spec fn record_fields_lt(a: (u32, u64, u32, u64), b: (u32, u64, u32, u64)) -> bool {
    ||| a.0 < b.0
    ||| a.0 == b.0 && a.1 < b.1
    ||| a.0 == b.0 && a.1 == b.1 && a.2 < b.2
    ||| a.0 == b.0 && a.1 == b.1 && a.2 == b.2 && a.3 < b.3
}

/// Record keys sort as their identities: one key sorts before another
/// exactly when its buffer, run, source and sequence, compared in that
/// order as numbers, come first. Fixed-width hexadecimal makes the text
/// order of the keys (their byte order) the numeric order of the fields.
pub proof fn law_record_keys_sort_as_identities(
    a_buffer: u32,
    a_run: u64,
    a_source: u32,
    a_seq: u64,
    b_buffer: u32,
    b_run: u64,
    b_source: u32,
    b_seq: u64,
)
    ensures
        text_lt(
            storage_key_text(
                DocumentIdentity::Record { buffer_id: a_buffer, run_id: a_run, source_id: a_source, seq: a_seq },
            ),
            storage_key_text(
                DocumentIdentity::Record { buffer_id: b_buffer, run_id: b_run, source_id: b_source, seq: b_seq },
            ),
        ) == record_fields_lt((a_buffer, a_run, a_source, a_seq), (b_buffer, b_run, b_source, b_seq)),
{
    lemma_pow16_values();
    reveal_strlit("r:");
    let h1a = "r:"@ + hex_fixed(a_buffer as nat, 8);
    let h1b = "r:"@ + hex_fixed(b_buffer as nat, 8);
    lemma_hex_len(a_buffer as nat, 8);
    lemma_hex_len(b_buffer as nat, 8);
    lemma_text_lt_concat("r:"@, hex_fixed(a_buffer as nat, 8), "r:"@, hex_fixed(b_buffer as nat, 8));
    lemma_text_lt_irreflexive("r:"@);
    lemma_hex_order(a_buffer as nat, b_buffer as nat, 8);
    if h1a == h1b {
        lemma_cancel("r:"@, hex_fixed(a_buffer as nat, 8), "r:"@, hex_fixed(b_buffer as nat, 8));
        lemma_hex_injective(a_buffer as nat, b_buffer as nat, 8);
    }
    lemma_hex_len(a_run as nat, 16);
    lemma_hex_len(b_run as nat, 16);
    lemma_field_step(h1a, h1b, a_run as nat, b_run as nat, 16);
    let h2a = h1a + ":"@ + hex_fixed(a_run as nat, 16);
    let h2b = h1b + ":"@ + hex_fixed(b_run as nat, 16);
    lemma_hex_len(a_source as nat, 8);
    lemma_hex_len(b_source as nat, 8);
    lemma_field_step(h2a, h2b, a_source as nat, b_source as nat, 8);
    let h3a = h2a + ":"@ + hex_fixed(a_source as nat, 8);
    let h3b = h2b + ":"@ + hex_fixed(b_source as nat, 8);
    lemma_field_step(h3a, h3b, a_seq as nat, b_seq as nat, 16);
}

} // verus!
