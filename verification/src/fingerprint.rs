//! The catalog fingerprint every adapter records and later compares: the
//! SHA-256 of the catalog rows in byte order, each framed by its length.

use vstd::prelude::*;
use vstd::relations::{sorted_by, total_ordering};
use vstd::utf8::encode_utf8;
use sha2::Digest;
use crate::contracts::PersistenceError;
use crate::text::{hex_fixed, push_hex_fixed, push_signed_decimal, signed_decimal};

verus! {

broadcast use vstd::seq_lib::group_to_multiset_ensures;

/// Lexicographic order on byte strings, as `Ord` orders `str` and `[u8]`.
pub open spec fn bytes_le(a: Seq<u8>, b: Seq<u8>) -> bool
    decreases a.len(),
{
    if a.len() == 0 {
        true
    } else if b.len() == 0 {
        false
    } else if a[0] < b[0] {
        true
    } else if a[0] > b[0] {
        false
    } else {
        bytes_le(a.drop_first(), b.drop_first())
    }
}

pub open spec fn byte_order() -> spec_fn(Seq<u8>, Seq<u8>) -> bool {
    |a: Seq<u8>, b: Seq<u8>| bytes_le(a, b)
}

pub(crate) proof fn lemma_le_reflexive(a: Seq<u8>)
    ensures
        bytes_le(a, a),
    decreases a.len(),
{
    if a.len() > 0 {
        lemma_le_reflexive(a.drop_first());
    }
}

pub(crate) proof fn lemma_le_antisymmetric(a: Seq<u8>, b: Seq<u8>)
    requires
        bytes_le(a, b),
        bytes_le(b, a),
    ensures
        a == b,
    decreases a.len(),
{
    if a.len() > 0 && b.len() > 0 {
        lemma_le_antisymmetric(a.drop_first(), b.drop_first());
        assert(a =~= seq![a[0]] + a.drop_first());
        assert(b =~= seq![b[0]] + b.drop_first());
    }
}

pub(crate) proof fn lemma_le_transitive(a: Seq<u8>, b: Seq<u8>, c: Seq<u8>)
    requires
        bytes_le(a, b),
        bytes_le(b, c),
    ensures
        bytes_le(a, c),
    decreases a.len(),
{
    if a.len() > 0 && b.len() > 0 && c.len() > 0 {
        if a[0] == b[0] && b[0] == c[0] {
            lemma_le_transitive(a.drop_first(), b.drop_first(), c.drop_first());
        }
    }
}

pub(crate) proof fn lemma_le_total(a: Seq<u8>, b: Seq<u8>)
    ensures
        bytes_le(a, b) || bytes_le(b, a),
    decreases a.len(),
{
    if a.len() > 0 && b.len() > 0 {
        lemma_le_total(a.drop_first(), b.drop_first());
    }
}

/// The byte order is a total order.
pub proof fn lemma_byte_order_total()
    ensures
        total_ordering(byte_order()),
{
    let r = byte_order();
    assert forall|x: Seq<u8>| #[trigger] r(x, x) by {
        lemma_le_reflexive(x);
    }
    assert forall|x: Seq<u8>, y: Seq<u8>| #[trigger] r(x, y) && #[trigger] r(y, x) implies x == y by {
        lemma_le_antisymmetric(x, y);
    }
    assert forall|x: Seq<u8>, y: Seq<u8>, z: Seq<u8>| #[trigger] r(x, y) && #[trigger] r(y, z) implies r(
        x,
        z,
    ) by {
        lemma_le_transitive(x, y, z);
    }
    assert forall|x: Seq<u8>, y: Seq<u8>| #[trigger] r(x, y) || #[trigger] r(y, x) by {
        lemma_le_total(x, y);
    }
}

/// Compares two byte strings in byte order.
pub(crate) fn le_bytes(a: &[u8], b: &[u8]) -> (r: bool)
    ensures
        r == bytes_le(a@, b@),
{
    let mut i: usize = 0;
    assert(a@.skip(0) =~= a@);
    assert(b@.skip(0) =~= b@);
    while i < a.len() && i < b.len()
        invariant
            i <= a.len(),
            i <= b.len(),
            bytes_le(a@, b@) == bytes_le(a@.skip(i as int), b@.skip(i as int)),
        decreases a.len() - i,
    {
        assert(a@.skip(i as int).drop_first() =~= a@.skip(i + 1));
        assert(b@.skip(i as int).drop_first() =~= b@.skip(i + 1));
        if a[i] < b[i] {
            return true;
        }
        if a[i] > b[i] {
            return false;
        }
        i = i + 1;
    }
    i == a.len()
}

/// The bytes of each row.
pub open spec fn row_bytes(rows: Seq<String>) -> Seq<Seq<u8>> {
    Seq::new(rows.len(), |i: int| encode_utf8(rows[i]@))
}

/// The 8 big-endian bytes of `n`.
pub open spec fn be8(n: nat) -> Seq<u8> {
    Seq::new(8, |i: int| ((n / pow256((7 - i) as nat)) % 256) as u8)
}

pub open spec fn pow256(n: nat) -> nat
    decreases n,
{
    if n == 0 {
        1
    } else {
        256 * pow256((n - 1) as nat)
    }
}

/// The digest input: each row as its byte length (8 big-endian bytes, as a
/// 64-bit `usize` renders it) followed by its bytes.
pub open spec fn framed(rows: Seq<Seq<u8>>) -> Seq<u8>
    decreases rows.len(),
{
    if rows.len() == 0 {
        Seq::empty()
    } else {
        framed(rows.drop_last()) + be8(rows.last().len()) + rows.last()
    }
}

/// The SHA-256 digest of a byte string.
pub uninterp spec fn sha256_of(data: Seq<u8>) -> Seq<u8>;

/// `sha2::Sha256::digest`: its result is the SHA-256 of `data`, a function
/// of `data` alone, and is 32 bytes long.
#[verifier::external_body]
fn sha256(data: &[u8]) -> (r: Vec<u8>)
    ensures
        r@ == sha256_of(data@),
        r@.len() == 32,
{
    sha2::Sha256::digest(data).to_vec()
}

/// Lowercase hexadecimal, two digits per byte.
pub open spec fn hex_bytes(bytes: Seq<u8>) -> Seq<char>
    decreases bytes.len(),
{
    if bytes.len() == 0 {
        Seq::empty()
    } else {
        hex_bytes(bytes.drop_last()) + hex_fixed(bytes.last() as nat, 2)
    }
}

/// A lowercase hexadecimal digit: `0`-`9` or `a`-`f`.
pub open spec fn is_lower_hex(c: char) -> bool {
    ('0' <= c && c <= '9') || ('a' <= c && c <= 'f')
}

proof fn lemma_hex_fixed(n: nat, width: nat)
    ensures
        hex_fixed(n, width).len() == width,
        forall|i: int| 0 <= i < width ==> is_lower_hex(#[trigger] hex_fixed(n, width)[i]),
    decreases width,
{
    if width > 0 {
        lemma_hex_fixed(n / 16, (width - 1) as nat);
        let d = n % 16;
        assert(is_lower_hex(crate::text::hex_char(d))) by {
            if d < 10 {
                assert(crate::text::hex_char(d) == (d + 48) as char);
            } else {
                assert(crate::text::hex_char(d) == (d + 87) as char);
            }
        }
        assert forall|i: int| 0 <= i < width implies is_lower_hex(#[trigger] hex_fixed(n, width)[i]) by {
            if i < width - 1 {
                assert(hex_fixed(n, width)[i] == hex_fixed(n / 16, (width - 1) as nat)[i]);
            }
        }
    }
}

proof fn lemma_hex_bytes(bytes: Seq<u8>)
    ensures
        hex_bytes(bytes).len() == 2 * bytes.len(),
        forall|i: int| 0 <= i < hex_bytes(bytes).len() ==> is_lower_hex(#[trigger] hex_bytes(bytes)[i]),
    decreases bytes.len(),
{
    if bytes.len() > 0 {
        let rest = bytes.drop_last();
        lemma_hex_bytes(rest);
        lemma_hex_fixed(bytes.last() as nat, 2);
        let h = hex_bytes(bytes);
        assert forall|i: int| 0 <= i < h.len() implies is_lower_hex(#[trigger] h[i]) by {
            if i < hex_bytes(rest).len() {
                assert(h[i] == hex_bytes(rest)[i]);
            } else {
                assert(h[i] == hex_fixed(bytes.last() as nat, 2)[i - hex_bytes(rest).len()]);
            }
        }
    }
}

/// The fingerprint of catalog rows: the hex SHA-256 of the framed rows in
/// byte order.
pub open spec fn fingerprint_text(rows: Seq<String>) -> Seq<char> {
    hex_bytes(sha256_of(framed(row_bytes(rows).sort_by(byte_order()))))
}


/// Index of a least row of `rest` in byte order.
fn least_row(rest: &Vec<String>) -> (m: usize)
    requires
        rest@.len() > 0,
    ensures
        m < rest@.len(),
        forall|j: int| 0 <= j < rest@.len() ==> bytes_le(row_bytes(rest@)[m as int], #[trigger] row_bytes(rest@)[j]),
{
    proof {
        lemma_byte_order_total();
    }
    let mut m: usize = 0;
    let mut i: usize = 1;
    proof {
        lemma_le_reflexive(row_bytes(rest@)[0]);
    }
    while i < rest.len()
        invariant
            1 <= i <= rest@.len(),
            m < i,
            total_ordering(byte_order()),
            forall|j: int| 0 <= j < i ==> bytes_le(row_bytes(rest@)[m as int], #[trigger] row_bytes(rest@)[j]),
        decreases rest.len() - i,
    {
        let candidate = rest[i].as_str().as_bytes();
        let best = rest[m].as_str().as_bytes();
        if !le_bytes(best, candidate) {
            proof {
                let rb = row_bytes(rest@);
                lemma_le_total(rb[m as int], rb[i as int]);
                assert forall|j: int| 0 <= j < i + 1 implies bytes_le(rb[i as int], #[trigger] rb[j]) by {
                    if j < i {
                        lemma_le_transitive(rb[i as int], rb[m as int], rb[j]);
                    } else {
                        lemma_le_reflexive(rb[j]);
                    }
                }
            }
            m = i;
        } else {
            proof {
                let rb = row_bytes(rest@);
                assert(bytes_le(rb[m as int], rb[i as int]));
            }
        }
        i = i + 1;
    }
    m
}

proof fn lemma_row_bytes_remove(rows: Seq<String>, m: int)
    requires
        0 <= m < rows.len(),
    ensures
        row_bytes(rows.remove(m)) == row_bytes(rows).remove(m),
{
    assert(row_bytes(rows.remove(m)) =~= row_bytes(rows).remove(m));
}

/// The rows in byte order.
fn sort_rows(rows: Vec<String>) -> (r: Vec<String>)
    ensures
        row_bytes(r@) == row_bytes(rows@).sort_by(byte_order()),
{
    broadcast use vstd::multiset::group_multiset_axioms;
    proof {
        lemma_byte_order_total();
    }
    let ghost all_rows = row_bytes(rows@).to_multiset();
    let mut rest = rows;
    let mut out: Vec<String> = Vec::new();
    assert(row_bytes(out@) =~= Seq::<Seq<u8>>::empty());
    assert(row_bytes(out@).to_multiset().add(row_bytes(rest@).to_multiset()) =~= all_rows);
    while rest.len() > 0
        invariant
            total_ordering(byte_order()),
            row_bytes(out@).to_multiset().add(row_bytes(rest@).to_multiset()) == all_rows,
            sorted_by(row_bytes(out@), byte_order()),
            forall|i: int, j: int|
                0 <= i < out@.len() && 0 <= j < rest@.len() ==> bytes_le(
                    #[trigger] row_bytes(out@)[i],
                    #[trigger] row_bytes(rest@)[j],
                ),
        decreases rest@.len(),
    {
        let m = least_row(&rest);
        let ghost before_out = row_bytes(out@);
        let ghost before_rest = row_bytes(rest@);
        let ghost before_rows = rest@;
        let x = rest.remove(m);
        proof {
            lemma_row_bytes_remove(before_rows, m as int);
        }
        out.push(x);
        proof {
            let xb = before_rest[m as int];
            assert(row_bytes(rest@) =~= before_rest.remove(m as int));
            assert(row_bytes(out@) =~= before_out.push(xb));
            assert(row_bytes(rest@).to_multiset() == before_rest.to_multiset().remove(xb));
            assert(before_rest.to_multiset().count(xb) > 0);
            assert(row_bytes(out@).to_multiset().add(row_bytes(rest@).to_multiset()) =~= all_rows);
            assert forall|i: int, j: int| 0 <= i < j < out@.len() implies (#[trigger] byte_order()(
                row_bytes(out@)[i],
                row_bytes(out@)[j],
            )) by {
                if j == out@.len() - 1 {
                    assert(row_bytes(out@)[j] == xb);
                }
            }
            assert forall|i: int, j: int|
                0 <= i < out@.len() && 0 <= j < rest@.len() implies bytes_le(
                    #[trigger] row_bytes(out@)[i],
                    #[trigger] row_bytes(rest@)[j],
                ) by {
                let jj = if j < m { j } else { j + 1 };
                assert(row_bytes(rest@)[j] == before_rest[jj]);
                if i == out@.len() - 1 {
                    assert(row_bytes(out@)[i] == xb);
                } else {
                    assert(row_bytes(out@)[i] == before_out[i]);
                }
            }
        }
    }
    proof {
        assert(row_bytes(rest@) =~= Seq::<Seq<u8>>::empty());
        assert(row_bytes(out@).to_multiset() =~= all_rows);
        row_bytes(rows@).lemma_sort_by_ensures(byte_order());
        vstd::seq_lib::lemma_sorted_unique(row_bytes(out@), row_bytes(rows@).sort_by(byte_order()), byte_order());
    }
    out
}


/// Appends the 8 big-endian bytes of `n`.
fn push_be8(out: &mut Vec<u8>, n: u64)
    ensures
        final(out)@ == old(out)@ + be8(n as nat),
{
    let mut d: u64 = 72057594037927936;
    let mut i: usize = 0;
    assert(pow256(7) == 72057594037927936) by {
        reveal_with_fuel(pow256, 8);
    }
    assert(be8(n as nat).take(0) =~= Seq::<u8>::empty());
    while i < 8
        invariant
            i <= 8,
            i < 8 ==> d as nat == pow256((7 - i) as nat),
            d >= 1,
            out@ == old(out)@ + be8(n as nat).take(i as int),
        decreases 8 - i,
    {
        let b = ((n / d) % 256) as u8;
        out.push(b);
        assert(be8(n as nat).take(i + 1) =~= be8(n as nat).take(i as int).push(b));
        if i < 7 {
            proof {
                let k = (6 - i) as nat;
                assert(pow256(k + 1) == 256 * pow256(k));
                assert((256 * pow256(k)) / 256 == pow256(k)) by (nonlinear_arith);
                lemma_pow256_positive(k);
            }
            d = d / 256;
        }
        i = i + 1;
    }
    assert(be8(n as nat).take(8) =~= be8(n as nat));
}

proof fn lemma_pow256_positive(k: nat)
    ensures
        pow256(k) >= 1,
    decreases k,
{
    if k > 0 {
        lemma_pow256_positive((k - 1) as nat);
    }
}

/// Appends `bytes`.
fn push_bytes(out: &mut Vec<u8>, bytes: &[u8])
    ensures
        final(out)@ == old(out)@ + bytes@,
{
    let mut i: usize = 0;
    while i < bytes.len()
        invariant
            i <= bytes.len(),
            out@ == old(out)@ + bytes@.take(i as int),
        decreases bytes.len() - i,
    {
        out.push(bytes[i]);
        assert(bytes@.take(i + 1) =~= bytes@.take(i as int).push(bytes@[i as int]));
        i = i + 1;
    }
    assert(bytes@.take(bytes.len() as int) =~= bytes@);
}

/// The digest input of rows in the given order.
fn frame_rows(rows: &Vec<String>) -> (r: Vec<u8>)
    ensures
        r@ == framed(row_bytes(rows@)),
{
    let mut out: Vec<u8> = Vec::new();
    let mut i: usize = 0;
    assert(row_bytes(rows@).take(0) =~= Seq::<Seq<u8>>::empty());
    while i < rows.len()
        invariant
            i <= rows.len(),
            out@ == framed(row_bytes(rows@).take(i as int)),
        decreases rows.len() - i,
    {
        let bytes = rows[i].as_str().as_bytes();
        push_be8(&mut out, bytes.len() as u64);
        push_bytes(&mut out, bytes);
        proof {
            let rb = row_bytes(rows@);
            assert(rb.take(i + 1).drop_last() =~= rb.take(i as int));
            assert(rb.take(i + 1).last() == bytes@);
            assert(out@ =~= framed(rb.take(i + 1)));
        }
        i = i + 1;
    }
    assert(row_bytes(rows@).take(rows.len() as int) =~= row_bytes(rows@));
    out
}

/// Appends the hexadecimal rendering of `bytes`.
fn push_hex_bytes(out: &mut String, bytes: &Vec<u8>)
    ensures
        final(out)@ == old(out)@ + hex_bytes(bytes@),
{
    let mut i: usize = 0;
    assert(bytes@.take(0) =~= Seq::<u8>::empty());
    while i < bytes.len()
        invariant
            i <= bytes.len(),
            out@ == old(out)@ + hex_bytes(bytes@.take(i as int)),
        decreases bytes.len() - i,
    {
        push_hex_fixed(out, bytes[i] as u64, 2);
        proof {
            assert(bytes@.take(i + 1).drop_last() =~= bytes@.take(i as int));
            assert(out@ =~= old(out)@ + hex_bytes(bytes@.take(i + 1)));
        }
        i = i + 1;
    }
    assert(bytes@.take(bytes.len() as int) =~= bytes@);
}

/// Fingerprints a catalog snapshot: the result does not depend on the
/// order in which the catalog query returned its rows.
pub fn fingerprint(catalog_rows: Vec<String>) -> (r: String)
    ensures
        r@ == fingerprint_text(catalog_rows@),
        r@.len() == 64,
        forall|i: int| 0 <= i < 64 ==> is_lower_hex(#[trigger] r@[i]),
{
    let sorted = sort_rows(catalog_rows);
    let input = frame_rows(&sorted);
    let digest = sha256(input.as_slice());
    let mut out = String::new();
    push_hex_bytes(&mut out, &digest);
    assert(out@ =~= fingerprint_text(catalog_rows@));
    proof {
        lemma_hex_bytes(digest@);
    }
    out
}

/// Two catalog snapshots holding the same rows, in any order, have the same
/// fingerprint.
pub proof fn law_fingerprint_ignores_row_order(a: Seq<String>, b: Seq<String>)
    requires
        row_bytes(a).to_multiset() == row_bytes(b).to_multiset(),
    ensures
        fingerprint_text(a) == fingerprint_text(b),
{
    lemma_byte_order_total();
    row_bytes(a).lemma_sort_by_ensures(byte_order());
    row_bytes(b).lemma_sort_by_ensures(byte_order());
    vstd::seq_lib::lemma_sorted_unique(
        row_bytes(a).sort_by(byte_order()),
        row_bytes(b).sort_by(byte_order()),
        byte_order(),
    );
}

/// The message of a stored catalog fingerprint that no longer matches.
pub open spec fn incompatible_text(backend: Seq<char>) -> Seq<char> {
    backend
        + " incompatible pre-release schema: the generation-1 catalog definition changed; back up and recreate the development database"@
}

/// The error reported when the catalog of an existing generation changed.
pub fn incompatible(backend: &str) -> (r: PersistenceError)
    ensures
        r matches PersistenceError::Commit(m) && m@ == incompatible_text(backend@),
{
    let mut m = String::new();
    m.append(backend);
    m.append(
        " incompatible pre-release schema: the generation-1 catalog definition changed; back up and recreate the development database",
    );
    PersistenceError::Commit(m)
}

/// An existing generation opens only while its catalog still has the
/// fingerprint recorded when it was created.
pub fn check_catalog(recorded: &str, current: &str, backend: &str) -> (r: Result<(), PersistenceError>)
    ensures
        recorded@ == current@ ==> r is Ok,
        recorded@ != current@ ==> (r matches Err(PersistenceError::Commit(m)) && m@ == incompatible_text(
            backend@,
        )),
{
    let a = crate::text::chars_of(recorded);
    let b = crate::text::chars_of(current);
    let mut same = a.len() == b.len();
    let mut i: usize = 0;
    while same && i < a.len()
        invariant
            i <= a.len(),
            a@ == recorded@,
            b@ == current@,
            same ==> a.len() == b.len() && forall|j: int| 0 <= j < i ==> a@[j] == b@[j],
            !same ==> a@ != b@,
        decreases a.len() - i,
    {
        if a[i] != b[i] {
            same = false;
        }
        i = i + 1;
    }
    if same {
        assert(a@ =~= b@);
        Ok(())
    } else {
        Err(incompatible(backend))
    }
}

/// The message naming a required table the catalog lacks: `what` is the
/// schema checked (`schema`, `spool schema`), `store` what must be recreated
/// (`database`, `spool`).
pub open spec fn missing_object_text(backend: Seq<char>, what: Seq<char>, object: Seq<char>, store: Seq<char>) -> Seq<char> {
    backend + " incompatible pre-release "@ + what + ": required object "@ + object
        + " is missing; back up and recreate the development "@ + store
}

/// `name` is among the objects found.
pub open spec fn present(found: Seq<String>, name: Seq<char>) -> bool {
    exists|j: int| 0 <= j < found.len() && #[trigger] found[j]@ == name
}

/// Every object of `required` before index `n` was found.
pub open spec fn all_present(found: Seq<String>, required: Seq<String>, n: int) -> bool {
    forall|k: int| 0 <= k < n ==> present(found, #[trigger] required[k]@)
}

fn is_present(found: &Vec<String>, name: &String) -> (r: bool)
    ensures
        r == present(found@, name@),
{
    let mut j: usize = 0;
    while j < found.len()
        invariant
            j <= found.len(),
            forall|k: int| 0 <= k < j ==> found@[k]@ != name@,
        decreases found.len() - j,
    {
        if found[j].eq(name) {
            return true;
        }
        j = j + 1;
    }
    false
}

/// An existing generation must hold every required table: the first one
/// missing, in the order required, is named.
pub fn check_required_objects(
    backend: &str,
    what: &str,
    store: &str,
    found: &Vec<String>,
    required: &Vec<String>,
) -> (r: Result<
    (),
    PersistenceError,
>)
    ensures
        all_present(found@, required@, required@.len() as int) ==> r is Ok,
        forall|i: int|
            0 <= i < required@.len() && all_present(found@, required@, i) && !present(
                found@,
                #[trigger] required@[i]@,
            ) ==> (r matches Err(PersistenceError::Commit(m)) && m@ == missing_object_text(
                backend@,
                what@,
                required@[i]@,
                store@,
            )),
{
    let mut i: usize = 0;
    while i < required.len()
        invariant
            i <= required.len(),
            all_present(found@, required@, i as int),
        decreases required.len() - i,
    {
        if !is_present(found, &required[i]) {
            let mut m = String::new();
            m.append(backend);
            m.append(" incompatible pre-release ");
            m.append(what);
            m.append(": required object ");
            m.append(required[i].as_str());
            m.append(" is missing; back up and recreate the development ");
            m.append(store);
            proof {
                assert forall|k: int|
                    0 <= k < required@.len() && all_present(found@, required@, k) && !present(
                        found@,
                        #[trigger] required@[k]@,
                    ) implies k == i by {
                    if k < i {
                        assert(present(found@, required@[k]@));
                    }
                    if k > i {
                        assert(present(found@, required@[i as int]@));
                    }
                }
            }
            return Err(PersistenceError::Commit(m));
        }
        i = i + 1;
    }
    Ok(())
}

/// The refusal of a stored schema generation other than the one this
/// library writes, shown as `shown`; a generation above 1 is named as newer
/// than the supported one.
pub open spec fn generation_refusal_text(backend: Seq<char>, shown: Seq<char>, newer: bool) -> Seq<char> {
    backend + " incompatible pre-release schema generation "@ + shown + if newer {
        " is newer than the supported generation 1; upgrade the runtime or"@
    } else {
        ";"@
    } + " back up and recreate the development database"@
}

fn generation_refusal(backend: &str, shown: String, newer: bool) -> (r: PersistenceError)
    ensures
        r matches PersistenceError::Commit(m) && m@ == generation_refusal_text(backend@, shown@, newer),
{
    let mut m = String::new();
    m.append(backend);
    m.append(" incompatible pre-release schema generation ");
    m.append(shown.as_str());
    if newer {
        m.append(" is newer than the supported generation 1; upgrade the runtime or");
    } else {
        m.append(";");
    }
    m.append(" back up and recreate the development database");
    PersistenceError::Commit(m)
}

/// A recorded schema generation opens only when it is generation 1; a
/// higher one is refused as newer than this library supports.
pub fn check_generation(backend: &str, version: i64) -> (r: Result<(), PersistenceError>)
    ensures
        r is Ok <==> version == 1,
        version != 1 ==> (r matches Err(PersistenceError::Commit(m)) && m@ == generation_refusal_text(
            backend@,
            signed_decimal(version as int),
            version > 1,
        )),
{
    if version == 1 {
        return Ok(());
    }
    let mut shown = String::new();
    push_signed_decimal(&mut shown, version);
    Err(generation_refusal(backend, shown, version > 1))
}

/// How an optional generation marker is shown: `Some(n)` or `None`.
pub open spec fn marker_shown(version: Option<i64>) -> Seq<char> {
    match version {
        Some(v) => "Some("@ + signed_decimal(v as int) + ")"@,
        None => "None"@,
    }
}

/// An existing schema opens only when its generation marker is present and
/// records generation 1; a marker above 1 is refused as newer than this
/// library supports.
pub fn check_marker_generation(backend: &str, version: Option<i64>) -> (r: Result<(), PersistenceError>)
    ensures
        r is Ok <==> version == Some(1i64),
        version != Some(1i64) ==> (r matches Err(PersistenceError::Commit(m)) && m@
            == generation_refusal_text(backend@, marker_shown(version), version matches Some(v) && v > 1)),
{
    let mut shown = String::new();
    let mut newer = false;
    match version {
        Some(v) => {
            if v == 1 {
                return Ok(());
            }
            shown.append("Some(");
            push_signed_decimal(&mut shown, v);
            shown.append(")");
            newer = v > 1;
        },
        None => {
            shown.append("None");
        },
    }
    Err(generation_refusal(backend, shown, newer))
}

/// Whether two texts are equal, character for character.
fn same_text(a: &str, b: &str) -> (r: bool)
    ensures
        r == (a@ == b@),
{
    let x = crate::text::chars_of(a);
    let y = crate::text::chars_of(b);
    if x.len() != y.len() {
        return false;
    }
    let mut i: usize = 0;
    while i < x.len()
        invariant
            i <= x.len(),
            x@ == a@,
            y@ == b@,
            x.len() == y.len(),
            forall|j: int| 0 <= j < i ==> x@[j] == y@[j],
        decreases x.len() - i,
    {
        if x[i] != y[i] {
            return false;
        }
        i = i + 1;
    }
    assert(x@ =~= y@);
    true
}

/// The refusal of a store whose `what` (such as a spool schema) records a
/// generation other than 1; a generation above 1 is named as newer.
pub open spec fn store_generation_text(
    backend: Seq<char>,
    what: Seq<char>,
    shown: Seq<char>,
    newer: bool,
    store: Seq<char>,
) -> Seq<char> {
    backend + " incompatible pre-release "@ + what + " generation "@ + shown + if newer {
        " is newer than the supported generation 1; upgrade the runtime or"@
    } else {
        ";"@
    } + " back up and recreate the development "@ + store
}

/// A store's recorded generation opens only when it is generation 1; a
/// higher one is refused as newer than this library supports.
pub fn check_store_generation(backend: &str, what: &str, store: &str, version: i64) -> (r: Result<
    (),
    PersistenceError,
>)
    ensures
        r is Ok <==> version == 1,
        version != 1 ==> (r matches Err(PersistenceError::Commit(m)) && m@ == store_generation_text(
            backend@,
            what@,
            signed_decimal(version as int),
            version > 1,
            store@,
        )),
{
    if version == 1 {
        return Ok(());
    }
    let mut m = String::new();
    m.append(backend);
    m.append(" incompatible pre-release ");
    m.append(what);
    m.append(" generation ");
    push_signed_decimal(&mut m, version);
    if version > 1 {
        m.append(" is newer than the supported generation 1; upgrade the runtime or");
    } else {
        m.append(";");
    }
    m.append(" back up and recreate the development ");
    m.append(store);
    Err(PersistenceError::Commit(m))
}

/// The refusal of a store whose recorded catalog fingerprint no longer
/// matches its catalog.
pub open spec fn store_catalog_text(backend: Seq<char>, what: Seq<char>, store: Seq<char>) -> Seq<char> {
    backend + " incompatible pre-release "@ + what
        + ": the generation-1 catalog definition changed; back up and recreate the development "@ + store
}

/// A store's existing generation opens only while its catalog still has the
/// fingerprint recorded when it was created.
pub fn check_store_catalog(recorded: &str, current: &str, backend: &str, what: &str, store: &str) -> (r:
    Result<(), PersistenceError>)
    ensures
        recorded@ == current@ ==> r is Ok,
        recorded@ != current@ ==> (r matches Err(PersistenceError::Commit(m)) && m@ == store_catalog_text(
            backend@,
            what@,
            store@,
        )),
{
    if same_text(recorded, current) {
        return Ok(());
    }
    let mut m = String::new();
    m.append(backend);
    m.append(" incompatible pre-release ");
    m.append(what);
    m.append(": the generation-1 catalog definition changed; back up and recreate the development ");
    m.append(store);
    Err(PersistenceError::Commit(m))
}

} // verus!
