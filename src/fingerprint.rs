//! FNV-1a fingerprints of device identities.
use vstd::prelude::*;
use vstd::utf8::{encode_utf8, encode_utf8_decode_utf8};

verus! {

/// The 64-bit FNV offset basis.
pub const FNV_OFFSET: u64 = 14695981039346656037;

/// The 64-bit FNV prime.
pub const FNV_PRIME: u64 = 1099511628211;

/// One FNV-1a round: xor the byte in, then multiply by the prime (wrapping).
pub open spec fn fnv_step(h: u64, b: u8) -> u64 {
    (h ^ (b as u64)).wrapping_mul(FNV_PRIME)
}

/// FNV-1a of `bytes`, continuing from the running hash `h`.
pub open spec fn fnv_from(h: u64, bytes: Seq<u8>) -> u64
    decreases bytes.len(),
{
    if bytes.len() == 0 {
        h
    } else {
        fnv_step(fnv_from(h, bytes.drop_last()), bytes.last())
    }
}

/// FNV-1a of `bytes`, seeded with the offset basis.
pub open spec fn fnv1a(bytes: Seq<u8>) -> u64 {
    fnv_from(FNV_OFFSET, bytes)
}

/// The ASCII decimal digits of `n`, most significant first, without leading zeros.
pub open spec fn decimal(n: nat) -> Seq<u8>
    decreases n,
{
    if n < 10 {
        seq![(48 + n) as u8]
    } else {
        decimal(n / 10).push((48 + n % 10) as u8)
    }
}

/// The canonical key `"{vendor_id}:{product_id}:{product_name}"` as UTF-8 bytes.
pub open spec fn device_key(vendor_id: u32, product_id: u32, product_name: Seq<char>) -> Seq<u8> {
    decimal(vendor_id as nat) + seq![58u8] + decimal(product_id as nat) + seq![58u8]
        + encode_utf8(product_name)
}

/// The fingerprint of a device: FNV-1a of its canonical key.
pub open spec fn device_fingerprint(vendor_id: u32, product_id: u32, product_name: Seq<char>) -> u64 {
    fnv1a(device_key(vendor_id, product_id, product_name))
}

/// Decimal digits are ASCII digits; numbers from ten up have at least two.
pub proof fn lemma_decimal_digits(n: nat)
    ensures
        decimal(n).len() >= 1,
        n >= 10 ==> decimal(n).len() >= 2,
        forall|i: int| 0 <= i < decimal(n).len() ==> 48 <= #[trigger] decimal(n)[i] <= 57,
    decreases n,
{
    if n >= 10 {
        lemma_decimal_digits(n / 10);
    }
}

/// Different numbers have different decimal forms.
pub proof fn lemma_decimal_injective(a: nat, b: nat)
    requires
        decimal(a) == decimal(b),
    ensures
        a == b,
    decreases a,
{
    lemma_decimal_digits(a);
    lemma_decimal_digits(b);
    if a >= 10 && b >= 10 {
        assert(decimal(a).drop_last() =~= decimal(a / 10));
        assert(decimal(b).drop_last() =~= decimal(b / 10));
        lemma_decimal_injective(a / 10, b / 10);
        assert(decimal(a).last() == (48 + a % 10) as u8);
        assert(decimal(b).last() == (48 + b % 10) as u8);
        assert(a % 10 == b % 10);
        assert(a == b) by (nonlinear_arith)
            requires
                a / 10 == b / 10,
                a % 10 == b % 10,
        ;
    } else if a < 10 && b < 10 {
        assert(decimal(a)[0] == (48 + a) as u8);
        assert(decimal(b)[0] == (48 + b) as u8);
    } else {
        assert(decimal(a).len() != decimal(b).len());
    }
}

/// A run of digits ended by a colon is told apart at the first colon.
proof fn lemma_split_at_colon(a1: nat, r1: Seq<u8>, a2: nat, r2: Seq<u8>)
    requires
        decimal(a1) + seq![58u8] + r1 == decimal(a2) + seq![58u8] + r2,
    ensures
        a1 == a2,
        r1 == r2,
{
    let d1 = decimal(a1);
    let d2 = decimal(a2);
    let x = d1 + seq![58u8] + r1;
    lemma_decimal_digits(a1);
    lemma_decimal_digits(a2);
    if d1.len() < d2.len() {
        assert(x[d1.len() as int] == 58u8);
        assert(x[d1.len() as int] == d2[d1.len() as int]);
    } else if d2.len() < d1.len() {
        assert(x[d2.len() as int] == 58u8);
        assert(x[d2.len() as int] == d1[d2.len() as int]);
    }
    assert(d1 =~= x.subrange(0, d1.len() as int));
    assert(d2 =~= x.subrange(0, d2.len() as int));
    lemma_decimal_injective(a1, a2);
    assert(r1 =~= x.subrange(d1.len() as int + 1, x.len() as int));
    assert(r2 =~= x.subrange(d2.len() as int + 1, x.len() as int));
}

/// A fingerprint is a function of the vendor id, the product id and the product name
/// alone, and it is taken over a canonical key that differs between any two devices
/// that differ in one of those fields.
pub proof fn lemma_fingerprint_determined(
    va: u32,
    pa: u32,
    na: Seq<char>,
    vb: u32,
    pb: u32,
    nb: Seq<char>,
)
    ensures
        (va == vb && pa == pb && na == nb) ==> device_fingerprint(va, pa, na)
            == device_fingerprint(vb, pb, nb),
        !(va == vb && pa == pb && na == nb) ==> device_key(va, pa, na) != device_key(vb, pb, nb),
{
    if device_key(va, pa, na) == device_key(vb, pb, nb) {
        let ta = decimal(pa as nat) + seq![58u8] + encode_utf8(na);
        let tb = decimal(pb as nat) + seq![58u8] + encode_utf8(nb);
        assert(device_key(va, pa, na) =~= decimal(va as nat) + seq![58u8] + ta);
        assert(device_key(vb, pb, nb) =~= decimal(vb as nat) + seq![58u8] + tb);
        lemma_split_at_colon(va as nat, ta, vb as nat, tb);
        lemma_split_at_colon(pa as nat, encode_utf8(na), pb as nat, encode_utf8(nb));
        encode_utf8_decode_utf8(na);
        encode_utf8_decode_utf8(nb);
    }
}

/// Continues the running hash `h` over `bytes`.
fn fnv_extend(h: u64, bytes: &[u8]) -> (r: u64)
    ensures
        r == fnv_from(h, bytes@),
{
    let mut hash: u64 = h;
    let mut i: usize = 0;
    while i < bytes.len()
        invariant
            i <= bytes@.len(),
            hash == fnv_from(h, bytes@.subrange(0, i as int)),
        decreases bytes@.len() - i,
    {
        assert(bytes@.subrange(0, i as int + 1).drop_last() =~= bytes@.subrange(0, i as int));
        hash = (hash ^ (bytes[i] as u64)).wrapping_mul(FNV_PRIME);
        i = i + 1;
    }
    assert(bytes@.subrange(0, i as int) =~= bytes@);
    hash
}

/// FNV-1a (64-bit) of the UTF-8 bytes of `data`.
pub fn fnv1a_64(data: &str) -> (r: u64)
    ensures
        r == fnv1a(encode_utf8(data@)),
{
    fnv_extend(FNV_OFFSET, data.as_bytes())
}

/// Appends the decimal digits of `n` to `out`.
fn push_decimal(out: &mut Vec<u8>, n: u32)
    ensures
        final(out)@ == old(out)@ + decimal(n as nat),
    decreases n,
{
    if n >= 10 {
        push_decimal(out, n / 10);
    }
    out.push((n % 10) as u8 + 48);
    assert(final(out)@ =~= old(out)@ + decimal(n as nat));
}

/// The canonical key of a device, as bytes.
pub fn device_key_bytes(vendor_id: u32, product_id: u32, product_name: &str) -> (r: Vec<u8>)
    ensures
        r@ == device_key(vendor_id, product_id, product_name@),
{
    let mut key: Vec<u8> = Vec::new();
    push_decimal(&mut key, vendor_id);
    key.push(58u8);
    push_decimal(&mut key, product_id);
    key.push(58u8);
    let name = product_name.as_bytes();
    let mut i: usize = 0;
    let ghost prefix = key@;
    while i < name.len()
        invariant
            i <= name@.len(),
            key@ == prefix + name@.subrange(0, i as int),
        decreases name@.len() - i,
    {
        key.push(name[i]);
        assert(key@ =~= prefix + name@.subrange(0, i as int + 1));
        i = i + 1;
    }
    assert(key@ =~= device_key(vendor_id, product_id, product_name@));
    key
}

/// The fingerprint of the device with these ids and product name.
pub fn fingerprint(vendor_id: u32, product_id: u32, product_name: &str) -> (r: u64)
    ensures
        r == device_fingerprint(vendor_id, product_id, product_name@),
{
    let key = device_key_bytes(vendor_id, product_id, product_name);
    fnv_extend(FNV_OFFSET, key.as_slice())
}

} // verus!
