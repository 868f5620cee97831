//! Registration requests: the wildcard, a fingerprint, or a product name.
use vstd::prelude::*;
use crate::error::SessionError;

verus! {

/// A classified registration request.
#[derive(Debug)]
pub enum Request {
    /// The empty request: every device.
    Wildcard,
    /// A device named by its fingerprint.
    Fingerprint(u64),
    /// A device named by its product string.
    Name(String),
}

/// The mathematical model of a [`Request`].
pub enum RequestView {
    Wildcard,
    Fingerprint(u64),
    Name(Seq<char>),
}

impl View for Request {
    type V = RequestView;

    open spec fn view(&self) -> RequestView {
        match self {
            Request::Wildcard => RequestView::Wildcard,
            Request::Fingerprint(h) => RequestView::Fingerprint(*h),
            Request::Name(n) => RequestView::Name(n@),
        }
    }
}

/// Whether `c` is one of `0-9`, `a-f`, `A-F`.
pub open spec fn is_hex_digit(c: char) -> bool {
    let v = c as u32;
    (48 <= v <= 57) || (97 <= v <= 102) || (65 <= v <= 70)
}

/// The value of a hexadecimal digit (0 for any other character).
pub open spec fn hex_digit_value(c: char) -> nat {
    let v = c as u32;
    if 48 <= v <= 57 {
        (v - 48) as nat
    } else if 97 <= v <= 102 {
        (v - 87) as nat
    } else if 65 <= v <= 70 {
        (v - 55) as nat
    } else {
        0
    }
}

/// The value of a string of hexadecimal digits, most significant first.
pub open spec fn hex_value(s: Seq<char>) -> nat
    decreases s.len(),
{
    if s.len() == 0 {
        0
    } else {
        hex_value(s.drop_last()) * 16 + hex_digit_value(s.last())
    }
}

/// Whether `s` starts with `0x` or `0X`.
pub open spec fn has_hex_prefix(s: Seq<char>) -> bool {
    s.len() >= 2 && s[0] == '0' && (s[1] == 'x' || s[1] == 'X')
}

/// Whether `d` is a non-empty string of hexadecimal digits whose value fits in 64 bits.
pub open spec fn is_hex_u64(d: Seq<char>) -> bool {
    &&& d.len() > 0
    &&& forall|i: int| 0 <= i < d.len() ==> is_hex_digit(#[trigger] d[i])
    &&& hex_value(d) < 0x1_0000_0000_0000_0000
}

/// The fingerprint that `s` names: `0x` or `0X` followed by a 64-bit hexadecimal number.
pub open spec fn fingerprint_of_request(s: Seq<char>) -> Option<u64> {
    if has_hex_prefix(s) && is_hex_u64(s.skip(2)) {
        Some(hex_value(s.skip(2)) as u64)
    } else {
        None
    }
}

/// The class of a request string; `None` when it has the hex prefix but is malformed.
pub open spec fn classify_spec(s: Seq<char>) -> Option<RequestView> {
    if s.len() == 0 {
        Some(RequestView::Wildcard)
    } else if has_hex_prefix(s) {
        match fingerprint_of_request(s) {
            Some(h) => Some(RequestView::Fingerprint(h)),
            None => None,
        }
    } else {
        Some(RequestView::Name(s))
    }
}

/// Whether `s` holds a NUL character.
pub open spec fn has_nul(s: Seq<char>) -> bool {
    exists|i: int| 0 <= i < s.len() && s[i] == '\0'
}

/// Whether a classified request may be handed to the driver: a name must hold no NUL.
pub open spec fn driver_accepts(q: RequestView) -> bool {
    match q {
        RequestView::Name(n) => !has_nul(n),
        _ => true,
    }
}

/// Whether `s` holds a NUL character.
pub fn contains_nul(s: &str) -> (r: bool)
    ensures
        r == has_nul(s@),
{
    let n = s.unicode_len();
    let mut i: usize = 0;
    while i < n
        invariant
            i <= n,
            n == s@.len(),
            forall|j: int| 0 <= j < i ==> s@[j] != '\0',
        decreases n - i,
    {
        if s.get_char(i) == '\0' {
            return true;
        }
        i = i + 1;
    }
    false
}

/// A prefix of a digit string is worth no more than the whole string.
pub proof fn lemma_hex_value_prefix(s: Seq<char>, k: int)
    requires
        0 <= k <= s.len(),
    ensures
        hex_value(s.subrange(0, k)) <= hex_value(s),
    decreases s.len(),
{
    if k < s.len() {
        lemma_hex_value_prefix(s.drop_last(), k);
        assert(s.drop_last().subrange(0, k) =~= s.subrange(0, k));
        let p = hex_value(s.drop_last());
        assert(p <= p * 16) by (nonlinear_arith);
    } else {
        assert(s.subrange(0, k) =~= s);
    }
}

/// The value of a hexadecimal digit character.
fn hex_digit(c: char) -> (r: Option<u64>)
    ensures
        r is Some <==> is_hex_digit(c),
        r is Some ==> r->0 == hex_digit_value(c),
{
    let v = c as u32;
    if 48 <= v && v <= 57 {
        Some((v - 48) as u64)
    } else if 97 <= v && v <= 102 {
        Some((v - 87) as u64)
    } else if 65 <= v && v <= 70 {
        Some((v - 55) as u64)
    } else {
        None
    }
}

/// Whether `input` starts with `0x` or `0X`.
pub fn hex_prefix(input: &str) -> (r: bool)
    ensures
        r == has_hex_prefix(input@),
{
    let n = input.unicode_len();
    if n < 2 {
        return false;
    }
    let c0 = input.get_char(0);
    let c1 = input.get_char(1);
    c0 == '0' && (c1 == 'x' || c1 == 'X')
}

/// The fingerprint named by `input`: `0x` or `0X` followed by hexadecimal digits whose
/// value fits in 64 bits. Any other string names none.
pub fn parse_register_request(input: &str) -> (r: Option<u64>)
    ensures
        r == fingerprint_of_request(input@),
{
    if !hex_prefix(input) {
        return None;
    }
    let n = input.unicode_len();
    let ghost s = input@;
    let ghost d = s.skip(2);
    if n == 2 {
        return None;
    }
    let mut acc: u64 = 0;
    let mut i: usize = 2;
    while i < n
        invariant
            2 <= i <= n,
            n == s.len(),
            s == input@,
            d == s.skip(2),
            forall|j: int| 0 <= j < i - 2 ==> is_hex_digit(#[trigger] d[j]),
            acc as nat == hex_value(d.subrange(0, i - 2)),
        decreases n - i,
    {
        let c = input.get_char(i);
        assert(c == d[i - 2]);
        let dig = hex_digit(c);
        if dig.is_none() {
            return None;
        }
        let v = dig.unwrap();
        assert(d.subrange(0, i - 1).drop_last() =~= d.subrange(0, i - 2));
        if acc > 0x0FFF_FFFF_FFFF_FFFF {
            proof {
                lemma_hex_value_prefix(d, i - 1);
            }
            return None;
        }
        acc = acc * 16 + v;
        i = i + 1;
    }
    assert(d.subrange(0, n - 2) =~= d);
    Some(acc)
}

/// Classifies a registration request: the empty string is the wildcard, `0x` or `0X`
/// followed by hexadecimal digits a fingerprint, anything else a product name. A string
/// with the prefix and no valid 64-bit number after it is malformed, never a name.
pub fn classify(input: &str) -> (r: Result<Request, SessionError>)
    ensures
        match r {
            Ok(q) => classify_spec(input@) == Some(q@),
            Err(e) => classify_spec(input@) is None && e == SessionError::MalformedFingerprintRequest,
        },
{
    if input.unicode_len() == 0 {
        Ok(Request::Wildcard)
    } else if hex_prefix(input) {
        match parse_register_request(input) {
            Some(h) => Ok(Request::Fingerprint(h)),
            None => Err(SessionError::MalformedFingerprintRequest),
        }
    } else {
        Ok(Request::Name(input.to_owned()))
    }
}

} // verus!
