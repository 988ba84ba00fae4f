//! Signature derivation for signed requests: serializing an ordered parameter
//! list to a canonical query string, HMAC-SHA256 over its UTF-8 bytes, and
//! lowercase hexadecimal encoding of the digest.

use vstd::prelude::*;
use crate::text::strip_trailing;
use crate::text::trim_end_char;

verus! {

/// The view of an ordered parameter list: each pair of string slices as a
/// pair of character sequences.
pub open spec fn params_view(ps: Seq<(&str, &str)>) -> Seq<(Seq<char>, Seq<char>)> {
    ps.map_values(|p: (&str, &str)| (p.0@, p.1@))
}

/// The raw serialization of an ordered parameter list: `key=value&` for each
/// pair, in order, including the trailing `&` after the last pair.
pub open spec fn query_string_raw(ps: Seq<(Seq<char>, Seq<char>)>) -> Seq<char>
    decreases ps.len(),
{
    if ps.len() == 0 {
        Seq::empty()
    } else {
        query_string_raw(ps.drop_last()) + ps.last().0 + seq!['='] + ps.last().1 + seq!['&']
    }
}

/// The exact byte-for-byte payload that is signed: the raw query string with
/// trailing `&` characters removed.
pub open spec fn signed_payload(ps: Seq<(Seq<char>, Seq<char>)>) -> Seq<char> {
    strip_trailing(query_string_raw(ps), '&')
}

/// The HMAC-SHA256 digest of the UTF-8 bytes of `msg`, keyed by the UTF-8
/// bytes of `key`. Left uninterpreted: it is computed only by the remote
/// exchange's cipher suite and by `ring`, never restated here.
pub uninterp spec fn hmac_sha256_of(key: Seq<char>, msg: Seq<char>) -> Seq<u8>;

/// Relies on `ring::hmac::Key::new` and `ring::hmac::sign` with
/// `HMAC_SHA256`: the tag is a function of the key and message bytes alone,
/// and a SHA-256 based tag is 32 bytes long.
#[verifier::external_body]
fn hmac_sha256(key: &str, msg: &str) -> (r: Vec<u8>)
    ensures
        r@ == hmac_sha256_of(key@, msg@),
        r@.len() == 32,
{
    let signed_key = ring::hmac::Key::new(ring::hmac::HMAC_SHA256, key.as_bytes());
    let tag = ring::hmac::sign(&signed_key, msg.as_bytes());
    tag.as_ref().to_vec()
}

/// The lowercase hexadecimal character for a value below 16.
pub open spec fn hex_digit_char(d: nat) -> char {
    if d < 10 {
        crate::text::digit_char(d)
    } else if d == 10 {
        'a'
    } else if d == 11 {
        'b'
    } else if d == 12 {
        'c'
    } else if d == 13 {
        'd'
    } else if d == 14 {
        'e'
    } else {
        'f'
    }
}

/// Lowercase hexadecimal encoding: two digits per byte, high nibble first.
pub open spec fn hex_lower_of(bytes: Seq<u8>) -> Seq<char>
    decreases bytes.len(),
{
    if bytes.len() == 0 {
        Seq::empty()
    } else {
        hex_lower_of(bytes.drop_last())
            + seq![hex_digit_char(bytes.last() as nat / 16), hex_digit_char(bytes.last() as nat % 16)]
    }
}

/// Relies on `data_encoding::HEXLOWER.encode`: encodes each byte as two
/// lowercase hexadecimal digits, most significant nibble first.
#[verifier::external_body]
fn hex_lower_encode(bytes: &Vec<u8>) -> (r: String)
    ensures
        r@ == hex_lower_of(bytes@),
{
    data_encoding::HEXLOWER.encode(bytes.as_slice())
}

/// Relies on `querystring::stringify`: folds the pairs in order into
/// `key=value&` segments with no escaping.
#[verifier::external_body]
fn stringify_params(ps: &Vec<(&str, &str)>) -> (r: String)
    ensures
        r@ == query_string_raw(params_view(ps@)),
{
    querystring::stringify(ps.clone())
}

/// The signature attached to a signed request: lowercase hex of the
/// HMAC-SHA256 digest of the signed payload, keyed by the API secret.
pub open spec fn signature_of(secret: Seq<char>, ps: Seq<(Seq<char>, Seq<char>)>) -> Seq<char> {
    hex_lower_of(hmac_sha256_of(secret, signed_payload(ps)))
}

/// Computes the signature for `params` under `secret`, exactly as
/// `signature_of` states it.
pub fn compute_signature(secret: &str, params: &Vec<(&str, &str)>) -> (r: String)
    ensures
        r@ == signature_of(secret@, params_view(params@)),
{
    let raw = stringify_params(params);
    let payload = trim_end_char(raw.as_str(), '&');
    let digest = hmac_sha256(secret, payload.as_str());
    hex_lower_encode(&digest)
}

/// No serialization metacharacter (`&` between pairs, `=` between key and
/// value) occurs in `s`. Every name and value this client transmits —
/// `timestamp` digits, `recvWindow`, a market symbol — is of this shape.
pub open spec fn separator_free(s: Seq<char>) -> bool {
    forall|i: int| 0 <= i < s.len() ==> s[i] != '&' && s[i] != '='
}

/// Every key and value of the parameter list is free of serialization
/// metacharacters.
pub open spec fn params_separator_free(ps: Seq<(Seq<char>, Seq<char>)>) -> bool {
    forall|i: int| 0 <= i < ps.len() ==> separator_free(#[trigger] ps[i].0) && separator_free(
        ps[i].1,
    )
}

/// The serialized segment one pair contributes.
spec fn segment(p: (Seq<char>, Seq<char>)) -> Seq<char> {
    p.0 + seq!['='] + p.1 + seq!['&']
}

proof fn lemma_segment_shape(p: (Seq<char>, Seq<char>))
    requires
        separator_free(p.0),
        separator_free(p.1),
    ensures
        segment(p).len() == p.0.len() + p.1.len() + 2,
        segment(p).last() == '&',
        forall|j: int| 0 <= j < segment(p).len() - 1 ==> segment(p)[j] != '&',
        forall|j: int|
            0 <= j < segment(p).len() - 1 ==> ((segment(p)[j] == '=') <==> j == p.0.len()),
{
    let seg = segment(p);
    assert forall|j: int| 0 <= j < seg.len() - 1 implies seg[j] != '&' && ((seg[j] == '=') <==> j
        == p.0.len()) by {
        if j < p.0.len() {
            assert(seg[j] == p.0[j]);
        } else if j == p.0.len() {
            assert(seg[j] == '=');
        } else {
            assert(seg[j] == p.1[j - p.0.len() - 1]);
        }
    }
}

proof fn lemma_qs_raw_last(ps: Seq<(Seq<char>, Seq<char>)>)
    requires
        ps.len() > 0,
    ensures
        query_string_raw(ps) == query_string_raw(ps.drop_last()) + segment(ps.last()),
        query_string_raw(ps).len() >= 2,
        query_string_raw(ps).last() == '&',
{
    assert(query_string_raw(ps) == query_string_raw(ps.drop_last()) + segment(ps.last()));
}

/// For a nonempty list of separator-free pairs, the raw serialization is the
/// signed payload with exactly one `&` restored at the end, and the payload
/// is nonempty.
proof fn lemma_payload_decomposition(ps: Seq<(Seq<char>, Seq<char>)>)
    requires
        ps.len() > 0,
        params_separator_free(ps),
    ensures
        signed_payload(ps).len() >= 1,
        query_string_raw(ps) == signed_payload(ps) + seq!['&'],
        signed_payload(ps) == query_string_raw(ps).drop_last(),
{
    let s = query_string_raw(ps);
    let seg = segment(ps.last());
    lemma_qs_raw_last(ps);
    lemma_segment_shape(ps.last());
    // The character before the final `&` lies inside the last segment and is
    // not `&`, so stripping trailing `&` characters removes exactly one.
    assert(s[s.len() - 2] == seg[seg.len() - 2]);
    assert(strip_trailing(s, '&') == strip_trailing(s.drop_last(), '&'));
    assert(s.drop_last().len() > 0 && s.drop_last().last() != '&');
    assert(strip_trailing(s.drop_last(), '&') == s.drop_last());
    assert(s =~= s.drop_last() + seq!['&']);
}

/// The raw serialization determines the parameter list: two lists of
/// separator-free pairs with the same serialization are the same list.
proof fn lemma_qs_raw_injective(ps1: Seq<(Seq<char>, Seq<char>)>, ps2: Seq<(Seq<char>, Seq<char>)>)
    requires
        params_separator_free(ps1),
        params_separator_free(ps2),
        query_string_raw(ps1) == query_string_raw(ps2),
    ensures
        ps1 == ps2,
    decreases ps1.len(),
{
    if ps1.len() == 0 {
        if ps2.len() > 0 {
            lemma_qs_raw_last(ps2);
        }
        assert(ps1 =~= ps2);
    } else if ps2.len() == 0 {
        lemma_qs_raw_last(ps1);
    } else {
        let s = query_string_raw(ps1);
        let p1 = query_string_raw(ps1.drop_last());
        let p2 = query_string_raw(ps2.drop_last());
        let seg1 = segment(ps1.last());
        let seg2 = segment(ps2.last());
        lemma_qs_raw_last(ps1);
        lemma_qs_raw_last(ps2);
        lemma_segment_shape(ps1.last());
        lemma_segment_shape(ps2.last());
        let start1 = s.len() - seg1.len();
        let start2 = s.len() - seg2.len();
        // The two last segments start at the same position: otherwise the
        // longer one would place a `&`-free character where the shorter
        // one's preceding serialization ends in `&`.
        if start1 > start2 {
            assert(p1.len() > 0);
            assert(ps1.drop_last().len() > 0) by {
                if ps1.drop_last().len() == 0 {
                    assert(p1.len() == 0);
                }
            }
            lemma_qs_raw_last(ps1.drop_last());
            assert(s[start1 - 1] == p1.last());
            assert(s[start1 - 1] == seg2[start1 - 1 - start2]);
            assert(false);
        }
        if start2 > start1 {
            assert(p2.len() > 0);
            assert(ps2.drop_last().len() > 0) by {
                if ps2.drop_last().len() == 0 {
                    assert(p2.len() == 0);
                }
            }
            lemma_qs_raw_last(ps2.drop_last());
            assert(s[start2 - 1] == p2.last());
            assert(s[start2 - 1] == seg1[start2 - 1 - start1]);
            assert(false);
        }
        assert(start1 == start2);
        assert(seg1 =~= s.subrange(start1, s.len() as int)) by {
            assert forall|j: int| 0 <= j < seg1.len() implies seg1[j] == s[start1 + j] by {}
        }
        assert(seg2 =~= s.subrange(start1, s.len() as int)) by {
            assert forall|j: int| 0 <= j < seg2.len() implies seg2[j] == s[start2 + j] by {}
        }
        // Equal segments have equal keys (the unique `=` sits at the key
        // length) and therefore equal values.
        let k1 = ps1.last().0;
        let k2 = ps2.last().0;
        if k1.len() < k2.len() {
            assert(seg1[k1.len() as int] == '=');
            assert(false);
        }
        if k2.len() < k1.len() {
            assert(seg2[k2.len() as int] == '=');
            assert(false);
        }
        assert(k1 =~= k2) by {
            assert forall|j: int| 0 <= j < k1.len() implies k1[j] == k2[j] by {
                assert(seg1[j] == k1[j]);
                assert(seg2[j] == k2[j]);
            }
        }
        assert(ps1.last().1 =~= ps2.last().1) by {
            assert forall|j: int| 0 <= j < ps1.last().1.len() implies ps1.last().1[j]
                == ps2.last().1[j] by {
                assert(seg1[k1.len() + 1 + j] == ps1.last().1[j]);
                assert(seg2[k2.len() + 1 + j] == ps2.last().1[j]);
            }
        }
        assert(p1 =~= p2) by {
            assert forall|j: int| 0 <= j < p1.len() implies p1[j] == p2[j] by {
                assert(p1[j] == s[j]);
                assert(p2[j] == s[j]);
            }
        }
        lemma_qs_raw_injective(ps1.drop_last(), ps2.drop_last());
        assert(ps1 =~= ps1.drop_last().push(ps1.last()));
        assert(ps2 =~= ps2.drop_last().push(ps2.last()));
    }
}

/// Changing any parameter value, or the order of the parameters, changes the
/// exact byte-for-byte payload that is signed, as long as no name or value
/// contains a serialization metacharacter — which holds of everything this
/// client transmits. (The signature itself is the HMAC of that payload;
/// distinctness of the digests themselves is a property of HMAC-SHA256, not
/// stated here.)
pub proof fn lemma_distinct_params_distinct_payload(
    ps1: Seq<(Seq<char>, Seq<char>)>,
    ps2: Seq<(Seq<char>, Seq<char>)>,
)
    requires
        params_separator_free(ps1),
        params_separator_free(ps2),
        ps1 != ps2,
    ensures
        signed_payload(ps1) != signed_payload(ps2),
{
    if signed_payload(ps1) == signed_payload(ps2) {
        if ps1.len() == 0 {
            if ps2.len() == 0 {
                assert(ps1 =~= ps2);
            } else {
                lemma_payload_decomposition(ps2);
            }
        } else if ps2.len() == 0 {
            lemma_payload_decomposition(ps1);
        } else {
            lemma_payload_decomposition(ps1);
            lemma_payload_decomposition(ps2);
            lemma_qs_raw_injective(ps1, ps2);
        }
    }
}

/// The signature is a function of the secret and the ordered parameter list
/// alone: identical inputs always yield the identical signature.
pub proof fn lemma_signature_deterministic(
    secret1: Seq<char>,
    ps1: Seq<(Seq<char>, Seq<char>)>,
    secret2: Seq<char>,
    ps2: Seq<(Seq<char>, Seq<char>)>,
)
    requires
        secret1 == secret2,
        ps1 == ps2,
    ensures
        signature_of(secret1, ps1) == signature_of(secret2, ps2),
{
}

} // verus!
