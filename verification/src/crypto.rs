use vstd::prelude::*;

verus! {

/// The lowercase hex character for a value below sixteen.
pub open spec fn spec_hex_char(d: int) -> char {
    if d == 0 {
        '0'
    } else if d == 1 {
        '1'
    } else if d == 2 {
        '2'
    } else if d == 3 {
        '3'
    } else if d == 4 {
        '4'
    } else if d == 5 {
        '5'
    } else if d == 6 {
        '6'
    } else if d == 7 {
        '7'
    } else if d == 8 {
        '8'
    } else if d == 9 {
        '9'
    } else if d == 10 {
        'a'
    } else if d == 11 {
        'b'
    } else if d == 12 {
        'c'
    } else if d == 13 {
        'd'
    } else if d == 14 {
        'e'
    } else {
        'f'
    }
}

/// Lowercase hex encoding of a byte sequence: two characters per byte,
/// high nibble first.
pub open spec fn spec_hex_lower(bytes: Seq<u8>) -> Seq<char>
    decreases bytes.len(),
{
    if bytes.len() == 0 {
        Seq::empty()
    } else {
        spec_hex_lower(bytes.drop_last()) + seq![
            spec_hex_char(bytes.last() as int / 16),
            spec_hex_char(bytes.last() as int % 16),
        ]
    }
}

/// A character of the lowercase hex alphabet: a decimal digit or one of
/// `a` through `f`.
pub open spec fn is_lower_hex_char(c: char) -> bool {
    (48 <= c as int && c as int <= 57) || (97 <= c as int && c as int <= 102)
}

pub proof fn lemma_hex_lower_len(bytes: Seq<u8>)
    ensures
        spec_hex_lower(bytes).len() == 2 * bytes.len(),
    decreases bytes.len(),
{
    if bytes.len() > 0 {
        lemma_hex_lower_len(bytes.drop_last());
    }
}

pub proof fn lemma_hex_lower_chars(bytes: Seq<u8>)
    ensures
        forall|i: int|
            0 <= i < spec_hex_lower(bytes).len() ==> is_lower_hex_char(
                #[trigger] spec_hex_lower(bytes)[i],
            ),
    decreases bytes.len(),
{
    if bytes.len() > 0 {
        lemma_hex_lower_chars(bytes.drop_last());
        lemma_hex_lower_len(bytes.drop_last());
        assert(is_lower_hex_char(spec_hex_char(bytes.last() as int / 16)));
        assert(is_lower_hex_char(spec_hex_char(bytes.last() as int % 16)));
    }
}

/// The HMAC-SHA256 tag over a key and a message, both given as text and
/// authenticated over their UTF-8 bytes. The tag is a function of the two
/// arguments alone; its bytes are named rather than written out.
pub uninterp spec fn hmac_sha256_of(key: Seq<char>, msg: Seq<char>) -> Seq<u8>;

/// Relies on `hmac::Hmac<sha2::Sha256>`: `new_from_slice` accepts a key of
/// any length, and the finalized MAC is a 32-byte function of the key
/// bytes and the message bytes alone.
#[verifier::external_body]
pub(crate) fn hmac_sha256(key: &str, msg: &str) -> (r: Vec<u8>)
    ensures
        r@ == hmac_sha256_of(key@, msg@),
        r@.len() == 32,
{
    let mut mac = <hmac::Hmac<sha2::Sha256> as hmac::KeyInit>::new_from_slice(key.as_bytes())
        .expect("HMAC accepts keys of any length");
    hmac::Mac::update(&mut mac, msg.as_bytes());
    hmac::Mac::finalize(mac).into_bytes().to_vec()
}

/// Relies on `hex::encode`: lowercase hex, two digits per byte, high
/// nibble first.
#[verifier::external_body]
pub(crate) fn hex_lower(bytes: &Vec<u8>) -> (r: String)
    ensures
        r@ == spec_hex_lower(bytes@),
{
    hex::encode(bytes)
}

/// The signature attached to a private request: the lowercase hex form of
/// the HMAC-SHA256 tag computed with the secret key over the query text.
pub open spec fn spec_signature(secret: Seq<char>, query: Seq<char>) -> Seq<char> {
    spec_hex_lower(hmac_sha256_of(secret, query))
}

/// Computes the request signature over an already serialized query.
pub fn signature_hex(secret: &str, query: &str) -> (r: String)
    ensures
        r@ == spec_signature(secret@, query@),
        r@.len() == 64,
        forall|i: int| 0 <= i < r@.len() ==> is_lower_hex_char(#[trigger] r@[i]),
{
    let mac = hmac_sha256(secret, query);
    let r = hex_lower(&mac);
    proof {
        lemma_hex_lower_len(mac@);
        lemma_hex_lower_chars(mac@);
    }
    r
}

/// Signing is deterministic: two signatures computed over the same secret
/// key and the same query text are equal.
pub proof fn lemma_signature_deterministic(
    secret: Seq<char>,
    query: Seq<char>,
    r1: Seq<char>,
    r2: Seq<char>,
)
    requires
        r1 == spec_signature(secret, query),
        r2 == spec_signature(secret, query),
    ensures
        r1 == r2,
{
}

} // verus!
