use hmac::Mac;
use vstd::prelude::*;
use crate::config::Config;
use crate::registry::FileMetadata;
use crate::decimal::{digits_value, is_digits, signed_decimal};
use crate::text::{constant_time_eq, push_char};
use crate::urlenc::{pct_encoded, push_encoded};

verus! {

/// What HMAC-SHA256 keyed with `key` gives over the UTF-8 bytes of `msg`.
pub uninterp spec fn hmac_sha256_of(key: Seq<char>, msg: Seq<char>) -> Seq<u8>;

/// Lower-case hexadecimal digits, by value.
pub open spec fn hex_digits() -> Seq<char> {
    seq!['0', '1', '2', '3', '4', '5', '6', '7', '8', '9', 'a', 'b', 'c', 'd', 'e', 'f']
}

/// Two lower-case hexadecimal digits for each byte, high nibble first.
pub open spec fn hex_of(b: Seq<u8>) -> Seq<char>
    decreases b.len(),
{
    if b.len() == 0 {
        Seq::empty()
    } else {
        hex_of(b.drop_last()) + seq![
            hex_digits()[(b.last() / 16) as int],
            hex_digits()[(b.last() % 16) as int],
        ]
    }
}

/// A lower-case hexadecimal digit.
pub open spec fn is_lower_hex(c: char) -> bool {
    ('0' <= c <= '9') || ('a' <= c <= 'f')
}

proof fn lemma_hex_of(b: Seq<u8>)
    ensures
        hex_of(b).len() == 2 * b.len(),
        forall|j: int| 0 <= j < hex_of(b).len() ==> is_lower_hex(#[trigger] hex_of(b)[j]),
    decreases b.len(),
{
    if b.len() > 0 {
        lemma_hex_of(b.drop_last());
        let p = hex_of(b.drop_last());
        let hi = (b.last() / 16) as int;
        let lo = (b.last() % 16) as int;
        lemma_hex_digit(hi);
        lemma_hex_digit(lo);
        assert forall|j: int| 0 <= j < hex_of(b).len() implies is_lower_hex(#[trigger] hex_of(b)[j]) by {
            if j < p.len() {
                assert(hex_of(b)[j] == p[j]);
            } else if j == p.len() {
                assert(hex_of(b)[j] == hex_digits()[hi]);
            } else {
                assert(hex_of(b)[j] == hex_digits()[lo]);
            }
        }
    }
}

proof fn lemma_hex_digit(k: int)
    requires
        0 <= k < 16,
    ensures
        is_lower_hex(hex_digits()[k]),
{
    let h = hex_digits();
    if k < 8 {
        if k < 4 {
            assert(k == 0 || k == 1 || k == 2 || k == 3);
        } else {
            assert(k == 4 || k == 5 || k == 6 || k == 7);
        }
    } else if k < 12 {
        assert(k == 8 || k == 9 || k == 10 || k == 11);
    } else {
        assert(k == 12 || k == 13 || k == 14 || k == 15);
    }
}

/// The signature of `msg` under `secret`: its keyed hash, hex encoded.
pub open spec fn signature_of(secret: Seq<char>, msg: Seq<char>) -> Seq<char> {
    hex_of(hmac_sha256_of(secret, msg))
}

/// Relies on hmac 0.12 with sha2's Sha256: the 32-byte tag of `data` under
/// `secret`; `new_from_slice` accepts keys of any length.
#[verifier::external_body]
fn hmac_sha256(secret: &str, data: &str) -> (r: Vec<u8>)
    ensures
        r@ == hmac_sha256_of(secret@, data@),
        r@.len() == 32,
{
    let mut mac = hmac::Hmac::<sha2::Sha256>::new_from_slice(secret.as_bytes()).unwrap();
    mac.update(data.as_bytes());
    mac.finalize().into_bytes().to_vec()
}

/// Relies on hex::encode: two lower-case digits for each byte, in order.
#[verifier::external_body]
fn hex_encode(bytes: &Vec<u8>) -> (r: String)
    ensures
        r@ == hex_of(bytes@),
{
    hex::encode(bytes)
}

/// The hex-encoded keyed hash of `data` under `secret`.
pub fn compute_hmac(data: &str, secret: &str) -> (r: String)
    ensures
        r@ == signature_of(secret@, data@),
        r@.len() == 64,
        forall|j: int| 0 <= j < r@.len() ==> is_lower_hex(#[trigger] r@[j]),
{
    let tag = hmac_sha256(secret, data);
    proof {
        lemma_hex_of(tag@);
    }
    hex_encode(&tag)
}

/// The fields of a capability, as text.
pub struct CapabilityView {
    pub version: Seq<char>,
    pub owner: Seq<char>,
    pub date: Seq<char>,
    pub expires: Seq<char>,
    pub region: Seq<char>,
    pub mode: Seq<char>,
    pub file_type: Seq<char>,
    pub id: Seq<char>,
    pub nonce: Seq<char>,
    pub signature: Seq<char>,
}

/// A signed capability: nine signed fields and their signature.
pub struct SignedUrlParams {
    pub version: String,
    pub owner: String,
    pub date: String,
    pub expires: String,
    pub region: String,
    pub mode: String,
    pub file_type: String,
    pub id: String,
    pub nonce: String,
    pub signature: String,
}

impl View for SignedUrlParams {
    type V = CapabilityView;

    open spec fn view(&self) -> CapabilityView {
        CapabilityView {
            version: self.version@,
            owner: self.owner@,
            date: self.date@,
            expires: self.expires@,
            region: self.region@,
            mode: self.mode@,
            file_type: self.file_type@,
            id: self.id@,
            nonce: self.nonce@,
            signature: self.signature@,
        }
    }
}

/// The separator of the signed fields.
pub open spec fn newline() -> Seq<char> {
    seq!['\n']
}

/// The string that is signed: the nine signed fields in order, joined by
/// newlines.
pub open spec fn canonical(c: CapabilityView) -> Seq<char> {
    c.version + newline() + c.owner + newline() + c.date + newline() + c.expires + newline()
        + c.region + newline() + c.mode + newline() + c.file_type + newline() + c.id + newline()
        + c.nonce
}

/// The capability carries the signature that `secret` gives its fields.
pub open spec fn signature_valid(c: CapabilityView, secret: Seq<char>) -> bool {
    c.signature == signature_of(secret, canonical(c))
}

/// The text of a non-negative integer in decimal, without leading zeros.
pub open spec fn decimal_text(n: nat) -> Seq<char>
    decreases n,
{
    if n < 10 {
        seq![decimal_digit(n)]
    } else {
        decimal_text(n / 10).push(decimal_digit(n % 10))
    }
}

/// The character of a decimal digit.
pub open spec fn decimal_digit(n: nat) -> char {
    hex_digits()[n as int]
}

/// The text of an integer in decimal, with a `-` when negative.
pub open spec fn i64_text(v: int) -> Seq<char> {
    if v < 0 {
        seq!['-'] + decimal_text((-v) as nat)
    } else {
        decimal_text(v as nat)
    }
}

proof fn lemma_decimal_text(n: nat)
    ensures
        is_digits(decimal_text(n)),
        digits_value(decimal_text(n)) == n,
    decreases n,
{
    let t = decimal_text(n);
    if n < 10 {
        assert(t.drop_last() =~= Seq::<char>::empty());
        assert(hex_digits()[n as int] as u32 - '0' as u32 == n);
        assert(digits_value(t) == digits_value(t.drop_last()) * 10 + ((t.last() as u32) - (
        '0' as u32)) as nat);
    } else {
        lemma_decimal_text(n / 10);
        assert(t.drop_last() == decimal_text(n / 10));
        let d = n % 10;
        assert(hex_digits()[d as int] as u32 - '0' as u32 == d);
        assert(n == (n / 10) * 10 + d);
        assert(t.last() == hex_digits()[d as int]);
        assert(digits_value(t) == digits_value(t.drop_last()) * 10 + ((t.last() as u32) - (
        '0' as u32)) as nat);
        assert forall|i: int| 0 <= i < t.len() implies crate::decimal::is_digit(#[trigger] t[i]) by {
            if i < t.len() - 1 {
                assert(t[i] == decimal_text(n / 10)[i]);
            }
        }
    }
}

/// The decimal text of an integer reads back as that integer.
pub proof fn lemma_i64_text_round_trip(v: i64)
    ensures
        signed_decimal(i64_text(v as int)) == Some(v as int),
{
    if v < 0 {
        let m = (-v) as nat;
        lemma_decimal_text(m);
        let t = i64_text(v as int);
        assert(t.drop_first() =~= decimal_text(m));
        assert(t[0] == '-');
    } else {
        lemma_decimal_text(v as nat);
        let t = decimal_text(v as nat);
        assert(t[0] != '-' && t[0] != '+') by {
            assert(crate::decimal::is_digit(t[0]));
        }
    }
}

fn push_decimal(out: &mut String, n: u64)
    ensures
        final(out)@ == old(out)@ + decimal_text(n as nat),
    decreases n,
{
    let digits = ['0', '1', '2', '3', '4', '5', '6', '7', '8', '9'];
    if n >= 10 {
        push_decimal(out, n / 10);
    }
    let d = (n % 10) as usize;
    let c = digits[d];
    assert(c == decimal_digit(d as nat));
    push_char(out, c);
    proof {
        if n < 10 {
            assert(n % 10 == n);
        }
    }
}

/// Writes an integer in decimal.
pub fn i64_to_text(v: i64) -> (r: String)
    ensures
        r@ == i64_text(v as int),
{
    let mut out = String::new();
    if v < 0 {
        push_char(&mut out, '-');
        push_decimal(&mut out, (0i128 - v as i128) as u64);
    } else {
        push_decimal(&mut out, v as u64);
    }
    out
}

fn append_line(out: &mut String, field: &str)
    ensures
        final(out)@ == old(out)@ + newline() + field@,
{
    push_char(out, '\n');
    out.append(field);
}

impl SignedUrlParams {
    /// The newline-joined signed fields.
    pub fn string_to_sign(&self) -> (r: String)
        ensures
            r@ == canonical(self@),
    {
        let mut s = String::from_str(self.version.as_str());
        append_line(&mut s, self.owner.as_str());
        append_line(&mut s, self.date.as_str());
        append_line(&mut s, self.expires.as_str());
        append_line(&mut s, self.region.as_str());
        append_line(&mut s, self.mode.as_str());
        append_line(&mut s, self.file_type.as_str());
        append_line(&mut s, self.id.as_str());
        append_line(&mut s, self.nonce.as_str());
        s
    }
}

/// Recomputes the signature over the supplied fields and compares it with
/// the supplied one in constant time.
pub fn verify_signature(params: &SignedUrlParams, config: &Config) -> (r: bool)
    ensures
        r == signature_valid(params@, config.secret_key@),
{
    let msg = params.string_to_sign();
    let expected = compute_hmac(msg.as_str(), config.secret_key.as_str());
    constant_time_eq(expected.as_str(), params.signature.as_str())
}

/// The capability minted for object `file_id` in access mode `mode`: fixed
/// version and region, the owner and mime type of the object, expiry,
/// issue date and nonce as given, signed with `secret`.
pub open spec fn issued(
    file_id: Seq<char>,
    mode: Seq<char>,
    owner: Seq<char>,
    file_type: Seq<char>,
    expires: i64,
    date: Seq<char>,
    nonce: Seq<char>,
    secret: Seq<char>,
) -> CapabilityView {
    let fields = CapabilityView {
        version: "v1"@,
        owner: owner,
        date: date,
        expires: i64_text(expires as int),
        region: "global"@,
        mode: mode,
        file_type: file_type,
        id: file_id,
        nonce: nonce,
        signature: Seq::empty(),
    };
    CapabilityView { signature: signature_of(secret, canonical(fields)), ..fields }
}

/// The capability URL: the object's path under `base`, then every field as
/// a percent-encoded query parameter.
pub open spec fn url_text(base: Seq<char>, c: CapabilityView) -> Seq<char> {
    base + "/file/"@ + pct_encoded(c.id) + "?sz-version="@ + pct_encoded(c.version)
        + "&sz-owner="@ + pct_encoded(c.owner) + "&sz-date="@ + pct_encoded(c.date)
        + "&sz-expires="@ + pct_encoded(c.expires) + "&sz-region="@ + pct_encoded(c.region)
        + "&sz-mode="@ + pct_encoded(c.mode) + "&sz-type="@ + pct_encoded(c.file_type)
        + "&sz-id="@ + pct_encoded(c.id) + "&sz-nonce="@ + pct_encoded(c.nonce)
        + "&sz-signature="@ + pct_encoded(c.signature)
}

/// Mints a signed capability for an object.
pub fn issue_capability(
    file_id: &str,
    mode: &str,
    metadata: &FileMetadata,
    config: &Config,
    expires: i64,
    date: &str,
    nonce: &str,
) -> (r: SignedUrlParams)
    ensures
        r@ == issued(
            file_id@,
            mode@,
            metadata.owner@,
            metadata.mime_type@,
            expires,
            date@,
            nonce@,
            config.secret_key@,
        ),
{
    let mut params = SignedUrlParams {
        version: String::from_str("v1"),
        owner: metadata.owner.clone(),
        date: String::from_str(date),
        expires: i64_to_text(expires),
        region: String::from_str("global"),
        mode: String::from_str(mode),
        file_type: metadata.mime_type.clone(),
        id: String::from_str(file_id),
        nonce: String::from_str(nonce),
        signature: String::new(),
    };
    let msg = params.string_to_sign();
    params.signature = compute_hmac(msg.as_str(), config.secret_key.as_str());
    params
}

/// Renders a capability as a URL under `base`.
pub fn capability_url(base: &str, c: &SignedUrlParams) -> (r: String)
    ensures
        r@ == url_text(base@, c@),
{
    let mut u = String::from_str(base);
    u.append("/file/");
    push_encoded(&mut u, c.id.as_str());
    u.append("?sz-version=");
    push_encoded(&mut u, c.version.as_str());
    u.append("&sz-owner=");
    push_encoded(&mut u, c.owner.as_str());
    u.append("&sz-date=");
    push_encoded(&mut u, c.date.as_str());
    u.append("&sz-expires=");
    push_encoded(&mut u, c.expires.as_str());
    u.append("&sz-region=");
    push_encoded(&mut u, c.region.as_str());
    u.append("&sz-mode=");
    push_encoded(&mut u, c.mode.as_str());
    u.append("&sz-type=");
    push_encoded(&mut u, c.file_type.as_str());
    u.append("&sz-id=");
    push_encoded(&mut u, c.id.as_str());
    u.append("&sz-nonce=");
    push_encoded(&mut u, c.nonce.as_str());
    u.append("&sz-signature=");
    push_encoded(&mut u, c.signature.as_str());
    u
}

/// Builds the signed URL that grants `mode` access to object `file_id`
/// until `expires`.
pub fn generate_signed_url(
    file_id: &str,
    mode: &str,
    metadata: &FileMetadata,
    config: &Config,
    expires: i64,
    date: &str,
    nonce: &str,
) -> (r: String)
    ensures
        r@ == url_text(
            config.base_url@,
            issued(
                file_id@,
                mode@,
                metadata.owner@,
                metadata.mime_type@,
                expires,
                date@,
                nonce@,
                config.secret_key@,
            ),
        ),
{
    let c = issue_capability(file_id, mode, metadata, config, expires, date, nonce);
    capability_url(config.base_url.as_str(), &c)
}

} // verus!
