use vstd::prelude::*;
use crate::capability::{
    canonical, issued, lemma_i64_text_round_trip, signature_of, signature_valid, CapabilityView,
    SignedUrlParams, verify_signature,
};
use crate::config::Config;
use crate::decimal::{parse_i64, signed_decimal};
use crate::registry::{has_id, slot, MetadataView, Registry};
use crate::sanitize::{is_viewable_mime, viewable_mime};
use crate::text::constant_time_eq;
use crate::urlenc::{form_decode, lemma_decode_encoded, pct_encoded};

verus! {

/// The query parameters of a capability.
#[derive(Clone, Copy, PartialEq, Eq, Structural, Debug)]
pub enum ParamName {
    Version,
    Owner,
    Date,
    Expires,
    Region,
    Mode,
    Type,
    Id,
    Nonce,
    Signature,
}

/// The query key of a parameter.
pub open spec fn key_text(p: ParamName) -> Seq<char> {
    match p {
        ParamName::Version => "sz-version"@,
        ParamName::Owner => "sz-owner"@,
        ParamName::Date => "sz-date"@,
        ParamName::Expires => "sz-expires"@,
        ParamName::Region => "sz-region"@,
        ParamName::Mode => "sz-mode"@,
        ParamName::Type => "sz-type"@,
        ParamName::Id => "sz-id"@,
        ParamName::Nonce => "sz-nonce"@,
        ParamName::Signature => "sz-signature"@,
    }
}

impl ParamName {
    /// The query key of this parameter.
    pub fn key(&self) -> (r: &'static str)
        ensures
            r@ == key_text(*self),
    {
        match self {
            ParamName::Version => "sz-version",
            ParamName::Owner => "sz-owner",
            ParamName::Date => "sz-date",
            ParamName::Expires => "sz-expires",
            ParamName::Region => "sz-region",
            ParamName::Mode => "sz-mode",
            ParamName::Type => "sz-type",
            ParamName::Id => "sz-id",
            ParamName::Nonce => "sz-nonce",
            ParamName::Signature => "sz-signature",
        }
    }
}

/// Why a request for an object was refused.
#[derive(Clone, Copy, PartialEq, Eq, Structural, Debug)]
pub enum AccessError {
    /// A capability parameter is absent.
    Missing(ParamName),
    /// The signature does not match the signed fields.
    InvalidSignature,
    /// The expiry is not an integer.
    InvalidExpires,
    /// The expiry has passed.
    Expired,
    /// The capability names another object.
    IdMismatch,
    /// No such object exists.
    NotFound,
}

/// The HTTP status of a refusal.
pub open spec fn status_of(e: AccessError) -> u16 {
    match e {
        AccessError::Missing(_) => 400,
        AccessError::InvalidExpires => 400,
        AccessError::InvalidSignature => 403,
        AccessError::Expired => 403,
        AccessError::IdMismatch => 403,
        AccessError::NotFound => 404,
    }
}

/// The error code reported for a refusal.
pub open spec fn code_of(e: AccessError) -> Seq<char> {
    match e {
        AccessError::Missing(p) => "missing_"@ + key_text(p),
        AccessError::InvalidSignature => "invalid_signature"@,
        AccessError::InvalidExpires => "invalid_expires"@,
        AccessError::Expired => "link_expired"@,
        AccessError::IdMismatch => "id_mismatch"@,
        AccessError::NotFound => "file_not_found"@,
    }
}

impl AccessError {
    /// The HTTP status of this refusal.
    pub fn status(&self) -> (r: u16)
        ensures
            r == status_of(*self),
    {
        match self {
            AccessError::Missing(_) => 400,
            AccessError::InvalidExpires => 400,
            AccessError::InvalidSignature => 403,
            AccessError::Expired => 403,
            AccessError::IdMismatch => 403,
            AccessError::NotFound => 404,
        }
    }

    /// The error code of this refusal.
    pub fn code(&self) -> (r: String)
        ensures
            r@ == code_of(*self),
    {
        match self {
            AccessError::Missing(p) => {
                let mut s = String::from_str("missing_");
                s.append(p.key());
                s
            },
            AccessError::InvalidSignature => String::from_str("invalid_signature"),
            AccessError::InvalidExpires => String::from_str("invalid_expires"),
            AccessError::Expired => String::from_str("link_expired"),
            AccessError::IdMismatch => String::from_str("id_mismatch"),
            AccessError::NotFound => String::from_str("file_not_found"),
        }
    }
}

/// The value of the last query pair whose key is `key`.
pub open spec fn lookup(pairs: Seq<(String, String)>, key: Seq<char>) -> Option<Seq<char>>
    decreases pairs.len(),
{
    if pairs.len() == 0 {
        None
    } else if pairs.last().0@ == key {
        Some(pairs.last().1@)
    } else {
        lookup(pairs.drop_last(), key)
    }
}

/// The value of a capability parameter in a query.
pub open spec fn field(pairs: Seq<(String, String)>, p: ParamName) -> Option<Seq<char>> {
    lookup(pairs, key_text(p))
}

/// The capability that a query carries, or the first parameter it lacks.
pub open spec fn parsed_params(pairs: Seq<(String, String)>) -> Result<CapabilityView, ParamName> {
    if field(pairs, ParamName::Version) is None {
        Err(ParamName::Version)
    } else if field(pairs, ParamName::Owner) is None {
        Err(ParamName::Owner)
    } else if field(pairs, ParamName::Date) is None {
        Err(ParamName::Date)
    } else if field(pairs, ParamName::Expires) is None {
        Err(ParamName::Expires)
    } else if field(pairs, ParamName::Region) is None {
        Err(ParamName::Region)
    } else if field(pairs, ParamName::Mode) is None {
        Err(ParamName::Mode)
    } else if field(pairs, ParamName::Type) is None {
        Err(ParamName::Type)
    } else if field(pairs, ParamName::Id) is None {
        Err(ParamName::Id)
    } else if field(pairs, ParamName::Nonce) is None {
        Err(ParamName::Nonce)
    } else if field(pairs, ParamName::Signature) is None {
        Err(ParamName::Signature)
    } else {
        Ok(
            CapabilityView {
                version: field(pairs, ParamName::Version)->0,
                owner: field(pairs, ParamName::Owner)->0,
                date: field(pairs, ParamName::Date)->0,
                expires: field(pairs, ParamName::Expires)->0,
                region: field(pairs, ParamName::Region)->0,
                mode: field(pairs, ParamName::Mode)->0,
                file_type: field(pairs, ParamName::Type)->0,
                id: field(pairs, ParamName::Id)->0,
                nonce: field(pairs, ParamName::Nonce)->0,
                signature: field(pairs, ParamName::Signature)->0,
            },
        )
    }
}

/// The expiry of a capability, when it is a 64-bit integer.
pub open spec fn expiry(c: CapabilityView) -> Option<int> {
    match signed_decimal(c.expires) {
        Some(v) => if i64::MIN <= v <= i64::MAX {
            Some(v)
        } else {
            None
        },
        None => None,
    }
}

/// The decision on a request for object `path_id`: the capability it
/// carries must be complete, correctly signed, unexpired at `now`, and
/// bound to `path_id`, checked in that order.
pub open spec fn authorization(
    path_id: Seq<char>,
    pairs: Seq<(String, String)>,
    secret: Seq<char>,
    now: i64,
) -> Result<CapabilityView, AccessError> {
    match parsed_params(pairs) {
        Err(p) => Err(AccessError::Missing(p)),
        Ok(c) => if !signature_valid(c, secret) {
            Err(AccessError::InvalidSignature)
        } else if expiry(c) is None {
            Err(AccessError::InvalidExpires)
        } else if expiry(c)->0 <= now {
            Err(AccessError::Expired)
        } else if c.id != path_id {
            Err(AccessError::IdMismatch)
        } else {
            Ok(c)
        },
    }
}

/// The value of the last query pair whose key is `key`.
fn find_param(params: &Vec<(String, String)>, key: &str) -> (r: Option<String>)
    ensures
        match r {
            Some(v) => lookup(params@, key@) == Some(v@),
            None => lookup(params@, key@) is None,
        },
{
    let mut i: usize = params.len();
    assert(params@.take(i as int) == params@);
    while i > 0
        invariant
            i <= params@.len(),
            lookup(params@, key@) == lookup(params@.take(i as int), key@),
        decreases i,
    {
        i = i - 1;
        assert(params@.take(i + 1).drop_last() == params@.take(i as int));
        assert(params@.take(i + 1).last() == params@[i as int]);
        if constant_time_eq(params[i].0.as_str(), key) {
            return Some(params[i].1.clone());
        }
    }
    None
}

fn get_param(params: &Vec<(String, String)>, p: ParamName) -> (r: Option<String>)
    ensures
        match r {
            Some(v) => field(params@, p) == Some(v@),
            None => field(params@, p) is None,
        },
{
    find_param(params, p.key())
}

/// Collects the ten capability parameters of a query.
pub fn parse_signed_params(params: &Vec<(String, String)>) -> (r: Result<SignedUrlParams, AccessError>)
    ensures
        match r {
            Ok(s) => parsed_params(params@) == Ok::<CapabilityView, ParamName>(s@),
            Err(e) => exists|p: ParamName|
                parsed_params(params@) == Err::<CapabilityView, ParamName>(p) && e
                    == AccessError::Missing(p),
        },
{
    let version = match get_param(params, ParamName::Version) {
        Some(v) => v,
        None => return Err(AccessError::Missing(ParamName::Version)),
    };
    let owner = match get_param(params, ParamName::Owner) {
        Some(v) => v,
        None => return Err(AccessError::Missing(ParamName::Owner)),
    };
    let date = match get_param(params, ParamName::Date) {
        Some(v) => v,
        None => return Err(AccessError::Missing(ParamName::Date)),
    };
    let expires = match get_param(params, ParamName::Expires) {
        Some(v) => v,
        None => return Err(AccessError::Missing(ParamName::Expires)),
    };
    let region = match get_param(params, ParamName::Region) {
        Some(v) => v,
        None => return Err(AccessError::Missing(ParamName::Region)),
    };
    let mode = match get_param(params, ParamName::Mode) {
        Some(v) => v,
        None => return Err(AccessError::Missing(ParamName::Mode)),
    };
    let file_type = match get_param(params, ParamName::Type) {
        Some(v) => v,
        None => return Err(AccessError::Missing(ParamName::Type)),
    };
    let id = match get_param(params, ParamName::Id) {
        Some(v) => v,
        None => return Err(AccessError::Missing(ParamName::Id)),
    };
    let nonce = match get_param(params, ParamName::Nonce) {
        Some(v) => v,
        None => return Err(AccessError::Missing(ParamName::Nonce)),
    };
    let signature = match get_param(params, ParamName::Signature) {
        Some(v) => v,
        None => return Err(AccessError::Missing(ParamName::Signature)),
    };
    Ok(
        SignedUrlParams {
            version,
            owner,
            date,
            expires,
            region,
            mode,
            file_type,
            id,
            nonce,
            signature,
        },
    )
}

/// Checks the capability that a request for object `path_id` carries.
pub fn authorize(
    path_id: &str,
    params: &Vec<(String, String)>,
    config: &Config,
    now: i64,
) -> (r: Result<SignedUrlParams, AccessError>)
    ensures
        match r {
            Ok(c) => authorization(path_id@, params@, config.secret_key@, now) == Ok::<
                CapabilityView,
                AccessError,
            >(c@),
            Err(e) => authorization(path_id@, params@, config.secret_key@, now) == Err::<
                CapabilityView,
                AccessError,
            >(e),
        },
{
    let c = match parse_signed_params(params) {
        Ok(c) => c,
        Err(e) => return Err(e),
    };
    if !verify_signature(&c, config) {
        return Err(AccessError::InvalidSignature);
    }
    let expires = match parse_i64(c.expires.as_str()) {
        Some(v) => v,
        None => return Err(AccessError::InvalidExpires),
    };
    if expires <= now {
        return Err(AccessError::Expired);
    }
    if !constant_time_eq(c.id.as_str(), path_id) {
        return Err(AccessError::IdMismatch);
    }
    Ok(c)
}

/// A capability verifies right after it is issued: a query that carries
/// its fields grants access to its object until its expiry, and from then on
/// is refused as expired although its signature still holds.
pub proof fn lemma_issued_round_trip(
    pairs: Seq<(String, String)>,
    file_id: Seq<char>,
    mode: Seq<char>,
    owner: Seq<char>,
    file_type: Seq<char>,
    expires: i64,
    date: Seq<char>,
    nonce: Seq<char>,
    secret: Seq<char>,
    now: i64,
)
    requires
        parsed_params(pairs) == Ok::<CapabilityView, ParamName>(
            issued(file_id, mode, owner, file_type, expires, date, nonce, secret),
        ),
    ensures
        signature_valid(issued(file_id, mode, owner, file_type, expires, date, nonce, secret), secret),
        now < expires ==> authorization(file_id, pairs, secret, now) == Ok::<
            CapabilityView,
            AccessError,
        >(issued(file_id, mode, owner, file_type, expires, date, nonce, secret)),
        now >= expires ==> authorization(file_id, pairs, secret, now) == Err::<
            CapabilityView,
            AccessError,
        >(AccessError::Expired),
{
    lemma_i64_text_round_trip(expires);
}

/// The field of a capability that a parameter carries.
pub open spec fn field_of(c: CapabilityView, p: ParamName) -> Seq<char> {
    match p {
        ParamName::Version => c.version,
        ParamName::Owner => c.owner,
        ParamName::Date => c.date,
        ParamName::Expires => c.expires,
        ParamName::Region => c.region,
        ParamName::Mode => c.mode,
        ParamName::Type => c.file_type,
        ParamName::Id => c.id,
        ParamName::Nonce => c.nonce,
        ParamName::Signature => c.signature,
    }
}

/// A capability URL verifies right after it is issued: a query that holds
/// the form-decoded values of its percent-encoded parameters grants access
/// to its object until its expiry, and from then on is refused as expired.
pub proof fn lemma_url_round_trip(
    pairs: Seq<(String, String)>,
    file_id: Seq<char>,
    mode: Seq<char>,
    owner: Seq<char>,
    file_type: Seq<char>,
    expires: i64,
    date: Seq<char>,
    nonce: Seq<char>,
    secret: Seq<char>,
    now: i64,
)
    requires
        forall|p: ParamName|
            #[trigger] field(pairs, p) == Some(
                form_decode(
                    pct_encoded(
                        field_of(
                            issued(file_id, mode, owner, file_type, expires, date, nonce, secret),
                            p,
                        ),
                    ),
                ),
            ),
    ensures
        now < expires ==> authorization(file_id, pairs, secret, now) == Ok::<
            CapabilityView,
            AccessError,
        >(issued(file_id, mode, owner, file_type, expires, date, nonce, secret)),
        now >= expires ==> authorization(file_id, pairs, secret, now) == Err::<
            CapabilityView,
            AccessError,
        >(AccessError::Expired),
{
    let c = issued(file_id, mode, owner, file_type, expires, date, nonce, secret);
    assert forall|p: ParamName| #[trigger] field(pairs, p) == Some(field_of(c, p)) by {
        lemma_decode_encoded(field_of(c, p));
    }
    assert(field(pairs, ParamName::Version) == Some(c.version));
    assert(field(pairs, ParamName::Owner) == Some(c.owner));
    assert(field(pairs, ParamName::Date) == Some(c.date));
    assert(field(pairs, ParamName::Expires) == Some(c.expires));
    assert(field(pairs, ParamName::Region) == Some(c.region));
    assert(field(pairs, ParamName::Mode) == Some(c.mode));
    assert(field(pairs, ParamName::Type) == Some(c.file_type));
    assert(field(pairs, ParamName::Id) == Some(c.id));
    assert(field(pairs, ParamName::Nonce) == Some(c.nonce));
    assert(field(pairs, ParamName::Signature) == Some(c.signature));
    assert(parsed_params(pairs) == Ok::<CapabilityView, ParamName>(c));
    lemma_issued_round_trip(pairs, file_id, mode, owner, file_type, expires, date, nonce, secret, now);
}

/// A correctly signed, unexpired capability for another object is refused
/// with 403.
pub proof fn lemma_id_binding(
    path_id: Seq<char>,
    pairs: Seq<(String, String)>,
    secret: Seq<char>,
    now: i64,
)
    requires
        parsed_params(pairs) is Ok,
        signature_valid(parsed_params(pairs)->Ok_0, secret),
        expiry(parsed_params(pairs)->Ok_0) is Some,
        now < expiry(parsed_params(pairs)->Ok_0)->0,
        parsed_params(pairs)->Ok_0.id != path_id,
    ensures
        authorization(path_id, pairs, secret, now) == Err::<CapabilityView, AccessError>(
            AccessError::IdMismatch,
        ),
        status_of(AccessError::IdMismatch) == 403,
{
}

proof fn lemma_concat_split(a: Seq<char>, b: Seq<char>, x: Seq<char>, y: Seq<char>)
    requires
        a + b == x + y,
        a.len() == x.len(),
    ensures
        a == x,
        b == y,
{
    assert(a =~= (a + b).subrange(0, a.len() as int));
    assert(x =~= (x + y).subrange(0, x.len() as int));
    assert(b =~= (a + b).subrange(a.len() as int, (a + b).len() as int));
    assert(y =~= (x + y).subrange(x.len() as int, (x + y).len() as int));
}

/// Two capabilities whose signed fields have the same lengths.
pub open spec fn same_shape(c: CapabilityView, t: CapabilityView) -> bool {
    &&& c.version.len() == t.version.len()
    &&& c.owner.len() == t.owner.len()
    &&& c.date.len() == t.date.len()
    &&& c.expires.len() == t.expires.len()
    &&& c.region.len() == t.region.len()
    &&& c.mode.len() == t.mode.len()
    &&& c.file_type.len() == t.file_type.len()
    &&& c.id.len() == t.id.len()
    &&& c.nonce.len() == t.nonce.len()
}

/// Two capabilities with the same signed fields.
pub open spec fn same_fields(c: CapabilityView, t: CapabilityView) -> bool {
    &&& c.version == t.version
    &&& c.owner == t.owner
    &&& c.date == t.date
    &&& c.expires == t.expires
    &&& c.region == t.region
    &&& c.mode == t.mode
    &&& c.file_type == t.file_type
    &&& c.id == t.id
    &&& c.nonce == t.nonce
}

/// Altering signed fields without changing their lengths (flipping one
/// character, say) changes the signed string, so the altered capability
/// passes the signature check only where the keyed hash gives two different
/// strings the same signature.
pub proof fn lemma_tamper_changes_signed_string(c: CapabilityView, t: CapabilityView, secret: Seq<char>)
    requires
        signature_valid(c, secret),
        t.signature == c.signature,
        same_shape(c, t),
        !same_fields(c, t),
    ensures
        canonical(t) != canonical(c),
        signature_valid(t, secret) ==> signature_of(secret, canonical(t)) == signature_of(
            secret,
            canonical(c),
        ),
{
    if canonical(t) == canonical(c) {
        let nl = crate::capability::newline();
        let c1 = c.version + nl + c.owner + nl + c.date + nl + c.expires + nl + c.region + nl
            + c.mode + nl + c.file_type + nl + c.id + nl;
        let t1 = t.version + nl + t.owner + nl + t.date + nl + t.expires + nl + t.region + nl
            + t.mode + nl + t.file_type + nl + t.id + nl;
        lemma_concat_split(c1, c.nonce, t1, t.nonce);
        let c2 = c.version + nl + c.owner + nl + c.date + nl + c.expires + nl + c.region + nl
            + c.mode + nl + c.file_type + nl;
        let t2 = t.version + nl + t.owner + nl + t.date + nl + t.expires + nl + t.region + nl
            + t.mode + nl + t.file_type + nl;
        lemma_concat_split(c2 + c.id, nl, t2 + t.id, nl);
        lemma_concat_split(c2, c.id, t2, t.id);
        let c3 = c.version + nl + c.owner + nl + c.date + nl + c.expires + nl + c.region + nl
            + c.mode + nl;
        let t3 = t.version + nl + t.owner + nl + t.date + nl + t.expires + nl + t.region + nl
            + t.mode + nl;
        lemma_concat_split(c3 + c.file_type, nl, t3 + t.file_type, nl);
        lemma_concat_split(c3, c.file_type, t3, t.file_type);
        let c4 = c.version + nl + c.owner + nl + c.date + nl + c.expires + nl + c.region + nl;
        let t4 = t.version + nl + t.owner + nl + t.date + nl + t.expires + nl + t.region + nl;
        lemma_concat_split(c4 + c.mode, nl, t4 + t.mode, nl);
        lemma_concat_split(c4, c.mode, t4, t.mode);
        let c5 = c.version + nl + c.owner + nl + c.date + nl + c.expires + nl;
        let t5 = t.version + nl + t.owner + nl + t.date + nl + t.expires + nl;
        lemma_concat_split(c5 + c.region, nl, t5 + t.region, nl);
        lemma_concat_split(c5, c.region, t5, t.region);
        let c6 = c.version + nl + c.owner + nl + c.date + nl;
        let t6 = t.version + nl + t.owner + nl + t.date + nl;
        lemma_concat_split(c6 + c.expires, nl, t6 + t.expires, nl);
        lemma_concat_split(c6, c.expires, t6, t.expires);
        let c7 = c.version + nl + c.owner + nl;
        let t7 = t.version + nl + t.owner + nl;
        lemma_concat_split(c7 + c.date, nl, t7 + t.date, nl);
        lemma_concat_split(c7, c.date, t7, t.date);
        let c8 = c.version + nl;
        let t8 = t.version + nl;
        lemma_concat_split(c8 + c.owner, nl, t8 + t.owner, nl);
        lemma_concat_split(c8, c.owner, t8, t.owner);
        lemma_concat_split(c.version, nl, t.version, nl);
    }
}

/// The response headers of a granted request, and where the content lies.
pub struct ServeHeaders {
    /// Storage location of the content.
    pub disk_path: String,
    /// The stored mime type.
    pub content_type: String,
    /// Inline or attachment, with the display name as file name.
    pub content_disposition: String,
    /// The stored size in bytes.
    pub content_length: u64,
    /// A short public caching directive.
    pub cache_control: String,
    /// Advertised range support; ranges are not honoured.
    pub accept_ranges: String,
}

/// The headers of a granted request, as text and numbers.
pub struct ServeHeadersView {
    pub disk_path: Seq<char>,
    pub content_type: Seq<char>,
    pub content_disposition: Seq<char>,
    pub content_length: u64,
    pub cache_control: Seq<char>,
    pub accept_ranges: Seq<char>,
}

impl View for ServeHeaders {
    type V = ServeHeadersView;

    open spec fn view(&self) -> ServeHeadersView {
        ServeHeadersView {
            disk_path: self.disk_path@,
            content_type: self.content_type@,
            content_disposition: self.content_disposition@,
            content_length: self.content_length,
            cache_control: self.cache_control@,
            accept_ranges: self.accept_ranges@,
        }
    }
}

/// The presentation of an object: inline only where inline was asked for
/// and the mime type is viewable, else as an attachment; the display name
/// is the suggested file name.
pub open spec fn disposition_text(mode: Seq<char>, mime: Seq<char>, name: Seq<char>) -> Seq<char> {
    (if viewable_mime(mime) && mode == "inline"@ {
        "inline"@
    } else {
        "attachment"@
    }) + "; filename=\""@ + name + "\""@
}

/// The headers that serve object `m` in access mode `mode`.
pub open spec fn serve_view(m: MetadataView, mode: Seq<char>) -> ServeHeadersView {
    ServeHeadersView {
        disk_path: m.disk_path,
        content_type: m.mime_type,
        content_disposition: disposition_text(mode, m.mime_type, m.original_name),
        content_length: m.size,
        cache_control: "public, max-age=300"@,
        accept_ranges: "bytes"@,
    }
}

/// The Content-Disposition value for an object.
pub fn content_disposition(mode: &str, mime_type: &str, name: &str) -> (r: String)
    ensures
        r@ == disposition_text(mode@, mime_type@, name@),
{
    let mut s = if is_viewable_mime(mime_type) && constant_time_eq(mode, "inline") {
        String::from_str("inline")
    } else {
        String::from_str("attachment")
    };
    s.append("; filename=\"");
    s.append(name);
    s.append("\"");
    s
}

/// Decides a request for object `path_id`: the capability must pass
/// `authorize`, and the object must still be in the registry.
pub fn check_access(
    registry: &Registry,
    path_id: &str,
    params: &Vec<(String, String)>,
    config: &Config,
    now: i64,
) -> (r: Result<ServeHeaders, AccessError>)
    requires
        registry.wf(),
    ensures
        match authorization(path_id@, params@, config.secret_key@, now) {
            Err(e) => r matches Err(x) && x == e,
            Ok(c) => if has_id(registry@, path_id@) {
                r matches Ok(h) && h@ == serve_view(registry@[slot(registry@, path_id@)], c.mode)
            } else {
                r matches Err(x) && x == AccessError::NotFound
            },
        },
{
    let c = match authorize(path_id, params, config, now) {
        Ok(c) => c,
        Err(e) => return Err(e),
    };
    let m = match registry.get(path_id) {
        Some(m) => m,
        None => return Err(AccessError::NotFound),
    };
    Ok(
        ServeHeaders {
            disk_path: m.disk_path.clone(),
            content_type: m.mime_type.clone(),
            content_disposition: content_disposition(
                c.mode.as_str(),
                m.mime_type.as_str(),
                m.original_name.as_str(),
            ),
            content_length: m.size,
            cache_control: String::from_str("public, max-age=300"),
            accept_ranges: String::from_str("bytes"),
        },
    )
}

} // verus!
