//! The decisions of the token flow: when a cached REST token may be reused,
//! how a fresh one is cached, and the identifier under which a client asks
//! for an MQTT token.
use vstd::prelude::*;
use sha2::Digest;
use crate::error::DshError;
use crate::model::rest_model::{RestToken, RestTokenRequest};
use crate::model::mqtt_model::{Claims, MqttTokenRequest, Resource};
use crate::text::str_equals;
use crate::text::{debug_escaped, debug_text};

verus! {

/// Declares `std::time::SystemTime` so that a reading of the clock can be held.
#[verifier::external_type_specification]
#[verifier::external_body]
pub struct ExSystemTime(std::time::SystemTime);

/// A cached REST token, the time (in seconds since the Unix epoch) at which
/// it expires, and the request it was created for: the tenant, the API key and
/// the token endpoint that issued it.
pub struct TokenCache {
    pub token: String,
    pub expiration_date: i64,
    pub tenant: String,
    pub api_key: String,
    pub endpoint: String,
}

impl TokenCache {
    /// What the cache slot holds.
    pub fn read_cache(slot: &Option<TokenCache>) -> (res: Option<TokenCache>)
        ensures
            res == *slot,
    {
        match slot {
            Some(c) => Some(
                TokenCache {
                    token: c.token.clone(),
                    expiration_date: c.expiration_date,
                    tenant: c.tenant.clone(),
                    api_key: c.api_key.clone(),
                    endpoint: c.endpoint.clone(),
                },
            ),
            None => None,
        }
    }

    /// Puts `token`, expiring at `expiration_date` and created for `tenant`
    /// and `api_key` at `endpoint`, in the cache slot, in place of whatever it
    /// held.
    pub fn write_cache(
        slot: &mut Option<TokenCache>,
        token: String,
        expiration_date: i64,
        tenant: String,
        api_key: String,
        endpoint: String,
    )
        ensures
            *final(slot) == Some(TokenCache { token, expiration_date, tenant, api_key, endpoint }),
    {
        *slot = Some(TokenCache { token, expiration_date, tenant, api_key, endpoint })
    }

    /// Empties the cache slot.
    pub fn clear_cache(slot: &mut Option<TokenCache>)
        ensures
            *final(slot) == None::<TokenCache>,
    {
        *slot = None
    }
}

/// Reads the system clock (`std::time::SystemTime::now`). Nothing is claimed
/// of the reading.
#[verifier::external_body]
fn system_time_now() -> (res: std::time::SystemTime) {
    std::time::SystemTime::now()
}

/// The time elapsed from the Unix epoch to `t`
/// (`SystemTime::duration_since(UNIX_EPOCH)`), or `None` where `t` lies before
/// the epoch. Nothing is claimed of the duration, which is opaque here.
#[verifier::external_body]
fn duration_since_unix_epoch(t: &std::time::SystemTime) -> (res: Option<core::time::Duration>) {
    t.duration_since(std::time::UNIX_EPOCH).ok()
}

/// The whole seconds of a duration (`Duration::as_secs`). Nothing is claimed
/// of the count, since the duration is opaque here.
#[verifier::external_body]
fn duration_as_secs(d: &core::time::Duration) -> (res: u64) {
    d.as_secs()
}

/// The current time by the system clock, in whole seconds since the Unix
/// epoch, or `None` where the clock is set before the epoch. Nothing is known
/// of the reading: it depends on the clock.
pub fn current_unix_secs() -> (res: Option<u64>) {
    let now = system_time_now();
    match duration_since_unix_epoch(&now) {
        Some(elapsed) => Some(duration_as_secs(&elapsed)),
        None => None,
    }
}

/// A token that expires at `exp` is still valid at `now` (both in seconds
/// since the Unix epoch) when it expires at `now` or later.
pub open spec fn valid_at(exp: i64, now: u64) -> bool {
    exp as int >= now as int
}

/// Whether a token that expires at `exp` is still valid at `now`.
pub fn token_valid_at(exp: i64, now: u64) -> (res: bool)
    ensures
        res == valid_at(exp, now),
{
    exp >= 0 && (exp as u64) >= now
}

/// Whether a token that expires at `exp` is still valid now, by the system
/// clock. A clock set before the Unix epoch makes no token valid.
pub fn is_token_valid(exp: i64) -> (res: bool)
    ensures
        exists|now: u64| res == valid_at(exp, now),
        res ==> exists|now: u64| valid_at(exp, now),
        exp < 0 ==> !res,
{
    match current_unix_secs() {
        Some(secs) => token_valid_at(exp, secs),
        None => {
            assert(!valid_at(exp, u64::MAX));
            false
        },
    }
}

/// A token valid at some time stays valid for a later expiry, a negative
/// expiry is never valid, and the latest expiry is valid at every time up to
/// `i64::MAX` seconds.
pub proof fn lemma_validity_monotone(e1: i64, e2: i64, now: u64)
    requires
        e1 <= e2,
    ensures
        valid_at(e1, now) ==> valid_at(e2, now),
        !valid_at(-1i64, now),
        now <= i64::MAX ==> valid_at(i64::MAX, now),
{
}

/// The cache entry was created for `tenant` and `api_key` at `endpoint`.
pub open spec fn cached_for(c: TokenCache, tenant: Seq<char>, api_key: Seq<char>, endpoint: Seq<char>) -> bool {
    &&& c.tenant@ == tenant
    &&& c.api_key@ == api_key
    &&& c.endpoint@ == endpoint
}

/// The token that a lookup at `now` for `tenant` and `api_key` at `endpoint`
/// hands out from the cache slot: the cached token when it was created for
/// that same request and is still valid at `now`, nothing otherwise.
pub open spec fn lookup_at(
    slot: Option<TokenCache>,
    tenant: Seq<char>,
    api_key: Seq<char>,
    endpoint: Seq<char>,
    now: u64,
) -> Option<String> {
    match slot {
        Some(c) => if cached_for(c, tenant, api_key, endpoint) && valid_at(c.expiration_date, now) {
            Some(c.token)
        } else {
            None
        },
        None => None,
    }
}

/// What the cache slot holds after a lookup at `now`: a valid token stays, an
/// expired one is dropped.
pub open spec fn slot_after_lookup_at(slot: Option<TokenCache>, now: u64) -> Option<TokenCache> {
    match slot {
        Some(c) => if valid_at(c.expiration_date, now) {
            slot
        } else {
            None
        },
        None => None,
    }
}

/// The cached token, if the slot holds one that was created for the tenant
/// and API key of `request` at `endpoint` and is still valid at `now`. A
/// cached token that has expired is dropped from the slot; a valid one made
/// for another request stays, and is not handed out.
pub fn cached_rest_token_at(
    slot: &mut Option<TokenCache>,
    request: &RestTokenRequest,
    endpoint: &str,
    now: u64,
) -> (res: Option<String>)
    ensures
        res == lookup_at(*old(slot), request.tenant@, request.api_key@, endpoint@, now),
        *final(slot) == slot_after_lookup_at(*old(slot), now),
{
    if let Some(token_cache) = TokenCache::read_cache(slot) {
        if token_valid_at(token_cache.expiration_date, now) {
            if str_equals(token_cache.tenant.as_str(), request.tenant.as_str()) && str_equals(
                token_cache.api_key.as_str(),
                request.api_key.as_str(),
            ) && str_equals(token_cache.endpoint.as_str(), endpoint) {
                return Some(token_cache.token);
            }
        } else {
            TokenCache::clear_cache(slot)
        }
    }
    None
}

/// A token cached for a request is handed out to that same request by every
/// lookup up to and including its expiry, and stays cached.
pub proof fn lemma_cached_token_reused_until_expiry(c: TokenCache, now: u64)
    requires
        now <= c.expiration_date,
    ensures
        lookup_at(Some(c), c.tenant@, c.api_key@, c.endpoint@, now) == Some(c.token),
        slot_after_lookup_at(Some(c), now) == Some(c),
{
}

/// A token cached for one request is never handed out to a request with
/// another tenant, API key or endpoint.
pub proof fn lemma_other_request_not_served(
    c: TokenCache,
    tenant: Seq<char>,
    api_key: Seq<char>,
    endpoint: Seq<char>,
    now: u64,
)
    requires
        !cached_for(c, tenant, api_key, endpoint),
    ensures
        lookup_at(Some(c), tenant, api_key, endpoint, now) is None,
{
}

/// Once a cached token has expired, no lookup hands it out, and the lookup
/// empties the slot, so that a fresh token is fetched.
pub proof fn lemma_expired_token_dropped(
    slot: Option<TokenCache>,
    tenant: Seq<char>,
    api_key: Seq<char>,
    endpoint: Seq<char>,
    now: u64,
)
    requires
        slot matches Some(c) && c.expiration_date < now,
    ensures
        lookup_at(slot, tenant, api_key, endpoint, now) is None,
        slot_after_lookup_at(slot, now) is None,
{
}

/// An empty slot hands out nothing and stays empty.
pub proof fn lemma_empty_cache_lookup(tenant: Seq<char>, api_key: Seq<char>, endpoint: Seq<char>, now: u64)
    ensures
        lookup_at(None, tenant, api_key, endpoint, now) is None,
        slot_after_lookup_at(None, now) is None,
{
}

/// A lookup changes nothing the next lookup at the same time would see.
pub proof fn lemma_lookup_idempotent(
    slot: Option<TokenCache>,
    tenant: Seq<char>,
    api_key: Seq<char>,
    endpoint: Seq<char>,
    now: u64,
)
    ensures
        lookup_at(slot_after_lookup_at(slot, now), tenant, api_key, endpoint, now) == lookup_at(
            slot,
            tenant,
            api_key,
            endpoint,
            now,
        ),
        slot_after_lookup_at(slot_after_lookup_at(slot, now), now) == slot_after_lookup_at(slot, now),
{
}

/// The cached token for `request` at `endpoint`, if the slot holds one made
/// for that request that is still valid by the system clock; a cached token
/// found expired is dropped from the slot. The clock is read once: the result
/// and the slot are those of a lookup at that reading (a clock set before the
/// Unix epoch counts every token as expired).
pub fn cached_rest_token(slot: &mut Option<TokenCache>, request: &RestTokenRequest, endpoint: &str) -> (res:
    Option<String>)
    ensures
        exists|now: u64|
            res == lookup_at(*old(slot), request.tenant@, request.api_key@, endpoint@, now)
                && *final(slot) == slot_after_lookup_at(*old(slot), now),
{
    let now = match current_unix_secs() {
        Some(secs) => secs,
        None => u64::MAX,
    };
    cached_rest_token_at(slot, request, endpoint, now)
}

/// Records a freshly created raw REST token for `request` at `endpoint`: when
/// its payload could be read (`parsed` is `Ok`), the token is cached until its
/// expiry, together with the request it was made for; otherwise the slot is
/// left as it is. Returns the raw token.
pub fn add_new_token_to_cache(
    slot: &mut Option<TokenCache>,
    created_raw_rest_token: String,
    parsed: &Result<RestToken, DshError>,
    request: &RestTokenRequest,
    endpoint: &str,
) -> (res: String)
    ensures
        res == created_raw_rest_token,
        match parsed {
            Ok(t) => *final(slot) matches Some(c) && c.token == t.raw_token && c.expiration_date
                == t.token_attributes.exp && cached_for(
                c,
                request.tenant@,
                request.api_key@,
                endpoint@,
            ),
            Err(_) => *final(slot) == *old(slot),
        },
{
    if let Ok(new_token) = parsed {
        TokenCache::write_cache(
            slot,
            new_token.raw_token.clone(),
            new_token.token_attributes.exp,
            request.tenant.clone(),
            request.api_key.clone(),
            String::from_str(endpoint),
        )
    }
    created_raw_rest_token
}

/// A token just fetched and cached for a request is handed out to that
/// request by every lookup up to and including its expiry.
pub proof fn lemma_fresh_token_served_to_its_request(
    c: TokenCache,
    t: RestToken,
    tenant: Seq<char>,
    api_key: Seq<char>,
    endpoint: Seq<char>,
    now: u64,
)
    requires
        c.token == t.raw_token,
        c.expiration_date == t.token_attributes.exp,
        cached_for(c, tenant, api_key, endpoint),
        now <= t.token_attributes.exp,
    ensures
        lookup_at(Some(c), tenant, api_key, endpoint, now) == Some(t.raw_token),
{
}

/// The SHA-256 digest of `data`.
pub uninterp spec fn sha256_of(data: Seq<u8>) -> Seq<u8>;

/// Computes `sha2::Sha256::digest(data)`. Claimed: the result is the SHA-256
/// digest of `data`, which is 32 bytes long.
#[verifier::external_body]
fn sha256_digest(data: &[u8]) -> (res: Vec<u8>)
    ensures
        res@ == sha256_of(data@),
        res@.len() == 32,
{
    sha2::Sha256::digest(data).to_vec()
}

/// The lowercase hexadecimal digit of a value below 16.
pub open spec fn hex_digit_char(n: u8) -> char {
    if n < 10 {
        (('0' as u8) + n) as char
    } else {
        (('a' as u8) + (n - 10)) as char
    }
}

/// The lowercase hexadecimal text of `bytes`, two digits per byte, high
/// nibble first.
pub open spec fn hex_lower(bytes: Seq<u8>) -> Seq<char>
    decreases bytes.len(),
{
    if bytes.len() == 0 {
        Seq::<char>::empty()
    } else {
        seq![hex_digit_char(bytes[0] / 16), hex_digit_char(bytes[0] % 16)] + hex_lower(
            bytes.drop_first(),
        )
    }
}

/// A lowercase hexadecimal digit.
pub open spec fn is_hex_digit(c: char) -> bool {
    ('0' <= c && c <= '9') || ('a' <= c && c <= 'f')
}

/// The hexadecimal text of `bytes` has two digits per byte.
pub proof fn lemma_hex_lower_shape(bytes: Seq<u8>)
    ensures
        hex_lower(bytes).len() == 2 * bytes.len(),
        forall|k: int| 0 <= k < hex_lower(bytes).len() ==> is_hex_digit(#[trigger] hex_lower(bytes)[k]),
    decreases bytes.len(),
{
    if bytes.len() > 0 {
        lemma_hex_lower_shape(bytes.drop_first());
        let hd = seq![hex_digit_char(bytes[0] / 16), hex_digit_char(bytes[0] % 16)];
        let tl = hex_lower(bytes.drop_first());
        assert forall|k: int| 0 <= k < hex_lower(bytes).len() implies is_hex_digit(
            #[trigger] hex_lower(bytes)[k],
        ) by {
            if k >= 2 {
                assert(hex_lower(bytes)[k] == tl[k - 2]);
            } else {
                let n = if k == 0 { bytes[0] / 16 } else { bytes[0] % 16 };
                assert(hex_lower(bytes)[k] == hex_digit_char(n));
                assert(n < 16);
            }
        }
    }
}

proof fn lemma_hex_digit_char_injective(a: u8, b: u8)
    requires
        a < 16,
        b < 16,
        hex_digit_char(a) == hex_digit_char(b),
    ensures
        a == b,
{
}

/// Distinct byte strings have distinct hexadecimal texts.
pub proof fn lemma_hex_lower_injective(a: Seq<u8>, b: Seq<u8>)
    requires
        hex_lower(a) == hex_lower(b),
    ensures
        a == b,
    decreases a.len(),
{
    lemma_hex_lower_shape(a);
    lemma_hex_lower_shape(b);
    if a.len() > 0 {
        let ha = hex_lower(a);
        assert(ha[0] == hex_digit_char(a[0] / 16));
        assert(ha[1] == hex_digit_char(a[0] % 16));
        assert(hex_lower(b)[0] == hex_digit_char(b[0] / 16));
        assert(hex_lower(b)[1] == hex_digit_char(b[0] % 16));
        lemma_hex_digit_char_injective(a[0] / 16, b[0] / 16);
        lemma_hex_digit_char_injective(a[0] % 16, b[0] % 16);
        assert(a[0] == b[0]);
        assert(hex_lower(a.drop_first()) =~= ha.subrange(2, ha.len() as int));
        assert(hex_lower(b.drop_first()) =~= hex_lower(b).subrange(2, ha.len() as int));
        lemma_hex_lower_injective(a.drop_first(), b.drop_first());
        assert(a =~= seq![a[0]] + a.drop_first());
        assert(b =~= seq![b[0]] + b.drop_first());
    } else {
        assert(a =~= b);
    }
}

/// The id under which a client asks for an MQTT token is 64 lowercase
/// hexadecimal digits, and clients whose ids hash apart ask under different
/// ids.
pub proof fn lemma_hashed_client_id_shape(id: Seq<char>, other: Seq<char>)
    ensures
        hex_lower(sha256_of(vstd::utf8::encode_utf8(id))).len() == 2 * sha256_of(
            vstd::utf8::encode_utf8(id),
        ).len(),
        forall|k: int|
            0 <= k < hex_lower(sha256_of(vstd::utf8::encode_utf8(id))).len() ==> is_hex_digit(
                #[trigger] hex_lower(sha256_of(vstd::utf8::encode_utf8(id)))[k],
            ),
        sha256_of(vstd::utf8::encode_utf8(id)) != sha256_of(vstd::utf8::encode_utf8(other))
            ==> hex_lower(sha256_of(vstd::utf8::encode_utf8(id))) != hex_lower(
            sha256_of(vstd::utf8::encode_utf8(other)),
        ),
{
    lemma_hex_lower_shape(sha256_of(vstd::utf8::encode_utf8(id)));
    if hex_lower(sha256_of(vstd::utf8::encode_utf8(id))) == hex_lower(
        sha256_of(vstd::utf8::encode_utf8(other)),
    ) {
        lemma_hex_lower_injective(
            sha256_of(vstd::utf8::encode_utf8(id)),
            sha256_of(vstd::utf8::encode_utf8(other)),
        );
    }
}

fn hex_digit(n: u8) -> (res: &'static str)
    requires
        n < 16,
    ensures
        res@ == seq![hex_digit_char(n)],
{
    match n {
        0 => { proof { reveal_strlit("0"); } "0" },
        1 => { proof { reveal_strlit("1"); } "1" },
        2 => { proof { reveal_strlit("2"); } "2" },
        3 => { proof { reveal_strlit("3"); } "3" },
        4 => { proof { reveal_strlit("4"); } "4" },
        5 => { proof { reveal_strlit("5"); } "5" },
        6 => { proof { reveal_strlit("6"); } "6" },
        7 => { proof { reveal_strlit("7"); } "7" },
        8 => { proof { reveal_strlit("8"); } "8" },
        9 => { proof { reveal_strlit("9"); } "9" },
        10 => { proof { reveal_strlit("a"); } "a" },
        11 => { proof { reveal_strlit("b"); } "b" },
        12 => { proof { reveal_strlit("c"); } "c" },
        13 => { proof { reveal_strlit("d"); } "d" },
        14 => { proof { reveal_strlit("e"); } "e" },
        _ => { proof { reveal_strlit("f"); } "f" },
    }
}

/// The lowercase hexadecimal text of `bytes`.
pub fn to_hex_lower(bytes: &[u8]) -> (res: String)
    ensures
        res@ == hex_lower(bytes@),
{
    let n = bytes.len();
    let mut res = String::new();
    let mut i: usize = 0;
    assert(bytes@.skip(0) =~= bytes@);
    while i < n
        invariant
            n == bytes@.len(),
            i <= n,
            hex_lower(bytes@) == res@ + hex_lower(bytes@.skip(i as int)),
        decreases n - i,
    {
        let b = bytes[i];
        res.append(hex_digit(b / 16));
        res.append(hex_digit(b % 16));
        proof {
            assert(bytes@.skip(i as int).drop_first() =~= bytes@.skip(i + 1));
            assert(res@ + hex_lower(bytes@.skip(i + 1)) =~= (res@.subrange(0, res@.len() - 2) + (
            seq![hex_digit_char(b / 16), hex_digit_char(b % 16)] + hex_lower(bytes@.skip(i + 1)))));
        }
        i = i + 1;
    }
    assert(bytes@.skip(n as int) =~= Seq::<u8>::empty());
    assert(res@ + Seq::<char>::empty() =~= res@);
    res
}

/// The identifier under which a client asks for an MQTT token: the lowercase
/// hexadecimal SHA-256 digest of the UTF-8 bytes of its client id.
pub fn hash_client_id(id: &str) -> (res: String)
    ensures
        res@ == hex_lower(sha256_of(vstd::utf8::encode_utf8(id@))),
        res@.len() == 64,
{
    let digest = sha256_digest(id.as_bytes());
    let res = to_hex_lower(digest.as_slice());
    proof {
        lemma_hex_lower_shape(digest@);
    }
    res
}

/// A copy of a resource.
fn clone_resource(r: &Resource) -> (res: Resource)
    ensures
        res == *r,
{
    Resource {
        stream: r.stream.clone(),
        prefix: r.prefix.clone(),
        topic: r.topic.clone(),
        type_: match &r.type_ {
            Some(t) => Some(t.clone()),
            None => None,
        },
    }
}

/// A copy of a list of claims.
fn clone_claims(v: &Vec<Claims>) -> (res: Vec<Claims>)
    ensures
        res@ == v@,
{
    let mut out: Vec<Claims> = Vec::new();
    let mut i: usize = 0;
    while i < v.len()
        invariant
            i <= v.len(),
            out@ == v@.subrange(0, i as int),
        decreases v.len() - i,
    {
        let c = &v[i];
        out.push(Claims { resource: clone_resource(&c.resource), action: c.action.clone() });
        proof {
            assert(v@.subrange(0, i + 1) =~= v@.subrange(0, i as int).push(v@[i as int]));
        }
        i = i + 1;
    }
    assert(v@.subrange(0, v@.len() as int) =~= v@);
    out
}

/// The body of a request for an MQTT token: the hashed client id, the tenant
/// and the claims asked for (none asks for every claim the REST token allows).
pub struct MqttTokenPayload {
    pub id: String,
    pub tenant: String,
    pub claims: Option<Vec<Claims>>,
}

/// The body of the request for an MQTT token that `req` describes: the id is
/// the hashed client id, the tenant and the claims are those of `req`.
pub fn mqtt_token_payload(req: &MqttTokenRequest) -> (res: MqttTokenPayload)
    ensures
        res.id@ == hex_lower(sha256_of(vstd::utf8::encode_utf8(req.client_id@))),
        res.tenant@ == req.tenant@,
        res.claims is Some <==> req.claims is Some,
        res.claims matches Some(c) ==> c@ == req.claims->0@,
{
    MqttTokenPayload {
        id: hash_client_id(req.client_id.as_str()),
        tenant: req.tenant.clone(),
        claims: match &req.claims {
            Some(c) => Some(clone_claims(c)),
            None => None,
        },
    }
}

/// The decimal text of `n`, most significant digit first, without leading
/// zeros (`0` for zero).
pub open spec fn decimal(n: nat) -> Seq<char>
    decreases n,
{
    if n < 10 {
        seq![(('0' as u8) + (n as u8)) as char]
    } else {
        decimal(n / 10) + seq![(('0' as u8) + ((n % 10) as u8)) as char]
    }
}

fn decimal_digit(n: u16) -> (res: &'static str)
    requires
        n < 10,
    ensures
        res@ == seq![(('0' as u8) + (n as u8)) as char],
{
    match n {
        0 => { proof { reveal_strlit("0"); } "0" },
        1 => { proof { reveal_strlit("1"); } "1" },
        2 => { proof { reveal_strlit("2"); } "2" },
        3 => { proof { reveal_strlit("3"); } "3" },
        4 => { proof { reveal_strlit("4"); } "4" },
        5 => { proof { reveal_strlit("5"); } "5" },
        6 => { proof { reveal_strlit("6"); } "6" },
        7 => { proof { reveal_strlit("7"); } "7" },
        8 => { proof { reveal_strlit("8"); } "8" },
        _ => { proof { reveal_strlit("9"); } "9" },
    }
}

/// The decimal text of `n`.
pub fn decimal_text(n: u16) -> (res: String)
    ensures
        res@ == decimal(n as nat),
    decreases n,
{
    if n < 10 {
        String::from_str(decimal_digit(n))
    } else {
        let mut s = decimal_text(n / 10);
        s.append(decimal_digit(n % 10));
        s
    }
}

/// The message of a refused token request: the status code and the quoted
/// response body.
pub open spec fn token_request_failure(status: u16, body: Seq<char>) -> Seq<char> {
    "Error requesting token server response code: "@ + decimal(status as nat) + " body: "@
        + debug_escaped(body)
}

/// The outcome of a token request that the server answered with `status` and
/// `body`: the body, which is the raw token, when the status is 200 (OK);
/// otherwise a `RequestError` that gives the status and the body.
pub fn token_response(status: u16, body: String) -> (res: Result<String, DshError>)
    ensures
        status == 200 ==> res == Ok::<String, DshError>(body),
        status != 200 ==> (res matches Err(DshError::RequestError(m)) && m@
            == token_request_failure(status, body@)),
{
    if status == 200 {
        Ok(body)
    } else {
        let mut message = String::from_str("Error requesting token server response code: ");
        message.append(decimal_text(status).as_str());
        message.append(" body: ");
        message.append(debug_text(body.as_str()).as_str());
        Err(DshError::RequestError(message))
    }
}

/// The `Authorization` header of a request for an MQTT token: the REST token
/// as a bearer token.
pub fn authorization_header(rest_token: &str) -> (res: String)
    ensures
        res@ == "Bearer "@ + rest_token@,
{
    let mut header = String::from_str("Bearer ");
    header.append(rest_token);
    header
}

} // verus!
