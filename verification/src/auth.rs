//! Who is calling: the reading of the Authorization header, API keys, and
//! the secret that workers present.

use vstd::prelude::*;
use crate::api::{
    failure, ApiFailure, ApiFailureView, STATUS_CONFLICT, STATUS_INTERNAL_SERVER_ERROR,
    STATUS_NOT_FOUND, STATUS_UNAUTHORIZED,
};
use crate::crypto::{argon2_accepts, hash_password, verify_password, CryptoError};
use crate::ids::{format_id_simple, new_id, simple_text};
use crate::text::{
    chars_of, clone_opt_string, contains, contains_text, has_prefix, join2, matches_at, opt_view,
    same_text, string_of,
};

verus! {

/// The header that carries the worker secret.
pub const WORKER_SECRET_HEADER: &'static str = "X-Worker-Secret";

/// How a caller authenticated.
#[derive(Debug, Clone, Copy, PartialEq, Eq, Structural)]
pub enum AuthType {
    /// With a token of the auth service.
    Jwt,
    /// With an API key.
    ApiKey,
}

impl AuthType {
    /// The name of the variant.
    pub open spec fn spec_label(self) -> Seq<char> {
        match self {
            AuthType::Jwt => "Jwt"@,
            AuthType::ApiKey => "ApiKey"@,
        }
    }

    /// The name of the variant.
    pub fn label(&self) -> (r: &'static str)
        ensures
            r@ == self.spec_label(),
    {
        match self {
            AuthType::Jwt => "Jwt",
            AuthType::ApiKey => "ApiKey",
        }
    }
}

/// An authenticated caller.
#[derive(Debug, Clone)]
pub struct AuthUser {
    pub user_id: u128,
    pub email: Option<String>,
    pub auth_type: AuthType,
}

/// An API key as the store holds it: with the hash of the key, never the
/// key.
#[derive(Debug, Clone)]
pub struct ApiKeyRecord {
    pub id: u128,
    pub user_id: u128,
    pub name: String,
    pub key_hash: String,
    pub created_at: i64,
    pub last_used_at: Option<i64>,
}

/// An API key as it is listed: without its hash.
#[derive(Debug, Clone)]
pub struct ApiKeyInfo {
    pub id: u128,
    pub name: String,
    pub created_at: i64,
    pub last_used_at: Option<i64>,
}

/// A request for a new API key.
#[derive(Debug, Clone)]
pub struct CreateApiKeyRequest {
    pub name: String,
}

/// The answer to a request for a new API key. The key is shown this once.
#[derive(Debug, Clone)]
pub struct CreateApiKeyResponse {
    pub id: u128,
    pub name: String,
    pub key: String,
}

/// The caller, as the API describes it.
#[derive(Debug, Clone)]
pub struct CurrentUser {
    pub user_id: u128,
    pub email: Option<String>,
    pub auth_type: String,
}

/// A login.
#[derive(Debug, Clone)]
pub struct LoginRequest {
    pub email: String,
    pub password: String,
}

/// The session opened by a login or a registration.
#[derive(Debug, Clone)]
pub struct LoginResponse {
    pub token: String,
    pub user_id: u128,
}

/// A registration.
#[derive(Debug, Clone)]
pub struct RegisterRequest {
    pub email: String,
    pub password: String,
}

/// What an Authorization header presents.
#[derive(Debug)]
pub enum Credential {
    /// `Bearer` and a token.
    Bearer(String),
    /// `ApiKey` and a key.
    ApiKey(String),
}

/// The mathematical value of a [`Credential`].
pub ghost enum CredentialView {
    Bearer(Seq<char>),
    ApiKey(Seq<char>),
}

impl View for Credential {
    type V = CredentialView;

    open spec fn view(&self) -> CredentialView {
        match self {
            Credential::Bearer(t) => CredentialView::Bearer(t@),
            Credential::ApiKey(k) => CredentialView::ApiKey(k@),
        }
    }
}

/// What a header presents: a token behind `Bearer `, a key behind
/// `ApiKey `, and nothing otherwise.
pub open spec fn presented(header: Option<Seq<char>>) -> Option<CredentialView> {
    match header {
        Some(h) => if has_prefix(h, "Bearer "@) {
            Some(CredentialView::Bearer(h.subrange(7, h.len() as int)))
        } else if has_prefix(h, "ApiKey "@) {
            Some(CredentialView::ApiKey(h.subrange(7, h.len() as int)))
        } else {
            None
        },
        None => None,
    }
}

/// The failure reported to a caller that presents no credential.
pub open spec fn unauthorized_failure() -> ApiFailureView {
    failure(
        401,
        "Missing or invalid Authorization header. Use 'Bearer <jwt>' or 'ApiKey <key>'"@,
        "unauthorized"@,
    )
}

/// Reads the Authorization header of a request. A request without the
/// header, or with one of another form, is refused as unauthorized.
pub fn auth_middleware(header: Option<&str>) -> (r: Result<Credential, ApiFailure>)
    ensures
        match r {
            Ok(c) => presented(
                match header {
                    Some(h) => Some(h@),
                    None => None,
                },
            ) == Some(c@),
            Err(f) => presented(
                match header {
                    Some(h) => Some(h@),
                    None => None,
                },
            ) is None && f@ == unauthorized_failure(),
        },
{
    proof {
        reveal_strlit("Bearer ");
        reveal_strlit("ApiKey ");
    }
    match header {
        Some(h) => {
            let cs = chars_of(h);
            let bearer = chars_of("Bearer ");
            let api_key = chars_of("ApiKey ");
            if matches_at(&cs, &bearer, 0) {
                return Ok(Credential::Bearer(string_of(&cs, 7, cs.len())));
            }
            if matches_at(&cs, &api_key, 0) {
                return Ok(Credential::ApiKey(string_of(&cs, 7, cs.len())));
            }
        },
        None => {},
    }
    Err(
        ApiFailure::new(
            STATUS_UNAUTHORIZED,
            "Missing or invalid Authorization header. Use 'Bearer <jwt>' or 'ApiKey <key>'",
            "unauthorized",
        ),
    )
}

/// What the auth service answered to a token.
#[derive(Debug)]
pub enum TokenReply {
    /// The service could not be reached.
    Unreachable,
    /// The service rejected the token.
    Rejected,
    /// The service's answer could not be read.
    Unreadable,
    /// The token belongs to this user.
    User { id: u128, email: Option<String> },
}

/// What the answer of the auth service to a token means for the request:
/// the caller, or `invalid_token` for a rejected token, or `auth_error`
/// where the service failed.
pub fn verify_jwt(reply: TokenReply) -> (r: Result<AuthUser, ApiFailure>)
    ensures
        match reply {
            TokenReply::Unreachable => r is Err && r->Err_0@ == failure(
                500,
                "Failed to verify token"@,
                "auth_error"@,
            ),
            TokenReply::Rejected => r is Err && r->Err_0@ == failure(
                401,
                "Invalid or expired token"@,
                "invalid_token"@,
            ),
            TokenReply::Unreadable => r is Err && r->Err_0@ == failure(
                500,
                "Failed to parse auth response"@,
                "auth_error"@,
            ),
            TokenReply::User { id, email } => r is Ok && r->Ok_0.user_id == id && opt_view(
                r->Ok_0.email,
            ) == opt_view(email) && r->Ok_0.auth_type == AuthType::Jwt,
        },
{
    match reply {
        TokenReply::Unreachable => Err(
            ApiFailure::new(STATUS_INTERNAL_SERVER_ERROR, "Failed to verify token", "auth_error"),
        ),
        TokenReply::Rejected => Err(
            ApiFailure::new(STATUS_UNAUTHORIZED, "Invalid or expired token", "invalid_token"),
        ),
        TokenReply::Unreadable => Err(
            ApiFailure::new(
                STATUS_INTERNAL_SERVER_ERROR,
                "Failed to parse auth response",
                "auth_error",
            ),
        ),
        TokenReply::User { id, email } => Ok(
            AuthUser { user_id: id, email, auth_type: AuthType::Jwt },
        ),
    }
}

/// `i` is the index of the first record whose hash accepts the key.
pub open spec fn is_first_match(records: Seq<ApiKeyRecord>, key: Seq<char>, i: int) -> bool {
    &&& 0 <= i < records.len()
    &&& argon2_accepts(key, records[i].key_hash@)
    &&& forall|j: int| 0 <= j < i ==> !argon2_accepts(key, (#[trigger] records[j]).key_hash@)
}

/// The record of a key after it was used at `now`.
pub open spec fn used_at(record: ApiKeyRecord, now: i64) -> ApiKeyRecord {
    ApiKeyRecord { last_used_at: Some(now), ..record }
}

/// Finds the caller that an API key belongs to: the owner of the first
/// record whose hash accepts the key, which is marked as used at `now`.
/// The key itself is stored nowhere. A key that no record accepts is
/// refused as `invalid_api_key`, and nothing changes.
pub fn verify_api_key(records: &mut Vec<ApiKeyRecord>, key: &str, now: i64) -> (r: Result<
    AuthUser,
    ApiFailure,
>)
    ensures
        match r {
            Ok(user) => exists|i: int|
                {
                    &&& is_first_match(old(records)@, key@, i)
                    &&& final(records)@ == old(records)@.update(
                        i,
                        used_at(old(records)@[i], now),
                    )
                    &&& user.user_id == old(records)@[i].user_id
                    &&& user.email is None
                    &&& user.auth_type == AuthType::ApiKey
                },
            Err(f) => {
                &&& forall|j: int|
                    0 <= j < old(records)@.len() ==> !argon2_accepts(
                        key@,
                        (#[trigger] old(records)@[j]).key_hash@,
                    )
                &&& final(records)@ == old(records)@
                &&& f@ == failure(401, "Invalid API key"@, "invalid_api_key"@)
            },
        },
{
    let mut i: usize = 0;
    while i < records.len()
        invariant
            i <= records.len(),
            records@ == old(records)@,
            forall|j: int|
                0 <= j < i ==> !argon2_accepts(key@, (#[trigger] records@[j]).key_hash@),
        decreases records.len() - i,
    {
        if verify_password(key, records[i].key_hash.as_str()) {
            let user_id = records[i].user_id;
            let touched = ApiKeyRecord {
                id: records[i].id,
                user_id,
                name: records[i].name.clone(),
                key_hash: records[i].key_hash.clone(),
                created_at: records[i].created_at,
                last_used_at: Some(now),
            };
            assert(touched == used_at(records@[i as int], now));
            assert(is_first_match(old(records)@, key@, i as int));
            records.set(i, touched);
            return Ok(AuthUser { user_id, email: None, auth_type: AuthType::ApiKey });
        }
        i += 1;
    }
    Err(ApiFailure::new(STATUS_UNAUTHORIZED, "Invalid API key", "invalid_api_key"))
}

/// Whether a worker may call: always where no secret is configured;
/// otherwise only where it presents that secret.
pub open spec fn worker_admitted(configured: Option<Seq<char>>, presented: Option<Seq<char>>) -> bool {
    match configured {
        Some(secret) => presented == Some(secret),
        None => true,
    }
}

/// Checks the secret that a worker presents against the configured one.
pub fn worker_auth_middleware(configured: &Option<String>, presented: Option<&str>) -> (r: Result<
    (),
    ApiFailure,
>)
    ensures
        match r {
            Ok(()) => worker_admitted(
                opt_view(*configured),
                match presented {
                    Some(p) => Some(p@),
                    None => None,
                },
            ),
            Err(f) => !worker_admitted(
                opt_view(*configured),
                match presented {
                    Some(p) => Some(p@),
                    None => None,
                },
            ) && f@ == failure(401, "Invalid or missing worker secret"@, "unauthorized"@),
        },
{
    let admitted = match configured {
        Some(secret) => match presented {
            Some(p) => same_text(secret.as_str(), p),
            None => false,
        },
        None => true,
    };
    if admitted {
        Ok(())
    } else {
        Err(
            ApiFailure::new(
                STATUS_UNAUTHORIZED,
                "Invalid or missing worker secret",
                "unauthorized",
            ),
        )
    }
}

/// The text of the API key minted from an identifier: `jmr_` and the 32
/// hexadecimal digits of the identifier.
pub open spec fn api_key_text(id: u128) -> Seq<char> {
    "jmr_"@ + simple_text(id)
}

/// The API key minted from an identifier.
pub fn api_key_from(id: u128) -> (key: String)
    ensures
        key@ == api_key_text(id),
{
    join2("jmr_", format_id_simple(id).as_str())
}

/// Hashes an API key for storage, with Argon2id. The hash is accepted for
/// the key and for the key alone is it made.
pub fn hash_api_key(key: &str) -> (r: Result<String, CryptoError>)
    ensures
        r matches Ok(hash) ==> argon2_accepts(key@, hash@),
{
    hash_password(key)
}

/// Mints a new API key and returns it with its hash. The key is random; it
/// begins with `jmr_`, and the hash accepts it.
pub fn generate_api_key() -> (r: Result<(String, String), CryptoError>)
    ensures
        r matches Ok((key, hash)) ==> has_prefix(key@, "jmr_"@) && key@.len() == 36
            && argon2_accepts(key@, hash@),
{
    let key = api_key_from(new_id());
    proof {
        reveal_strlit("jmr_");
        assert(key@.subrange(0, 4) =~= "jmr_"@);
    }
    match hash_api_key(key.as_str()) {
        Ok(hash) => Ok((key, hash)),
        Err(e) => Err(e),
    }
}

/// Describes the caller.
pub fn get_current_user(user: &AuthUser) -> (me: CurrentUser)
    ensures
        me.user_id == user.user_id,
        opt_view(me.email) == opt_view(user.email),
        me.auth_type@ == user.auth_type.spec_label(),
{
    CurrentUser {
        user_id: user.user_id,
        email: clone_opt_string(&user.email),
        auth_type: String::from_str(user.auth_type.label()),
    }
}

/// The record and the answer for a new API key of a user: the record
/// holds the hash, the answer the key.
pub fn create_api_key(
    user_id: u128,
    request: &CreateApiKeyRequest,
    key_id: u128,
    key: String,
    key_hash: String,
    now: i64,
) -> (r: (ApiKeyRecord, CreateApiKeyResponse))
    ensures
        r.0.id == key_id,
        r.0.user_id == user_id,
        r.0.name@ == request.name@,
        r.0.key_hash@ == key_hash@,
        r.0.created_at == now,
        r.0.last_used_at is None,
        r.1.id == key_id,
        r.1.name@ == request.name@,
        r.1.key@ == key@,
{
    (
        ApiKeyRecord {
            id: key_id,
            user_id,
            name: request.name.clone(),
            key_hash,
            created_at: now,
            last_used_at: None,
        },
        CreateApiKeyResponse { id: key_id, name: request.name.clone(), key },
    )
}

/// The keys of a user, as they are listed: in the order of the records,
/// without their hashes.
pub open spec fn keys_of(records: Seq<ApiKeyRecord>, user_id: u128) -> Seq<int>
    decreases records.len(),
{
    if records.len() == 0 {
        Seq::empty()
    } else if records.last().user_id == user_id {
        keys_of(records.drop_last(), user_id).push(records.len() - 1)
    } else {
        keys_of(records.drop_last(), user_id)
    }
}

/// Lists the API keys of a user, without their hashes.
pub fn list_api_keys(records: &Vec<ApiKeyRecord>, user_id: u128) -> (keys: Vec<ApiKeyInfo>)
    ensures
        keys@.len() == keys_of(records@, user_id).len(),
        forall|k: int|
            0 <= k < keys@.len() ==> {
                let i = keys_of(records@, user_id)[k];
                &&& 0 <= i < records@.len()
                &&& (#[trigger] keys@[k]).id == records@[i].id
                &&& keys@[k].name@ == records@[i].name@
                &&& keys@[k].created_at == records@[i].created_at
                &&& keys@[k].last_used_at == records@[i].last_used_at
            },
{
    let mut keys: Vec<ApiKeyInfo> = Vec::new();
    let mut i: usize = 0;
    while i < records.len()
        invariant
            i <= records.len(),
            keys@.len() == keys_of(records@.take(i as int), user_id).len(),
            forall|k: int|
                0 <= k < keys@.len() ==> {
                    let j = keys_of(records@.take(i as int), user_id)[k];
                    &&& 0 <= j < i
                    &&& (#[trigger] keys@[k]).id == records@[j].id
                    &&& keys@[k].name@ == records@[j].name@
                    &&& keys@[k].created_at == records@[j].created_at
                    &&& keys@[k].last_used_at == records@[j].last_used_at
                },
        decreases records.len() - i,
    {
        assert(records@.take(i + 1).drop_last() =~= records@.take(i as int));
        assert(records@.take(i + 1).last() == records@[i as int]);
        if records[i].user_id == user_id {
            keys.push(
                ApiKeyInfo {
                    id: records[i].id,
                    name: records[i].name.clone(),
                    created_at: records[i].created_at,
                    last_used_at: records[i].last_used_at,
                },
            );
        }
        i += 1;
    }
    assert(records@.take(i as int) =~= records@);
    keys
}

/// Whether a record is the key `key_id` of the user `user_id`.
pub open spec fn is_key_of(record: ApiKeyRecord, user_id: u128, key_id: u128) -> bool {
    record.id == key_id && record.user_id == user_id
}

/// The records without the key `key_id` of the user `user_id`, in order.
pub open spec fn without_key(records: Seq<ApiKeyRecord>, user_id: u128, key_id: u128) -> Seq<
    ApiKeyRecord,
>
    decreases records.len(),
{
    if records.len() == 0 {
        Seq::empty()
    } else if is_key_of(records.last(), user_id, key_id) {
        without_key(records.drop_last(), user_id, key_id)
    } else {
        without_key(records.drop_last(), user_id, key_id).push(records.last())
    }
}

/// Deletes an API key of a user. A key of that identifier that belongs to
/// another user is not touched. Where the user has no such key, nothing
/// changes and the request is refused as `not_found`.
pub fn delete_api_key(records: &mut Vec<ApiKeyRecord>, user_id: u128, key_id: u128) -> (r: Result<
    (),
    ApiFailure,
>)
    ensures
        final(records)@ == without_key(old(records)@, user_id, key_id),
        match r {
            Ok(()) => final(records)@.len() < old(records)@.len(),
            Err(f) => final(records)@ == old(records)@ && f@ == failure(
                404,
                "API key not found"@,
                "not_found"@,
            ),
        },
{
    let ghost all = records@;
    let ghost mut seen: int = 0;
    let before = records.len();
    let mut i: usize = 0;
    assert(without_key(all.take(0), user_id, key_id) + all.skip(0) =~= all);
    while i < records.len()
        invariant
            all == old(records)@,
            0 <= seen <= all.len(),
            i == without_key(all.take(seen), user_id, key_id).len(),
            i <= seen,
            records@ == without_key(all.take(seen), user_id, key_id) + all.skip(seen),
            i == seen ==> records@ == all,
        decreases all.len() - seen,
    {
        let ghost kept = without_key(all.take(seen), user_id, key_id);
        proof {
            assert(seen < all.len());
            assert(records@[i as int] == all[seen]);
            assert(all.take(seen + 1).drop_last() =~= all.take(seen));
            assert(all.take(seen + 1).last() == all[seen]);
        }
        if records[i].id == key_id && records[i].user_id == user_id {
            records.remove(i);
            proof {
                assert(records@ =~= kept + all.skip(seen + 1));
                seen = seen + 1;
            }
        } else {
            proof {
                assert(records@ =~= kept.push(all[seen]) + all.skip(seen + 1));
                seen = seen + 1;
            }
            i += 1;
        }
    }
    proof {
        assert(seen == all.len()) by {
            if seen < all.len() {
                assert(records@.len() == i + (all.len() - seen));
            }
        }
        assert(all.take(seen) =~= all);
        assert(records@ =~= without_key(all, user_id, key_id));
    }
    if records.len() < before {
        Ok(())
    } else {
        Err(ApiFailure::new(STATUS_NOT_FOUND, "API key not found", "not_found"))
    }
}

/// What the check of a login means for the request: a session under
/// `token` for the user that the credentials belong to, or
/// `invalid_credentials` where they belong to nobody.
pub fn login(user: Option<u128>, token: String) -> (r: Result<LoginResponse, ApiFailure>)
    ensures
        match r {
            Ok(resp) => user == Some(resp.user_id) && resp.token@ == token@,
            Err(f) => user is None && f@ == failure(
                401,
                "Invalid email or password"@,
                "invalid_credentials"@,
            ),
        },
{
    match user {
        Some(user_id) => Ok(LoginResponse { token, user_id }),
        None => Err(
            ApiFailure::new(
                STATUS_UNAUTHORIZED,
                "Invalid email or password",
                "invalid_credentials",
            ),
        ),
    }
}

/// What the creation of a user means for the request: a session under
/// `token` for the new user; or `email_exists` where the store reports a
/// breach of uniqueness; or `auth_error` for any other failure.
pub fn register(created: Result<u128, String>, token: String) -> (r: Result<
    LoginResponse,
    ApiFailure,
>)
    ensures
        match created {
            Ok(user_id) => r is Ok && r->Ok_0.user_id == user_id && r->Ok_0.token@ == token@,
            Err(e) => r is Err && r->Err_0@ == if contains_text(e@, "UNIQUE"@) {
                failure(409, "Email already registered"@, "email_exists"@)
            } else {
                failure(500, "Registration failed"@, "auth_error"@)
            },
        },
{
    match created {
        Ok(user_id) => Ok(LoginResponse { token, user_id }),
        Err(e) => {
            if contains(e.as_str(), "UNIQUE") {
                Err(ApiFailure::new(STATUS_CONFLICT, "Email already registered", "email_exists"))
            } else {
                Err(
                    ApiFailure::new(
                        STATUS_INTERNAL_SERVER_ERROR,
                        "Registration failed",
                        "auth_error",
                    ),
                )
            }
        },
    }
}

} // verus!
