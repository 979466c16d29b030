//! Password hashing, bearer tokens, and the identity check made for each
//! request.

use vstd::prelude::*;
use vstd::string::StrSliceExecFns;
use crate::error::AppError;
use crate::error::ErrorView;
use crate::ident::Id;
use crate::text::ascii_lower;
use crate::text::char_eq_ignore_ascii_case;
use crate::text::chars_of;
use crate::text::eq_ignore_ascii_case;
use crate::text::utf8_len;

verus! {

/// Most bytes that a password may take for Argon2 to hash it.
pub const MAX_PASSWORD_BYTES: u64 = 0xFFFF_FFFF;

/// Seconds for which a token is valid after it was issued.
pub const TOKEN_LIFETIME_SECS: i64 = 86400;

/// What a token asserts: its subject, and the second after which it is void.
#[derive(Clone, Debug, PartialEq, Eq)]
pub struct Claims {
    pub sub: String,
    pub exp: usize,
}

/// `Claims` as contracts see them.
pub struct ClaimsView {
    pub sub: Seq<char>,
    pub exp: nat,
}

impl View for Claims {
    type V = ClaimsView;

    open spec fn view(&self) -> ClaimsView {
        ClaimsView { sub: self.sub@, exp: self.exp as nat }
    }
}

/// Whether `hash` begins with the `$` that every encoded hash begins with.
pub open spec fn has_hash_prefix(hash: Seq<char>) -> bool {
    hash.len() > 0 && hash[0] == '$'
}

/// What every encoded hash begins with: the algorithm, its version and its
/// parameters, each after a `$`, and the `$` before the salt.
pub open spec fn hash_header() -> Seq<char> {
    "$argon2id$v=19$m=19456,t=2,p=1$"@
}

/// Whether `hash` is an encoded hash made under `salt`: the header, the
/// salt, a `$` and a digest.
pub open spec fn is_encoded_under(hash: Seq<char>, salt: Seq<char>) -> bool {
    exists|digest: Seq<char>| hash == #[trigger] (hash_header() + salt + "$"@ + digest)
}

/// Whether `c` may stand in a salt: a letter, a digit, or one of `/`, `+`,
/// `.` and `-`.
pub open spec fn is_salt_char(c: char) -> bool {
    ||| 'a' <= c <= 'z'
    ||| 'A' <= c <= 'Z'
    ||| '0' <= c <= '9'
    ||| c == '/'
    ||| c == '+'
    ||| c == '.'
    ||| c == '-'
}

/// Whether `salt` is between 4 and 64 characters that may stand in a salt.
pub open spec fn is_salt_text(salt: Seq<char>) -> bool {
    &&& 4 <= salt.len() <= 64
    &&& forall|i: int| 0 <= i < salt.len() ==> is_salt_char(#[trigger] salt[i])
}

/// Whether `c` is one of the 64 characters of base64: a letter, a digit, `+`
/// or `/`.
pub open spec fn is_base64_char(c: char) -> bool {
    ||| 'a' <= c <= 'z'
    ||| 'A' <= c <= 'Z'
    ||| '0' <= c <= '9'
    ||| c == '+'
    ||| c == '/'
}

/// Whether `salt` is what 16 bytes are written as in base64 without padding:
/// 22 characters, of which the last carries two bits only and so is one of
/// `A`, `Q`, `g` and `w`.
pub open spec fn is_salt_of_16_bytes(salt: Seq<char>) -> bool {
    &&& salt.len() == 22
    &&& forall|i: int| 0 <= i < salt.len() ==> is_base64_char(#[trigger] salt[i])
    &&& (salt[21] == 'A' || salt[21] == 'Q' || salt[21] == 'g' || salt[21] == 'w')
}

/// Whether Argon2 hashes `password` under `salt` for sure: the salt is one of
/// 16 bytes and the password is within the limit.
pub open spec fn is_hashable(password: Seq<char>, salt: Seq<char>) -> bool {
    is_salt_of_16_bytes(salt) && utf8_len(password) <= MAX_PASSWORD_BYTES
}

/// Whether `token` holds two `.`, as the three parts of a token need.
pub open spec fn has_two_dots(token: Seq<char>) -> bool {
    exists|i: int, j: int| 0 <= i < j < token.len() && token[i] == '.' && token[j] == '.'
}

/// Why a token was not accepted.
#[derive(Clone, Copy, Debug, PartialEq, Eq, Structural)]
pub enum TokenError {
    /// The text is no well-formed token.
    Malformed,
    /// The signature does not match.
    BadSignature,
    /// The token's expiry lies in the past.
    Expired,
    /// The subject is no user identifier.
    InvalidSubject,
}

/// What decoding a token's text gives, before its claims are judged.
#[derive(Clone, Debug, PartialEq, Eq)]
pub enum Decoded {
    /// The signature matches. `sub` is the claim of that name where it is
    /// text, `exp` the claim of that name where it is an unsigned integer.
    Payload { sub: Option<String>, exp: Option<u64> },
    /// The signature does not match.
    BadSignature,
    /// The text cannot be read as a token.
    Malformed,
}

/// `Decoded` as contracts see it.
pub enum DecodedView {
    Payload { sub: Option<Seq<char>>, exp: Option<u64> },
    BadSignature,
    Malformed,
}

impl View for Decoded {
    type V = DecodedView;

    open spec fn view(&self) -> DecodedView {
        match self {
            Decoded::Payload { sub, exp } => DecodedView::Payload {
                sub: sub.deep_view(),
                exp: *exp,
            },
            Decoded::BadSignature => DecodedView::BadSignature,
            Decoded::Malformed => DecodedView::Malformed,
        }
    }
}

/// The encoded hash that Argon2 with its default parameters computes of
/// `password` under the salt `salt`, or `None` where it computes none.
pub uninterp spec fn argon2_hashed(password: Seq<char>, salt: Seq<char>) -> Option<Seq<char>>;

/// Whether Argon2 finds that `password` reproduces the digest in the encoded
/// hash `hash`, under the parameters and the salt that `hash` holds.
pub uninterp spec fn argon2_matches(hash: Seq<char>, password: Seq<char>) -> bool;

/// The token that `jsonwebtoken` signs with `secret` for the claims `sub` and
/// `exp`, or `None` where it signs none.
pub uninterp spec fn jwt_encoded(secret: Seq<char>, sub: Seq<char>, exp: nat) -> Option<Seq<char>>;

/// What `jsonwebtoken` reads from `token` under `secret` when it does not
/// judge the expiry.
pub uninterp spec fn jwt_decoded(secret: Seq<char>, token: Seq<char>) -> DecodedView;

/// Calls `argon2::password_hash::SaltString::generate` with the operating
/// system's random number generator, which draws 16 bytes and writes them in
/// base64 without padding. The contract claims that form of the salt and
/// nothing of the bytes. The call unwinds where the operating system gives no
/// random bytes; no argument decides that.
#[verifier::external_body]
fn random_salt() -> (r: String)
    ensures
        is_salt_of_16_bytes(r@),
{
    argon2::password_hash::SaltString::generate(
        &mut argon2::password_hash::rand_core::OsRng,
    ).as_str().to_string()
}

/// Calls `argon2::PasswordHasher::hash_password` on `Argon2::default()` with
/// the salt parsed by `SaltString::from_b64`, and writes the hash in its
/// encoded form. The result is named. The contract also claims which salts
/// the parser lets through (4 to 64 characters out of letters, digits, `/`,
/// `+`, `.` and `-`), how the encoded form is written (`$argon2id`, `$v=19`,
/// `$m=19456,t=2,p=1`, `$` and the salt as given, `$` and the digest), and
/// that the password matches the hash it was given for: verification
/// recomputes the digest from the parameters and the salt that the encoded
/// hash carries. It claims last when a hash is given: for a salt of 16 bytes
/// every step succeeds but the check of the password's length, which refuses
/// a password of more than `MAX_PASSWORD_BYTES` bytes under any salt.
#[verifier::external_body]
fn argon2_hash(password: &str, salt: &str) -> (r: Option<String>)
    ensures
        r.deep_view() == argon2_hashed(password@, salt@),
        is_hashable(password@, salt@) ==> r is Some,
        utf8_len(password@) > MAX_PASSWORD_BYTES ==> r is None,
        r is Some ==> is_salt_text(salt@),
        r matches Some(h) ==> is_encoded_under(h@, salt@),
        r matches Some(h) ==> argon2_matches(h@, password@),
{
    let salt = argon2::password_hash::SaltString::from_b64(salt).ok()?;
    let hasher = argon2::Argon2::default();
    let hash = argon2::PasswordHasher::hash_password(&hasher, password.as_bytes(), &salt).ok()?;
    Some(hash.to_string())
}

/// Calls `argon2::PasswordHash::new` on `hash` and, where that parses,
/// `argon2::PasswordVerifier::verify_password` on `Argon2::default()`; a hash
/// that does not parse gives `false`. The result is named. The contract also
/// claims what the parser's first lines show: text that is empty or begins
/// with anything but `$` does not parse.
#[verifier::external_body]
fn argon2_verify(hash: &str, password: &str) -> (ok: bool)
    ensures
        ok == argon2_matches(hash@, password@),
        !has_hash_prefix(hash@) ==> !ok,
{
    match argon2::PasswordHash::new(hash) {
        Ok(parsed) => argon2::PasswordVerifier::verify_password(
            &argon2::Argon2::default(),
            password.as_bytes(),
            &parsed,
        ).is_ok(),
        Err(_) => false,
    }
}

/// Calls `jsonwebtoken::encode` with the default header (HS256), a JSON object
/// of the two claims `sub` and `exp`, and `secret` as the HMAC key. The result
/// is named. The contract also claims that a token comes back (the key is of
/// the header's family, an object of text and a number is written as JSON
/// without fail, and so is an HMAC computed), and that decoding the token
/// under the same secret gives the two claims back: the signature is
/// recomputed from the same bytes, and the object is read as it was written.
#[verifier::external_body]
fn jwt_encode(secret: &str, claims: &Claims) -> (r: Option<String>)
    ensures
        r.deep_view() == jwt_encoded(secret@, claims@.sub, claims@.exp),
        r is Some,
        r matches Some(t) ==> jwt_decoded(secret@, t@) == (DecodedView::Payload {
            sub: Some(claims@.sub),
            exp: Some(claims.exp as u64),
        }),
{
    let mut object = serde_json::Map::new();
    object.insert("sub".to_string(), serde_json::Value::from(claims.sub.as_str()));
    object.insert("exp".to_string(), serde_json::Value::from(claims.exp as u64));
    let key = jsonwebtoken::EncodingKey::from_secret(secret.as_bytes());
    jsonwebtoken::encode(&jsonwebtoken::Header::default(), &object, &key).ok()
}

/// Calls `jsonwebtoken::decode` with `secret` as the HMAC key and the default
/// validation (HS256, the claim `exp` required) but for the expiry check,
/// which is switched off, so that the result depends on the arguments alone.
/// The error kind `InvalidSignature` becomes `BadSignature`, every other
/// error `Malformed`. The result is named. The contract also claims what the
/// splitting of the token shows: text with fewer than two `.` is refused as
/// no token before anything else is looked at.
#[verifier::external_body]
fn jwt_decode(secret: &str, token: &str) -> (r: Decoded)
    ensures
        r@ == jwt_decoded(secret@, token@),
        !has_two_dots(token@) ==> r@ == DecodedView::Malformed,
{
    let key = jsonwebtoken::DecodingKey::from_secret(secret.as_bytes());
    let mut validation = jsonwebtoken::Validation::default();
    validation.validate_exp = false;
    match jsonwebtoken::decode::<serde_json::Value>(token, &key, &validation) {
        Ok(data) => Decoded::Payload {
            sub: data.claims.get("sub").and_then(serde_json::Value::as_str).map(str::to_string),
            exp: data.claims.get("exp").and_then(serde_json::Value::as_u64),
        },
        Err(e) => match e.kind() {
            jsonwebtoken::errors::ErrorKind::InvalidSignature => Decoded::BadSignature,
            _ => Decoded::Malformed,
        },
    }
}

/// Calls `chrono::Utc::now` and takes its `timestamp`: the seconds since the
/// Unix epoch. The contract claims that they are not negative: `now` builds
/// the time from how long ago the epoch was. The call unwinds where the clock
/// stands before the epoch; no argument decides that.
#[verifier::external_body]
pub(crate) fn unix_now() -> (r: i64)
    ensures
        0 <= r,
{
    chrono::Utc::now().timestamp()
}

/// Whether `hash` is what Argon2 computes of `password` under some salt.
pub open spec fn is_hash_of(hash: Seq<char>, password: Seq<char>) -> bool {
    exists|salt: Seq<char>| argon2_hashed(password, salt) == Some(hash)
}

/// What hashing `password` under `salt` gives: the hash that Argon2 computes
/// of the two, unless it computes none or, against all odds, the password
/// itself.
pub open spec fn hash_under(password: Seq<char>, salt: Seq<char>) -> Option<Seq<char>> {
    match argon2_hashed(password, salt) {
        Some(hash) => if hash == password {
            None
        } else {
            Some(hash)
        },
        None => None,
    }
}

/// Whether `r` is what hashing `password` under `salt` gives, and, where
/// that is a hash, one that holds algorithm, parameters, that salt and a
/// digest, and against which the password verifies. Argon2 computes a hash
/// wherever the salt is one of 16 bytes and the password within the limit,
/// and none for a password beyond it.
pub open spec fn is_hash_under(
    r: Option<Seq<char>>,
    password: Seq<char>,
    salt: Seq<char>,
) -> bool {
    &&& r == hash_under(password, salt)
    &&& is_hashable(password, salt) ==> argon2_hashed(password, salt) is Some
    &&& utf8_len(password) > MAX_PASSWORD_BYTES ==> argon2_hashed(password, salt) is None
    &&& r matches Some(hash) ==> {
        &&& is_salt_text(salt)
        &&& is_encoded_under(hash, salt)
        &&& argon2_matches(hash, password)
    }
}

/// Two hashes made under different salts differ, whatever was hashed: each
/// holds its salt between the header and the next `$`, and no salt holds a
/// `$`.
pub proof fn lemma_hashes_under_different_salts_differ(
    first: Seq<char>,
    first_password: Seq<char>,
    first_salt: Seq<char>,
    second: Seq<char>,
    second_password: Seq<char>,
    second_salt: Seq<char>,
)
    requires
        is_hash_under(Some(first), first_password, first_salt),
        is_hash_under(Some(second), second_password, second_salt),
        first_salt != second_salt,
    ensures
        first != second,
{
    if first == second {
        let d1 = choose|digest: Seq<char>|
            first == #[trigger] (hash_header() + first_salt + "$"@ + digest);
        let d2 = choose|digest: Seq<char>|
            second == #[trigger] (hash_header() + second_salt + "$"@ + digest);
        reveal_strlit("$");
        let h = hash_header().len() as int;
        let a = hash_header() + first_salt + "$"@ + d1;
        let b = hash_header() + second_salt + "$"@ + d2;
        assert(a == b);
        let n1 = first_salt.len() as int;
        let n2 = second_salt.len() as int;
        assert(a[h + n1] == '$');
        assert(b[h + n2] == '$');
        if n1 < n2 {
            assert(b[h + n1] == second_salt[n1]);
            assert(is_salt_char(second_salt[n1]));
        } else if n2 < n1 {
            assert(a[h + n2] == first_salt[n2]);
            assert(is_salt_char(first_salt[n2]));
        } else {
            assert forall|i: int| 0 <= i < n1 implies first_salt[i] == second_salt[i] by {
                assert(a[h + i] == first_salt[i]);
                assert(b[h + i] == second_salt[i]);
            }
            assert(first_salt =~= second_salt);
        }
    }
}

/// Hashes `password` with Argon2 under `salt`. The result holds algorithm,
/// parameters, the salt and a digest, the password verifies against it, and
/// it is not the password. A hash is given wherever the salt is one of 16
/// bytes and the password within the limit, unless that hash is the password
/// itself. `None` where Argon2 computes no hash, as for text that is no salt.
pub fn hash_password_with_salt(password: &str, salt: &str) -> (r: Option<String>)
    ensures
        is_hash_under(r.deep_view(), password@, salt@),
{
    match argon2_hash(password, salt) {
        Some(hash) => {
            let given = password.to_owned();
            if hash == given {
                None
            } else {
                Some(hash)
            }
        },
        None => None,
    }
}

/// Hashes `password` with Argon2 under a fresh random salt of 16 bytes. The
/// result is what hashing the password under that salt gives: a text that
/// holds algorithm, parameters, salt and digest, against which the password
/// verifies and which is not the password. A hash is owed for every password
/// within the limit; none comes back only for a password beyond it, or where
/// the hash drawn is the password itself.
pub fn hash_password(password: &str) -> (r: Option<String>)
    ensures
        exists|salt: Seq<char>|
            is_salt_of_16_bytes(salt) && #[trigger] is_hash_under(r.deep_view(), password@, salt),
        r matches Some(h) ==> {
            &&& is_hash_of(h@, password@)
            &&& argon2_matches(h@, password@)
            &&& h@ != password@
        },
        utf8_len(password@) > MAX_PASSWORD_BYTES ==> r is None,
        r is None ==> utf8_len(password@) > MAX_PASSWORD_BYTES || is_hash_of(password@, password@),
{
    let salt = random_salt();
    let r = hash_password_with_salt(password, salt.as_str());
    assert(is_hash_under(r.deep_view(), password@, salt@));
    r
}

/// Tells whether `password` reproduces the digest in `hash`. Text that is no
/// encoded hash gives `false`.
pub fn verify_password(hash: &str, password: &str) -> (ok: bool)
    ensures
        ok == argon2_matches(hash@, password@),
        !has_hash_prefix(hash@) ==> !ok,
{
    argon2_verify(hash, password)
}

/// The expiry of a token issued at `now`, where it can be written.
pub open spec fn expiry_for(now: i64) -> Option<usize> {
    if 0 <= now + TOKEN_LIFETIME_SECS <= usize::MAX {
        Some((now + TOKEN_LIFETIME_SECS) as usize)
    } else {
        None
    }
}

/// The token issued at `now` to `user_id` under `secret`, where one is.
pub open spec fn issued_token(user_id: Id, secret: Seq<char>, now: i64) -> Option<Seq<char>> {
    match expiry_for(now) {
        Some(exp) => jwt_encoded(secret, user_id.text(), exp as nat),
        None => None,
    }
}

/// The claims that a decoded token is accepted with at `now`, or the reason
/// for which it is not.
pub open spec fn checked_claims(decoded: DecodedView, now: i64) -> Result<ClaimsView, TokenError> {
    match decoded {
        DecodedView::Malformed => Err(TokenError::Malformed),
        DecodedView::BadSignature => Err(TokenError::BadSignature),
        DecodedView::Payload { sub: Some(sub), exp: Some(exp) } => {
            if exp > usize::MAX {
                Err(TokenError::Malformed)
            } else if exp < now {
                Err(TokenError::Expired)
            } else {
                Ok(ClaimsView { sub, exp: exp as nat })
            }
        },
        DecodedView::Payload { .. } => Err(TokenError::Malformed),
    }
}

/// The user that a decoded token speaks for at `now`, or the reason for
/// which it is not accepted.
pub open spec fn token_subject(decoded: DecodedView, now: i64) -> Result<Id, TokenError> {
    match checked_claims(decoded, now) {
        Ok(claims) => match Id::parsed(claims.sub) {
            Some(id) => Ok(id),
            None => Err(TokenError::InvalidSubject),
        },
        Err(e) => Err(e),
    }
}

/// The token carried by the value of an `Authorization` header: what follows
/// the scheme `Bearer`, written in any case, and one space, if anything does.
pub open spec fn bearer_token(value: Seq<char>) -> Option<Seq<char>> {
    if value.len() > 7 && eq_ignore_ascii_case(value.take(6), "bearer"@) && value[6] == ' ' {
        Some(value.skip(7))
    } else {
        None
    }
}

/// The user that a request is made for, given the value of its
/// `Authorization` header, or `None` where the request is to be rejected.
pub open spec fn request_identity(
    header_value: Option<Seq<char>>,
    secret: Seq<char>,
    now: i64,
) -> Option<Id> {
    match header_value {
        Some(value) => match bearer_token(value) {
            Some(token) => match token_subject(jwt_decoded(secret, token), now) {
                Ok(id) => Some(id),
                Err(_) => None,
            },
            None => None,
        },
        None => None,
    }
}

/// `r` with its claims seen as contracts see them.
pub open spec fn claims_result_view(r: Result<Claims, TokenError>) -> Result<
    ClaimsView,
    TokenError,
> {
    match r {
        Ok(claims) => Ok(claims@),
        Err(e) => Err(e),
    }
}

/// Whether `token` verifies under `secret` at every time up to `deadline`
/// and speaks for `user_id`.
pub open spec fn verifies_until(
    secret: Seq<char>,
    token: Seq<char>,
    user_id: Id,
    deadline: int,
) -> bool {
    forall|at: i64|
        at <= deadline ==> #[trigger] token_subject(jwt_decoded(secret, token), at) == Ok::<
            Id,
            TokenError,
        >(user_id)
}

/// Whether `token` is refused under `secret` as expired at every time after
/// `deadline`.
pub open spec fn expired_after(secret: Seq<char>, token: Seq<char>, deadline: int) -> bool {
    forall|at: i64|
        at > deadline ==> #[trigger] token_subject(jwt_decoded(secret, token), at) == Err::<
            Id,
            TokenError,
        >(TokenError::Expired)
}

/// Whether `r` is what issuing a token to `user_id` under `secret` at `now`
/// gives: a token wherever the expiry can be written, and then the token that
/// carries the user's text as subject and the time a day after `now` as
/// expiry, verifies until then and is expired afterwards.
pub open spec fn is_issued_at(
    r: Option<Seq<char>>,
    user_id: Id,
    secret: Seq<char>,
    now: i64,
) -> bool {
    &&& r == issued_token(user_id, secret, now)
    &&& r is Some <==> expiry_for(now) is Some
    &&& r matches Some(token) ==> {
        &&& jwt_decoded(secret, token) == (DecodedView::Payload {
            sub: Some(user_id.text()),
            exp: Some((now + TOKEN_LIFETIME_SECS) as u64),
        })
        &&& verifies_until(secret, token, user_id, now + TOKEN_LIFETIME_SECS)
        &&& expired_after(secret, token, now + TOKEN_LIFETIME_SECS)
    }
}

/// Issues a token for `user_id` that expires `TOKEN_LIFETIME_SECS` seconds
/// after `now`. A token is issued wherever that time can be written. Until
/// then the token verifies under the same secret and gives `user_id` back;
/// afterwards it is expired.
pub fn generate_jwt_at(user_id: Id, secret: &str, now: i64) -> (r: Option<String>)
    ensures
        is_issued_at(r.deep_view(), user_id, secret@, now),
{
    let expiry: u64 = if now >= 0 {
        now as u64 + TOKEN_LIFETIME_SECS as u64
    } else if now + TOKEN_LIFETIME_SECS >= 0 {
        (now + TOKEN_LIFETIME_SECS) as u64
    } else {
        return None;
    };
    if expiry > usize::MAX as u64 {
        return None;
    }
    let claims = Claims { sub: user_id.to_text(), exp: expiry as usize };
    jwt_encode(secret, &claims)
}

/// Issues a token for `user_id` that expires `TOKEN_LIFETIME_SECS` seconds
/// from now, the time being one since the epoch. Until then the token
/// verifies under the same secret and gives `user_id` back; afterwards it is
/// expired.
pub fn generate_jwt(user_id: Id, secret: &str) -> (r: Option<String>)
    ensures
        exists|now: i64|
            0 <= now && #[trigger] is_issued_at(r.deep_view(), user_id, secret@, now),
{
    let now = unix_now();
    let r = generate_jwt_at(user_id, secret, now);
    assert(is_issued_at(r.deep_view(), user_id, secret@, now));
    r
}

/// Judges what decoding gave: first the shape, then the signature, then the
/// expiry against `now`.
pub fn check_claims(decoded: Decoded, now: i64) -> (r: Result<Claims, TokenError>)
    ensures
        claims_result_view(r) == checked_claims(decoded@, now),
{
    match decoded {
        Decoded::Malformed => Err(TokenError::Malformed),
        Decoded::BadSignature => Err(TokenError::BadSignature),
        Decoded::Payload { sub: Some(sub), exp: Some(exp) } => {
            if exp > usize::MAX as u64 {
                Err(TokenError::Malformed)
            } else if now > 0 && exp < now as u64 {
                Err(TokenError::Expired)
            } else {
                Ok(Claims { sub, exp: exp as usize })
            }
        },
        Decoded::Payload { .. } => Err(TokenError::Malformed),
    }
}

/// A token with a matching signature whose expiry lies before `now` is
/// refused as expired, whatever its subject.
pub proof fn lemma_expired_token_is_refused(
    secret: Seq<char>,
    token: Seq<char>,
    sub: Seq<char>,
    exp: usize,
    now: i64,
)
    requires
        jwt_decoded(secret, token) == (DecodedView::Payload {
            sub: Some(sub),
            exp: Some(exp as u64),
        }),
        exp < now,
    ensures
        token_subject(jwt_decoded(secret, token), now) == Err::<Id, TokenError>(
            TokenError::Expired,
        ),
{
}

/// Reads the user identifier that a token's subject holds.
pub fn parse_subject(claims: &Claims) -> (r: Result<Id, TokenError>)
    ensures
        r == match Id::parsed(claims@.sub) {
            Some(id) => Ok::<Id, TokenError>(id),
            None => Err::<Id, TokenError>(TokenError::InvalidSubject),
        },
{
    match Id::parse(claims.sub.as_str()) {
        Some(id) => Ok(id),
        None => Err(TokenError::InvalidSubject),
    }
}

/// Verifies `token` under `secret` at the time `now` and gives the user it
/// speaks for.
pub fn verify_jwt_at(token: &str, secret: &str, now: i64) -> (r: Result<Id, TokenError>)
    ensures
        r == token_subject(jwt_decoded(secret@, token@), now),
        !has_two_dots(token@) ==> r == Err::<Id, TokenError>(TokenError::Malformed),
{
    let decoded = jwt_decode(secret, token);
    match check_claims(decoded, now) {
        Ok(claims) => parse_subject(&claims),
        Err(e) => Err(e),
    }
}

/// Verifies `token` under `secret` at the current time, which is one since
/// the epoch.
pub fn verify_jwt(token: &str, secret: &str) -> (r: Result<Id, TokenError>)
    ensures
        exists|now: i64|
            0 <= now && r == #[trigger] token_subject(jwt_decoded(secret@, token@), now),
        !has_two_dots(token@) ==> r == Err::<Id, TokenError>(TokenError::Malformed),
{
    let now = unix_now();
    let r = verify_jwt_at(token, secret, now);
    assert(r == token_subject(jwt_decoded(secret@, token@), now));
    r
}

/// Takes the token out of the value of an `Authorization` header.
pub fn extract_bearer_token(header_value: Option<&str>) -> (r: Option<String>)
    ensures
        r.deep_view() == match header_value {
            Some(value) => bearer_token(value@),
            None => None::<Seq<char>>,
        },
{
    let value = match header_value {
        Some(value) => value,
        None => { return None; },
    };
    let chars = chars_of(value);
    let scheme = chars_of("bearer");
    proof {
        reveal_strlit("bearer");
    }
    let n = chars.len();
    if n <= 7 {
        return None;
    }
    let mut i: usize = 0;
    while i < 6
        invariant
            i <= 6,
            n > 7,
            n == chars.len(),
            header_value == Some(value),
            chars@ == value@,
            scheme@ == "bearer"@,
            scheme@.len() == 6,
            forall|j: int| 0 <= j < i ==> ascii_lower(#[trigger] value@.take(6)[j])
                == ascii_lower("bearer"@[j]),
        decreases 6 - i,
    {
        if !char_eq_ignore_ascii_case(chars[i], scheme[i]) {
            assert(ascii_lower(value@.take(6)[i as int]) != ascii_lower(
                "bearer"@[i as int],
            ));
            return None;
        }
        assert(value@.take(6)[i as int] == chars@[i as int]);
        i = i + 1;
    }
    if chars[6] != ' ' {
        return None;
    }
    let token = value.substring_char(7, n);
    assert(value@.subrange(7, n as int) == value@.skip(7));
    Some(token.to_owned())
}

/// Whether `r` is the answer of the identity check for a request made by
/// `identity`: that user, or the one rejection that every failure ends in,
/// whatever its cause.
pub open spec fn is_identity_reply(r: Result<Id, AppError>, identity: Option<Id>) -> bool {
    match identity {
        Some(id) => r == Ok::<Id, AppError>(id),
        None => r is Err && r->Err_0@ == ErrorView::Unauthorized("Unauthorized"@),
    }
}

/// The identity check made for a request at the time `now`: the user that the
/// request's token speaks for, or a rejection that does not tell why.
pub fn auth_middleware_at(header_value: Option<&str>, secret: &str, now: i64) -> (r: Result<
    Id,
    AppError,
>)
    ensures
        is_identity_reply(r, request_identity(header_value.deep_view(), secret@, now)),
{
    let token = match extract_bearer_token(header_value) {
        Some(token) => token,
        None => { return Err(AppError::unauthorized("Unauthorized")); },
    };
    match verify_jwt_at(token.as_str(), secret, now) {
        Ok(id) => Ok(id),
        Err(_) => Err(AppError::unauthorized("Unauthorized")),
    }
}

/// The identity check made for a request at the current time, which is one
/// since the epoch.
pub fn auth_middleware(header_value: Option<&str>, secret: &str) -> (r: Result<Id, AppError>)
    ensures
        exists|now: i64|
            0 <= now && is_identity_reply(
                r,
                #[trigger] request_identity(header_value.deep_view(), secret@, now),
            ),
{
    let now = unix_now();
    let r = auth_middleware_at(header_value, secret, now);
    assert(is_identity_reply(r, request_identity(header_value.deep_view(), secret@, now)));
    r
}

} // verus!
