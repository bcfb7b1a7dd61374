use vstd::prelude::*;

use crate::errors::ApiError;
use crate::models::Claims;

verus! {

/// The bearer token that signing the claims `{sub, exp}` with `secret`
/// produces. Signing uses a keyed deterministic digest, so the token is a
/// function of the claims and the secret alone.
pub uninterp spec fn token_of(sub: Seq<char>, exp: int, secret: Seq<u8>) -> Seq<char>;

/// The decimal rendering of a natural number.
pub open spec fn spec_nat_digits(n: nat) -> Seq<char>
    decreases n,
{
    if n < 10 {
        seq![spec_digit_char(n as int)]
    } else {
        spec_nat_digits(n / 10).push(spec_digit_char((n % 10) as int))
    }
}

/// The character for one decimal digit.
pub open spec fn spec_digit_char(d: int) -> char {
    ((d + 48) as u8) as char
}

/// The decimal rendering of an integer: a minus sign for negatives, then the
/// digits of its magnitude.
pub open spec fn spec_int_string(n: int) -> Seq<char> {
    if n < 0 {
        seq!['-'] + spec_nat_digits((-n) as nat)
    } else {
        spec_nat_digits(n as nat)
    }
}

/// Relies on jsonwebtoken::encode with the default header and a plain secret
/// key: the token is the signed, dot-joined base64 rendering of the header
/// and the claims — a deterministic function of the claims and the secret,
/// never empty. In this configuration the call cannot fail: the key family
/// matches the default header's algorithm, the bundled keyed-digest signer
/// accepts a key of any length and signs infallibly, and the fixed claims
/// object always serializes.
#[verifier::external_body]
fn encode_claims(claims: &Claims, secret: &[u8]) -> (t: String)
    ensures
        t@ == token_of(claims.sub@, claims.exp as int, secret@),
        t@.len() > 0,
{
    let mut body = serde_json::Map::new();
    body.insert(String::from("sub"), serde_json::Value::String(claims.sub.clone()));
    body.insert(String::from("exp"), serde_json::Value::from(claims.exp as u64));
    jsonwebtoken::encode(
        &jsonwebtoken::Header::default(),
        &serde_json::Value::Object(body),
        &jsonwebtoken::EncodingKey::from_secret(secret),
    )
        .expect("signing with a secret key under the default header is infallible")
}

/// Relies on i32::to_string: decimal digits, with a leading minus sign for
/// negatives.
#[verifier::external_body]
pub(crate) fn render_decimal(n: i32) -> (r: String)
    ensures
        r@ == spec_int_string(n as int),
{
    n.to_string()
}

/// The fixed validity window of a bearer token, in seconds.
pub const TOKEN_VALIDITY_SECS: usize = 86400;

/// Mints a signed bearer token for `user_id`, valid for 24 hours from `now`
/// (seconds): a pure function of subject, time and secret, owed to succeed.
pub fn generate_jwt(user_id: &String, now: usize, secret: &[u8]) -> (r: Result<String, ApiError>)
    requires
        now + 86400 <= usize::MAX,
    ensures
        r matches Ok(t) && t@ == token_of(user_id@, now + 86400, secret@) && t@.len() > 0,
{
    let claims = Claims { sub: user_id.clone(), exp: now + TOKEN_VALIDITY_SECS, };
    Ok(encode_claims(&claims, secret))
}

} // verus!
