use vstd::prelude::*;

verus! {

/// The answer of the token endpoint.
#[derive(Debug, Clone)]
pub enum TokenReply {
    /// Success: set the HTTP-only cookie `name` to `value`.
    Cookie { name: String, value: String, http_only: bool },
    Unauthorized,
    InternalServerError,
}

/// The key tokens are signed with (the bytes of `secret_key`).
pub open spec fn secret_key_bytes() -> Seq<u8> {
    seq![115u8, 101u8, 99u8, 114u8, 101u8, 116u8, 95u8, 107u8, 101u8, 121u8]
}

/// The token `jsonwebtoken` issues for the claims `claims` (a JSON string
/// value) under an HS256 header and the HMAC key `key`.
pub uninterp spec fn jwt_hs256(claims: Seq<char>, key: Seq<u8>) -> Seq<char>;

/// `serde_json::to_string(&())`: the unit value is written as `null`.
#[verifier::external_body]
fn unit_to_json() -> (r: Option<String>)
    ensures
        r is Some,
        r->0@ == "null"@,
{
    serde_json::to_string(&()).ok()
}

/// `jsonwebtoken::encode` with an HS256 header and an HMAC key from the
/// secret `key`. With a key of the header's family and claims that serialize
/// (a string always does) the source never fails; the token is named by
/// `jwt_hs256`.
#[verifier::external_body]
fn encode_hs256(claims: &String, key: &[u8]) -> (r: Option<String>)
    ensures
        r is Some,
        r->0@ == jwt_hs256(claims@, key@),
{
    let header = jsonwebtoken::Header::new(jsonwebtoken::Algorithm::HS256);
    jsonwebtoken::encode(&header, claims, &jsonwebtoken::EncodingKey::from_secret(key)).ok()
}

fn secret_key() -> (r: Vec<u8>)
    ensures
        r@ == secret_key_bytes(),
{
    let r = vec![115u8, 101u8, 99u8, 114u8, 101u8, 116u8, 95u8, 107u8, 101u8, 121u8];
    assert(r@ =~= secret_key_bytes());
    r
}

/// The answer of the token endpoint, given the verdict on the credentials:
/// refused credentials are unauthorized; accepted ones get the token signed
/// over the JSON of the verdict's value (`null`) in the cookie `JWT`.
pub fn create_token(verified: Result<(), String>) -> (r: TokenReply)
    ensures
        verified is Err ==> r is Unauthorized,
        verified is Ok ==> (r matches TokenReply::Cookie { name, value, http_only } && name@
            == "JWT"@ && value@ == jwt_hs256("null"@, secret_key_bytes()) && http_only),
{
    match verified {
        Ok(user) => match unit_to_json() {
            Some(user_json) => {
                let key = secret_key();
                match encode_hs256(&user_json, key.as_slice()) {
                    Some(token) => TokenReply::Cookie {
                        name: String::from_str("JWT"),
                        value: token,
                        http_only: true,
                    },
                    None => TokenReply::InternalServerError,
                }
            },
            None => TokenReply::Unauthorized,
        },
        Err(_) => TokenReply::Unauthorized,
    }
}

} // verus!
