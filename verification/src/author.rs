//! The credential service: password digests, and tokens that bind a user id
//! under a keyed message-authentication code.

use crate::error::{invalid_token_text, signing_error_text, Error};
use hmac::{Hmac, Mac};
use jwt::{AlgorithmType, Header, SignWithKey, Token, VerifyWithKey};
use serde_json::Value;
use sha2::{Digest, Sha384};
use std::collections::BTreeMap;
use vstd::prelude::*;

verus! {

/// The SHA-384 digest of the UTF-8 bytes of `text`, in lower-case hexadecimal.
pub uninterp spec fn sha384_hex(text: Seq<char>) -> Seq<char>;

/// The HS384 token that the `jwt` crate signs for the single claim `claim`
/// with the value `value`, under the key `secret`.
pub uninterp spec fn hs384_token(secret: Seq<u8>, claim: Seq<char>, value: i32) -> Seq<char>;

/// What the `jwt` crate makes of `token` under the key `secret`: `None` where it
/// refuses the token, else the value of the claim `claim`, if the token
/// carries that claim with an integer that fits 64 bits.
pub uninterp spec fn hs384_claim(secret: Seq<u8>, token: Seq<char>, claim: Seq<char>) -> Option<
    Option<i64>,
>;

/// The name of the claim that holds the user id.
pub open spec fn uid_claim() -> Seq<char> {
    "uid"@
}

/// The user id that a verification outcome proves: the token must have been
/// accepted and must carry the claim with a value that fits a user id.
pub open spec fn claim_of(outcome: Option<Option<i64>>) -> Option<i32> {
    match outcome {
        Some(Some(value)) => if i32::MIN <= value <= i32::MAX {
            Some(value as i32)
        } else {
            None
        },
        _ => None,
    }
}

/// The user id that `token` proves under the key `secret`, if it proves one.
pub open spec fn token_claim(secret: Seq<u8>, token: Seq<char>) -> Option<i32> {
    claim_of(hs384_claim(secret, token, uid_claim()))
}

/// Calls `sha2::Sha384::digest` on the bytes of `text` and formats the digest
/// with `{:x}`. Trusted: the result is the name `sha384_hex` at `text`.
#[verifier::external_body]
pub(crate) fn sha384_hex_of(text: &str) -> (digest: String)
    ensures
        digest@ == sha384_hex(text@),
{
    format!("{:x}", Sha384::digest(text.as_bytes()))
}

/// Calls `jwt::SignWithKey::sign_with_key` on a token with an HS384 header and
/// the single claim `claim` with the value `value`, under the key that
/// `hmac::Hmac::new_from_slice` makes of `secret`. Trusted: neither call
/// fails, whatever the key's length, the claim's name and the value; the token
/// is the name `hs384_token` at the arguments and is not empty; and the
/// crate's verification under the same key accepts it and reads the same
/// value of the claim from it.
#[verifier::external_body]
fn hs384_sign(secret: &[u8], claim: &str, value: i32) -> (signed: Option<String>)
    ensures
        signed is Some,
        signed matches Some(token) ==> token@ == hs384_token(secret@, claim@, value),
        signed matches Some(token) ==> token@.len() > 0,
        signed matches Some(token) ==> hs384_claim(secret@, token@, claim@) == Some(
            Some(value as i64),
        ),
{
    let key: Hmac<Sha384> = Hmac::new_from_slice(secret).ok()?;
    let header = Header { algorithm: AlgorithmType::Hs384, ..Default::default() };
    let mut claims = BTreeMap::new();
    claims.insert(claim, value);
    let token = Token::new(header, claims).sign_with_key(&key).ok()?;
    Some(token.as_str().to_owned())
}

/// Calls `jwt::VerifyWithKey::verify_with_key` on `token`, under the key that
/// `hmac::Hmac::new_from_slice` makes of `secret`, reads the claims as a map of
/// JSON values, and picks the claim `claim` with `serde_json::Value::as_i64`;
/// an error of the first two gives `None`. Trusted: the outcome is the name
/// `hs384_claim` at the arguments.
#[verifier::external_body]
fn hs384_verify(secret: &[u8], token: &str, claim: &str) -> (outcome: Option<Option<i64>>)
    ensures
        outcome == hs384_claim(secret@, token@, claim@),
{
    let key: Hmac<Sha384> = Hmac::new_from_slice(secret).ok()?;
    let verified: Token<Header, BTreeMap<String, Value>, _> = token.verify_with_key(&key).ok()?;
    Some(verified.claims().get(claim).and_then(|value| value.as_i64()))
}

/// A credential service: what a session needs to check passwords and tokens.
pub trait Author {
    /// The digest that `hash_password` computes.
    spec fn digest(&self, pwd: Seq<char>, salt: Seq<char>) -> Seq<char>;

    /// The user id that `token` proves to this service, if it proves one.
    spec fn claim(&self, token: Seq<char>) -> Option<i32>;

    /// The service owes a token for `uid`: issuing cannot fail.
    spec fn owes_token(&self, uid: i32) -> bool;

    /// A one-way digest of the password followed by the salt.
    fn hash_password(&self, pwd: String, salt: String) -> (digest: String)
        ensures
            digest@ == self.digest(pwd@, salt@),
    ;

    /// Issues a token for `uid`. Where the service owes one, it is issued and
    /// is not empty. A token that is issued verifies back to `uid`.
    fn gen_token(&self, uid: i32) -> (issued: Result<String, Error>)
        ensures
            self.owes_token(uid) ==> (issued matches Ok(token) && token@.len() > 0),
            issued matches Ok(token) ==> self.claim(token@) == Some(uid),
            issued matches Err(e) ==> e@ == signing_error_text(),
    ;

    /// Checks `token` and returns the user id that it proves.
    fn verify(&self, token: String) -> (verified: Result<i32, Error>)
        ensures
            verified matches Ok(uid) ==> self.claim(token@) == Some(uid),
            verified matches Err(e) ==> self.claim(token@) is None && e@ == invalid_token_text(),
    ;
}

/// The claim that a token carries.
#[derive(Debug, Clone, Copy, PartialEq, Eq, Structural)]
pub struct Claim {
    pub uid: i32,
}

/// A credential service that signs tokens with HMAC-SHA-384 under one secret.
#[derive(Debug, Clone)]
pub struct JWTAuthor {
    secret: Vec<u8>,
}

impl View for JWTAuthor {
    type V = Seq<u8>;

    closed spec fn view(&self) -> Seq<u8> {
        self.secret@
    }
}

impl JWTAuthor {
    /// A service that signs and verifies under `secret`.
    pub fn new(secret: Vec<u8>) -> (author: Self)
        ensures
            author@ == secret@,
    {
        Self { secret }
    }

    /// Turns a signing outcome into the result of `gen_token`: the token where
    /// there is one, a signing error otherwise.
    pub fn issued(signed: Option<String>) -> (issued: Result<String, Error>)
        ensures
            signed matches Some(token) ==> (issued matches Ok(t) && t@ == token@),
            signed is None ==> (issued matches Err(e) && e@ == signing_error_text()),
    {
        match signed {
            Some(token) => Ok(token),
            None => Err(Error::signing()),
        }
    }

    /// Turns a verification outcome into the claim that it proves: the token
    /// must have been accepted and must carry a user id.
    pub fn claimed(outcome: Option<Option<i64>>) -> (claimed: Result<Claim, Error>)
        ensures
            claim_of(outcome) matches Some(uid) ==> claimed == Ok::<Claim, Error>(Claim { uid }),
            claim_of(outcome) is None ==> (claimed matches Err(e) && e@ == invalid_token_text()),
    {
        match outcome {
            Some(Some(value)) => {
                if -2147483648 <= value && value <= 2147483647 {
                    Ok(Claim { uid: value as i32 })
                } else {
                    Err(Error::invalid_token())
                }
            },
            _ => Err(Error::invalid_token()),
        }
    }
}

impl Author for JWTAuthor {
    open spec fn digest(&self, pwd: Seq<char>, salt: Seq<char>) -> Seq<char> {
        sha384_hex(pwd + salt)
    }

    open spec fn claim(&self, token: Seq<char>) -> Option<i32> {
        token_claim(self@, token)
    }

    open spec fn owes_token(&self, uid: i32) -> bool {
        true
    }

    fn hash_password(&self, pwd: String, salt: String) -> (digest: String) {
        let text = pwd.concat(salt.as_str());
        sha384_hex_of(text.as_str())
    }

    fn gen_token(&self, uid: i32) -> (issued: Result<String, Error>)
        ensures
            issued matches Ok(token) && token@ == hs384_token(self@, uid_claim(), uid) && token@.len()
                > 0,
    {
        Self::issued(hs384_sign(self.secret.as_slice(), "uid", uid))
    }

    fn verify(&self, token: String) -> (verified: Result<i32, Error>)
        ensures
            verified is Ok <==> token_claim(self@, token@) is Some,
    {
        match Self::claimed(hs384_verify(self.secret.as_slice(), token.as_str(), "uid")) {
            Ok(claim) => Ok(claim.uid),
            Err(e) => Err(e),
        }
    }
}

/// Issues a token for `uid` and verifies it at once. Whatever the credential
/// service, a token that it issues verifies back to the user id that it was
/// issued for; only the issuing can fail, and it does not where the service
/// owes the token.
pub fn issue_and_verify<A: Author>(author: &A, uid: i32) -> (verified: Result<i32, Error>)
    ensures
        author.owes_token(uid) ==> verified is Ok,
        verified matches Ok(id) ==> id == uid,
        verified matches Err(e) ==> e@ == signing_error_text(),
{
    match author.gen_token(uid) {
        Ok(token) => author.verify(token),
        Err(e) => Err(e),
    }
}

} // verus!
