use vstd::prelude::*;

use crate::psql::hobby_psql_model::HobbyModel;
use crate::psql::DbError;
use crate::hobby_api::SERVICE_UNAVAILABLE;
use vstd::utf8::{decode_utf8, decode_utf8_encode_utf8, encode_utf8, encode_utf8_decode_utf8, encode_utf8_valid_utf8, valid_utf8};

verus! {

#[verifier::external_type_specification]
#[verifier::external_body]
pub struct ExAnyhowError(anyhow::Error);

#[verifier::external_type_specification]
#[verifier::external_body]
pub struct ExFromUtf8Error(std::string::FromUtf8Error);

/// The plaintext that `simple_crypt::decrypt` recovers from `data` with
/// `password`, or none where it fails (data it cannot decode, or a password
/// that does not open it).
pub uninterp spec fn decrypted(data: Seq<u8>, password: Seq<u8>) -> Option<Seq<u8>>;

/// Calls `simple_crypt::decrypt`. Claimed: its result is a function of the
/// data and the password alone (decoding, key derivation and decryption
/// draw no randomness), named [`decrypted`]; it fails exactly where that
/// name gives none.
#[verifier::external_body]
fn decrypt(data: &[u8], password: &[u8]) -> (r: Result<Vec<u8>, anyhow::Error>)
    ensures
        r is Ok <==> decrypted(data@, password@) is Some,
        r matches Ok(v) ==> decrypted(data@, password@) == Some(v@),
{
    simple_crypt::decrypt(data, password)
}

/// Calls `simple_crypt::encrypt`. Claimed: where it succeeds, its output
/// decrypts with the same password to the data it was given (the salt and
/// nonce it draws at random travel inside the output, and decryption repeats
/// the key derivation on them). Which output comes back, and whether it
/// fails, is left unsaid: both rest on that random draw.
#[verifier::external_body]
fn encrypt(data: &[u8], password: &[u8]) -> (r: Result<Vec<u8>, anyhow::Error>)
    ensures
        r matches Ok(v) ==> decrypted(v@, password@) == Some(data@),
{
    simple_crypt::encrypt(data, password)
}

/// Calls `String::from_utf8`. Claimed, as std documents it: it succeeds
/// exactly on valid UTF-8, and then holds the characters those bytes encode.
#[verifier::external_body]
fn string_from_utf8(bytes: Vec<u8>) -> (r: Result<String, std::string::FromUtf8Error>)
    ensures
        r is Ok <==> valid_utf8(bytes@),
        r matches Ok(s) ==> s@ == decode_utf8(bytes@),
{
    String::from_utf8(bytes)
}

/// The hobby name carried by a decrypted token: the text its plaintext
/// encodes, or 503 where the token did not decrypt or its plaintext is not
/// UTF-8.
pub open spec fn hobby_name_of(plaintext: Option<Seq<u8>>) -> Result<Seq<char>, u16> {
    match plaintext {
        Some(b) => if valid_utf8(b) {
            Ok(decode_utf8(b))
        } else {
            Err(SERVICE_UNAVAILABLE)
        },
        None => Err(SERVICE_UNAVAILABLE),
    }
}

/// Whether a result matches [`hobby_name_of`] (the name taken as text).
pub open spec fn is_hobby_name_result(r: Result<String, u16>, expected: Result<Seq<char>, u16>) -> bool {
    match r {
        Ok(s) => expected matches Ok(t) && s@ == t,
        Err(c) => expected == Err::<Seq<char>, u16>(c),
    }
}

/// The hobby name carried by the plaintext of a decrypted token (none where
/// the token did not decrypt).
pub fn hobby_name_from_plaintext(plaintext: Option<Vec<u8>>) -> (r: Result<String, u16>)
    ensures
        is_hobby_name_result(
            r,
            hobby_name_of(
                match plaintext {
                    Some(v) => Some(v@),
                    None => None,
                },
            ),
        ),
{
    match plaintext {
        Some(bytes) => match string_from_utf8(bytes) {
            Ok(hobby_name) => Ok(hobby_name),
            Err(_) => Err(SERVICE_UNAVAILABLE),
        },
        None => Err(SERVICE_UNAVAILABLE),
    }
}

/// Whether `token` is a hobby token issued for `name` under `secret`:
/// decrypted with the secret, it gives back the name's bytes.
pub open spec fn issued_for(token: Seq<char>, name: Seq<char>, secret: Seq<char>) -> bool {
    decrypted(encode_utf8(token), encode_utf8(secret)) == Some(encode_utf8(name))
}

/// Issues the token a hobby presents in its `hobby` header: its name
/// encrypted with the service's secret, taken as text; 503 where the
/// encryption fails or its output is not UTF-8.
pub fn encode_hapi_token(hobby_name: &str, secret: &str) -> (r: Result<String, u16>)
    ensures
        r matches Ok(t) ==> issued_for(t@, hobby_name@, secret@),
        r matches Err(c) ==> c == SERVICE_UNAVAILABLE,
{
    match encrypt(hobby_name.as_bytes(), secret.as_bytes()) {
        Ok(bytes) => {
            let ghost b = bytes@;
            match string_from_utf8(bytes) {
                Ok(token) => {
                    proof {
                        decode_utf8_encode_utf8(b);
                    }
                    Ok(token)
                },
                Err(_) => Err(SERVICE_UNAVAILABLE),
            }
        },
        Err(_) => Err(SERVICE_UNAVAILABLE),
    }
}

/// A token issued for a hobby decodes, under the same secret, to the
/// hobby's name: the hobby-token check then looks up exactly that hobby.
pub proof fn lemma_issued_token_decodes_to_its_hobby(token: Seq<char>, name: Seq<char>, secret: Seq<char>)
    requires
        issued_for(token, name, secret),
    ensures
        hobby_name_of(decrypted(encode_utf8(token), encode_utf8(secret))) == Ok::<Seq<char>, u16>(name),
{
    encode_utf8_valid_utf8(name);
    encode_utf8_decode_utf8(name);
}

/// The name of the hobby a hobby token was issued to: the token decrypted
/// with the service's secret, read as UTF-8; 503 where either fails.
pub fn decode_hapi_token(token: &str, secret: &str) -> (r: Result<String, u16>)
    ensures
        is_hobby_name_result(r, hobby_name_of(decrypted(encode_utf8(token@), encode_utf8(secret@)))),
{
    let plaintext = match decrypt(token.as_bytes(), secret.as_bytes()) {
        Ok(bytes) => Some(bytes),
        Err(_) => None,
    };
    hobby_name_from_plaintext(plaintext)
}

/// What the hobby-token check of a request has just learnt.
pub enum HapiTokenEvent {
    /// A request came in, with the value of its `hobby` header.
    Request(Option<String>),
    /// The hobby named by the token was looked up.
    HobbyLoaded(Result<HobbyModel, DbError>),
}

/// What the hobby-token check asks for next.
pub enum HapiTokenAction {
    /// Look up the hobby with this name.
    LoadHobby(String),
    /// Refuse the request with this status.
    Reject(u16),
    /// Let the request go on.
    Proceed,
}

/// One step of the check that a request comes from a known hobby: a request
/// without a `hobby` header, with a token that does not decode, or naming a
/// hobby that does not exist is refused with 503; one naming a known hobby
/// goes on.
pub fn hapi_token_middleware(secret: &str, event: HapiTokenEvent) -> (a: HapiTokenAction)
    ensures
        match event {
            HapiTokenEvent::Request(None) => a == HapiTokenAction::Reject(SERVICE_UNAVAILABLE),
            HapiTokenEvent::Request(Some(t)) => match hobby_name_of(
                decrypted(encode_utf8(t@), encode_utf8(secret@)),
            ) {
                Ok(name) => a matches HapiTokenAction::LoadHobby(n) && n@ == name,
                Err(_) => a == HapiTokenAction::Reject(SERVICE_UNAVAILABLE),
            },
            HapiTokenEvent::HobbyLoaded(Ok(_)) => a == HapiTokenAction::Proceed,
            HapiTokenEvent::HobbyLoaded(Err(_)) => a == HapiTokenAction::Reject(SERVICE_UNAVAILABLE),
        },
{
    match event {
        HapiTokenEvent::Request(None) => HapiTokenAction::Reject(SERVICE_UNAVAILABLE),
        HapiTokenEvent::Request(Some(token)) => match decode_hapi_token(token.as_str(), secret) {
            Ok(hobby_name) => HapiTokenAction::LoadHobby(hobby_name),
            Err(_) => HapiTokenAction::Reject(SERVICE_UNAVAILABLE),
        },
        HapiTokenEvent::HobbyLoaded(Ok(_)) => HapiTokenAction::Proceed,
        HapiTokenEvent::HobbyLoaded(Err(_)) => HapiTokenAction::Reject(SERVICE_UNAVAILABLE),
    }
}

/// A token's plaintext names a hobby exactly when it is UTF-8, and the
/// name is the text those bytes spell: encoded again, it gives the plaintext
/// back. A token that does not decrypt, or whose plaintext is not UTF-8, is
/// refused with 503.
pub proof fn lemma_hobby_name_spells_plaintext(plaintext: Option<Seq<u8>>)
    ensures
        hobby_name_of(plaintext) is Ok <==> (plaintext matches Some(b) && valid_utf8(b)),
        hobby_name_of(plaintext) matches Ok(name) ==> plaintext == Some(encode_utf8(name)),
        hobby_name_of(plaintext) matches Err(c) ==> c == SERVICE_UNAVAILABLE,
{
    if let Some(b) = plaintext {
        if valid_utf8(b) {
            decode_utf8_encode_utf8(b);
        }
    }
}

/// A hobby-name result agrees with what was expected: it is a name exactly
/// when a name was expected, and then that name; otherwise it carries the
/// expected status.
pub proof fn lemma_hobby_name_result_agrees(r: Result<String, u16>, expected: Result<Seq<char>, u16>)
    requires
        is_hobby_name_result(r, expected),
    ensures
        r is Ok <==> expected is Ok,
        r matches Ok(s) ==> expected == Ok::<Seq<char>, u16>(s@),
        r matches Err(c) ==> expected == Err::<Seq<char>, u16>(c),
{
}

} // verus!
