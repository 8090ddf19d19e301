use vstd::prelude::*;
use base64::Engine;

verus! {

pub const STATUS_OK: u16 = 200;
pub const STATUS_CREATED: u16 = 201;
pub const STATUS_BAD_REQUEST: u16 = 400;
pub const STATUS_NOT_FOUND: u16 = 404;
pub const STATUS_CONFLICT: u16 = 409;
pub const STATUS_INTERNAL_ERROR: u16 = 500;

/// An HTTP reply: a status code and a text body.
#[derive(Clone, Debug, PartialEq, Eq)]
pub struct Reply {
    pub status: u16,
    pub body: String,
}

pub struct ReplyView {
    pub status: u16,
    pub body: Seq<char>,
}

impl View for Reply {
    type V = ReplyView;

    open spec fn view(&self) -> ReplyView {
        ReplyView { status: self.status, body: self.body@ }
    }
}

/// Whether `k256::PublicKey::from_jwk_str` accepts `key`.
pub uninterp spec fn jwk_key_accepted(key: Seq<char>) -> bool;

/// The URL-safe base64 alphabet: the digit of value `v` is its `v`-th character.
pub open spec fn url_safe_alphabet() -> Seq<char> {
    "ABCDEFGHIJKLMNOPQRSTUVWXYZabcdefghijklmnopqrstuvwxyz0123456789-_"@
}

pub open spec fn digit(v: int) -> char {
    url_safe_alphabet()[v]
}

/// URL-safe base64 without padding: each group of three bytes gives four
/// digits of six bits; a last group of one byte gives two digits, of two
/// bytes three, the missing low bits being zero.
pub open spec fn base64_url_no_pad(b: Seq<u8>) -> Seq<char>
    decreases b.len(),
{
    let b0 = b[0] as int;
    let b1 = b[1] as int;
    let b2 = b[2] as int;
    if b.len() == 0 {
        Seq::empty()
    } else if b.len() == 1 {
        seq![digit(b0 / 4), digit((b0 % 4) * 16)]
    } else if b.len() == 2 {
        seq![digit(b0 / 4), digit((b0 % 4) * 16 + b1 / 16), digit((b1 % 16) * 4)]
    } else {
        seq![
            digit(b0 / 4),
            digit((b0 % 4) * 16 + b1 / 16),
            digit((b1 % 16) * 4 + b2 / 64),
            digit(b2 % 64),
        ] + base64_url_no_pad(b.subrange(3, b.len() as int))
    }
}

/// The text of every error of `k256::PublicKey::from_jwk_str`.
pub open spec fn crypto_error_text() -> Seq<char> {
    "crypto error"@
}

/// Relies on `k256::PublicKey::from_jwk_str`: whether a JWK text holds a
/// secp256k1 public key, which depends on the text alone; on failure the
/// text of `elliptic_curve::Error`, which is always "crypto error".
#[verifier::external_body]
fn check_jwk_public_key(key: &str) -> (r: Result<(), String>)
    ensures
        r is Ok == jwk_key_accepted(key@),
        r matches Err(e) ==> e@ == crypto_error_text(),
{
    match k256::PublicKey::from_jwk_str(key) {
        Ok(_) => Ok(()),
        Err(e) => Err(format!("{}", e)),
    }
}

/// Relies on `base64::Engine::encode` with `URL_SAFE_NO_PAD`: the URL-safe
/// alphabet, no padding.
#[verifier::external_body]
fn encode_base64_url(bytes: &[u8]) -> (r: String)
    ensures
        r@ == base64_url_no_pad(bytes@),
{
    base64::engine::general_purpose::URL_SAFE_NO_PAD.encode(bytes)
}

/// The text under which the server hands out its push-signing public key.
pub fn vapid_public_key_text(key: &Vec<u8>) -> (r: String)
    ensures
        r@ == base64_url_no_pad(key@),
{
    encode_base64_url(key.as_slice())
}

pub open spec fn database_error_text(why: Seq<char>) -> Seq<char> {
    "database error: "@ + why
}

pub open spec fn key_error_text(why: Seq<char>) -> Seq<char> {
    "key could not be parsed: "@ + why
}

fn database_error(why: String) -> (r: Reply)
    ensures
        r@ == (ReplyView { status: STATUS_INTERNAL_ERROR, body: database_error_text(why@) }),
{
    Reply { status: STATUS_INTERNAL_ERROR, body: String::from_str("database error: ").concat(why.as_str()) }
}

/// The reply to a request for a user's public key, from what the user store
/// returned: the key, no such user, or the store's error.
pub fn pubkey_lookup_reply(found: Result<Option<String>, String>) -> (r: Reply)
    ensures
        match found {
            Ok(Some(key)) => r@ == (ReplyView { status: STATUS_OK, body: key@ }),
            Ok(None) => r@ == (ReplyView {
                status: STATUS_NOT_FOUND,
                body: "no user found with this username"@,
            }),
            Err(why) => r@ == (ReplyView { status: STATUS_INTERNAL_ERROR, body: database_error_text(why@) }),
        },
{
    match found {
        Ok(Some(key)) => Reply { status: STATUS_OK, body: key },
        Ok(None) => Reply {
            status: STATUS_NOT_FOUND,
            body: String::from_str("no user found with this username"),
        },
        Err(why) => database_error(why),
    }
}

/// What registering a user name calls for next.
#[derive(Debug, PartialEq, Eq)]
pub enum RegistrationStep {
    /// Store the name with its key.
    Insert,
    /// Answer now with this reply.
    Respond(Reply),
}

pub enum RegistrationStepView {
    Insert,
    Respond(ReplyView),
}

impl View for RegistrationStep {
    type V = RegistrationStepView;

    open spec fn view(&self) -> RegistrationStepView {
        match self {
            RegistrationStep::Insert => RegistrationStepView::Insert,
            RegistrationStep::Respond(r) => RegistrationStepView::Respond(r@),
        }
    }
}

pub open spec fn conflict_reply() -> ReplyView {
    ReplyView { status: STATUS_CONFLICT, body: "a user with this username already exists"@ }
}

/// The next step of a registration, from whether the name is taken (or the
/// store's error) and from the outcome of checking the offered key.
pub fn registration_decision(taken: Result<bool, String>, key_check: Result<(), String>) -> (r: RegistrationStep)
    ensures
        match taken {
            Err(why) => r@ == RegistrationStepView::Respond(
                ReplyView { status: STATUS_INTERNAL_ERROR, body: database_error_text(why@) },
            ),
            Ok(true) => r@ == RegistrationStepView::Respond(conflict_reply()),
            Ok(false) => match key_check {
                Ok(()) => r@ == RegistrationStepView::Insert,
                Err(e) => r@ == RegistrationStepView::Respond(
                    ReplyView { status: STATUS_BAD_REQUEST, body: key_error_text(e@) },
                ),
            },
        },
{
    match taken {
        Err(why) => RegistrationStep::Respond(database_error(why)),
        Ok(true) => RegistrationStep::Respond(Reply {
            status: STATUS_CONFLICT,
            body: String::from_str("a user with this username already exists"),
        }),
        Ok(false) => match key_check {
            Ok(()) => RegistrationStep::Insert,
            Err(e) => RegistrationStep::Respond(Reply {
                status: STATUS_BAD_REQUEST,
                body: String::from_str("key could not be parsed: ").concat(e.as_str()),
            }),
        },
    }
}

/// The next step of a registration, checking the offered JWK key only where
/// the name is free.
pub fn registration_after_lookup(taken: Result<bool, String>, key: &str) -> (r: RegistrationStep)
    ensures
        match taken {
            Err(why) => r@ == RegistrationStepView::Respond(
                ReplyView { status: STATUS_INTERNAL_ERROR, body: database_error_text(why@) },
            ),
            Ok(true) => r@ == RegistrationStepView::Respond(conflict_reply()),
            Ok(false) => if jwk_key_accepted(key@) {
                r@ == RegistrationStepView::Insert
            } else {
                r@ == RegistrationStepView::Respond(
                    ReplyView { status: STATUS_BAD_REQUEST, body: key_error_text(crypto_error_text()) },
                )
            },
        },
{
    match taken {
        Ok(false) => {
            let check = check_jwk_public_key(key);
            registration_decision(Ok(false), check)
        },
        _ => registration_decision(taken, Ok(())),
    }
}

/// The reply once the new user was stored, or the store failed.
pub fn registration_after_insert(stored: Result<(), String>) -> (r: Reply)
    ensures
        match stored {
            Ok(()) => r@ == (ReplyView { status: STATUS_CREATED, body: "registered user"@ }),
            Err(why) => r@ == (ReplyView { status: STATUS_INTERNAL_ERROR, body: database_error_text(why@) }),
        },
{
    match stored {
        Ok(()) => Reply { status: STATUS_CREATED, body: String::from_str("registered user") },
        Err(why) => database_error(why),
    }
}

/// The reply to adding or removing a push subscription: an empty body, with
/// a server error when the store failed.
pub fn subscription_write_reply(written: bool) -> (r: Reply)
    ensures
        r@.body.len() == 0,
        r@.status == if written { STATUS_OK } else { STATUS_INTERNAL_ERROR },
{
    Reply { status: if written { STATUS_OK } else { STATUS_INTERNAL_ERROR }, body: String::new() }
}

} // verus!
