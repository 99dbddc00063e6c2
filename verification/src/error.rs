//! The error value that every fallible operation of the relay returns.

use vstd::prelude::*;

verus! {

/// An error of the relay, carried as the reason shown to the far end.
#[derive(Debug, Clone)]
pub struct Error(pub String);

impl View for Error {
    type V = Seq<char>;

    open spec fn view(&self) -> Seq<char> {
        self.0@
    }
}

/// Reason given when a login payload's signature does not match.
pub open spec fn invalid_signature_text() -> Seq<char> {
    "invalid signature"@
}

/// Reason given when a token is malformed, forged or signed with another key.
pub open spec fn invalid_token_text() -> Seq<char> {
    "invalid token"@
}

/// Reason given when the account is unknown or the password does not match.
pub open spec fn invalid_account_text() -> Seq<char> {
    "invalid account"@
}

/// Reason given when the account has no user behind it.
pub open spec fn missing_user_text() -> Seq<char> {
    "user not exists"@
}

/// Reason given when the signing key cannot be used.
pub open spec fn signing_error_text() -> Seq<char> {
    "signing error"@
}

/// Reason given when an action needs a login that has not happened.
pub open spec fn not_logged_in_text() -> Seq<char> {
    "not logged in"@
}

/// Reason given when a session that is logged in is asked to log in again.
pub open spec fn already_logged_in_text() -> Seq<char> {
    "already logged in"@
}

/// Reason given when the far end sends an envelope that only the server sends.
pub open spec fn unexpected_message_text() -> Seq<char> {
    "unexpected message"@
}

impl Error {
    /// An error with the given reason.
    pub fn new(reason: String) -> (e: Error)
        ensures
            e@ == reason@,
    {
        Error(reason)
    }

    /// The reason, as the text that is shown to the far end.
    pub fn to_text(&self) -> (text: String)
        ensures
            text@ == self@,
    {
        self.0.clone()
    }

    /// The login payload's signature does not match.
    pub fn invalid_signature() -> (e: Error)
        ensures
            e@ == invalid_signature_text(),
    {
        Error("invalid signature".to_owned())
    }

    /// The token is malformed, forged or signed with another key.
    pub fn invalid_token() -> (e: Error)
        ensures
            e@ == invalid_token_text(),
    {
        Error("invalid token".to_owned())
    }

    /// The account is unknown or the password does not match.
    pub fn invalid_account() -> (e: Error)
        ensures
            e@ == invalid_account_text(),
    {
        Error("invalid account".to_owned())
    }

    /// The account has no user behind it.
    pub fn missing_user() -> (e: Error)
        ensures
            e@ == missing_user_text(),
    {
        Error("user not exists".to_owned())
    }

    /// The signing key cannot be used.
    pub fn signing() -> (e: Error)
        ensures
            e@ == signing_error_text(),
    {
        Error("signing error".to_owned())
    }

    /// The action needs a login that has not happened.
    pub fn not_logged_in() -> (e: Error)
        ensures
            e@ == not_logged_in_text(),
    {
        Error("not logged in".to_owned())
    }

    /// The session is logged in already.
    pub fn already_logged_in() -> (e: Error)
        ensures
            e@ == already_logged_in_text(),
    {
        Error("already logged in".to_owned())
    }

    /// The far end sent an envelope that only the server sends.
    pub fn unexpected_message() -> (e: Error)
        ensures
            e@ == unexpected_message_text(),
    {
        Error("unexpected message".to_owned())
    }
}

} // verus!
