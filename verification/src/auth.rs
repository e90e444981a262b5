//! Authentication: the supported credential forms, with the secret stored in
//! a wrapper that redacts it on generic formatting.

use vstd::prelude::*;

use secrecy::ExposeSecret;

verus! {

/// The token secret, held in a `secrecy::SecretString`: its Debug output is
/// redacted and the string is zeroized on drop.  (The `secrecy` type itself
/// cannot be declared to the verifier because of its `Zeroize` bound, so it
/// is hidden inside this struct.)
#[verifier::external_body]
pub struct TokenSecret {
    inner: secrecy::SecretString,
}

/// The string a token secret holds.
pub uninterp spec fn secret_chars(s: TokenSecret) -> Seq<char>;

/// Relies on secrecy::Secret::new: stores the given string unchanged, in a
/// wrapper whose Debug output redacts it and which zeroizes it on drop.
#[verifier::external_body]
pub(crate) fn new_secret(s: String) -> (r: TokenSecret)
    ensures
        secret_chars(r) == s@,
{
    TokenSecret { inner: secrecy::Secret::new(s) }
}

/// Relies on secrecy::ExposeSecret::expose_secret: hands out the stored
/// string, unchanged.  This is the single point at which a secret leaves its
/// wrapper.
#[verifier::external_body]
pub(crate) fn expose_secret(s: &TokenSecret) -> (r: &String)
    ensures
        r@ == secret_chars(*s),
{
    s.inner.expose_secret()
}

/// Supported forms of authentication, as configured on the client builder.
pub enum Auth {
    /// No authentication.
    Anonymous,
    /// Token auth via Printavo's long-lived tokens.
    Token { email: String, token: TokenSecret },
}

impl Default for Auth {
    fn default() -> (a: Self)
        ensures
            a is Anonymous,
    {
        Auth::Anonymous
    }
}

} // verus!
