use vstd::prelude::*;

verus! {

#[verifier::external_type_specification]
#[verifier::external_body]
pub struct ExBcryptError(bcrypt::BcryptError);

/// What bcrypt's verification says of `password` against the stored `hash`:
/// `Some(matches)` for a well-formed hash, `None` for one it cannot read.
pub uninterp spec fn bcrypt_verdict(password: Seq<char>, hash: Seq<char>) -> Option<bool>;

/// Relies on bcrypt::verify: it rehashes the password's UTF-8 bytes with the
/// cost and salt read from `hash` and compares; a hash it cannot parse is an
/// error.
#[verifier::external_body]
fn bcrypt_verify(password: &str, hash: &str) -> (r: Result<bool, bcrypt::BcryptError>)
    ensures
        match r {
            Ok(b) => bcrypt_verdict(password@, hash@) == Some(b),
            Err(_) => bcrypt_verdict(password@, hash@) is None,
        },
{
    bcrypt::verify(password.as_bytes(), hash)
}

/// The password is accepted only when bcrypt reads the hash and finds a match;
/// an unreadable hash accepts nothing.
pub open spec fn password_accepted(password: Seq<char>, hash: Seq<char>) -> bool {
    bcrypt_verdict(password, hash) == Some(true)
}

/// The stored bcrypt hash of the shared password.
pub struct PasswordHashString(pub String);

impl PasswordHashString {
    /// Checks `password` against the stored hash. Slow by design.
    pub fn verify(&self, password: &str) -> (r: bool)
        ensures
            r == password_accepted(password@, self.0@),
    {
        match bcrypt_verify(password, self.0.as_str()) {
            Ok(b) => b,
            Err(_) => false,
        }
    }
}

} // verus!
