use vstd::prelude::*;
use vstd::string::StrSliceExecFns;

verus! {

/// The fewest characters a master password may have.
pub const MIN_PASSWORD_CHARS: usize = 8;

/// A master password is acceptable when it has at least
/// `MIN_PASSWORD_CHARS` characters (Unicode scalar values, not bytes).
pub open spec fn password_acceptable(password: Seq<char>) -> bool {
    password.len() >= MIN_PASSWORD_CHARS
}

/// Checks the master password chosen for a new database: every password of
/// at least 8 characters is accepted, however long, and every shorter one
/// is refused.
pub fn validate_password(password: &str) -> (res: Result<(), ()>)
    ensures
        res is Ok <==> password_acceptable(password@),
        password@.len() >= 8 ==> res is Ok,
        password@.len() < 8 ==> res is Err,
{
    if password.unicode_len() >= MIN_PASSWORD_CHARS {
        Ok(())
    } else {
        Err(())
    }
}

/// A master password is acceptable exactly when it has at least 8
/// characters; there is no upper bound.
pub proof fn lemma_acceptable_iff_eight_chars(password: Seq<char>)
    ensures
        password_acceptable(password) <==> password.len() >= 8,
{
}

/// Acceptance is monotone in length: a password at least as long as an
/// acceptable one is acceptable too.
pub proof fn lemma_longer_password_acceptable(short: Seq<char>, long: Seq<char>)
    requires
        password_acceptable(short),
        long.len() >= short.len(),
    ensures
        password_acceptable(long),
{
}

} // verus!
