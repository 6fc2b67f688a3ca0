//! TOTP keys: a site name, a login and the shared secret of an RFC 6238
//! time-based one-time password, under a random identifier. Codes are
//! computed with `totp_rs`.
use vstd::prelude::*;
use totp_rs::{Algorithm, Secret, TOTP};
use crate::models::ids::{id_to_text, is_random_uuid, new_random_id, parse_id, uuid_parsed, uuid_text};

verus! {

/// Why a TOTP key's fields were refused.
#[derive(Debug, PartialEq, Eq, Structural)]
pub enum TotpValidationError {
    EmptySiteName,
    EmptyLogin,
    BadSecret,
}

/// The database refused to store a key.
#[derive(Debug, PartialEq, Eq, Structural)]
pub struct TotpSaveError;

/// The database did not delete exactly one row for a key.
#[derive(Debug, PartialEq, Eq, Structural)]
pub struct TotpDeleteError;

/// The HMAC variants that `totp_rs` offers.
#[derive(Debug, Clone, Copy, PartialEq, Eq, Structural)]
pub enum TotpAlgorithm {
    Sha1,
    Sha256,
    Sha512,
}

/// Number of digits in a code.
pub const TOTP_DIGITS: usize = 6;
/// Number of steps before and after the current one whose codes are also accepted.
pub const TOTP_SKEW: u8 = 1;
/// Length of one time step in seconds.
pub const TOTP_STEP: u64 = 30;

/// A character of the RFC 4648 base32 alphabet (upper case, no padding).
pub open spec fn is_base32_char(c: char) -> bool {
    ('A' <= c && c <= 'Z') || ('2' <= c && c <= '7')
}

/// A text made only of base32 characters.
pub open spec fn is_base32_text(text: Seq<char>) -> bool {
    forall|i: int| 0 <= i < text.len() ==> #[trigger] is_base32_char(text[i])
}

/// The number of bytes that a base32 text of this many characters decodes to.
pub open spec fn base32_decoded_len(chars: nat) -> nat {
    chars * 5 / 8
}

/// The bytes that `base32::decode` (RFC 4648, no padding) gives for a text.
pub uninterp spec fn base32_decoded(text: Seq<char>) -> Seq<u8>;

/// The code that `TOTP::generate` gives for an algorithm, a number of
/// digits, a secret and the time step counter (the time divided by the step).
pub uninterp spec fn totp_token(
    algorithm: TotpAlgorithm,
    digits: usize,
    secret: Seq<u8>,
    counter: u64,
) -> Seq<char>;

/// A text of decimal digits.
pub open spec fn is_decimal_text(text: Seq<char>) -> bool {
    forall|i: int| 0 <= i < text.len() ==> '0' <= #[trigger] text[i] && text[i] <= '9'
}

/// `Secret::Encoded(text).to_bytes()`, with the error as `None`. The
/// contract claims what the decoder's source shows: it accepts exactly the
/// texts made of `A`..`Z` and `2`..`7` (an `=` or any other character
/// fails), and gives `len * 5 / 8` bytes; which bytes is named.
#[verifier::external_body]
fn decode_secret(text: String) -> (bytes: Option<Vec<u8>>)
    ensures
        bytes is Some <==> is_base32_text(text@),
        bytes matches Some(b) ==> b@ == base32_decoded(text@) && b@.len() == base32_decoded_len(
            text@.len(),
        ),
{
    Secret::Encoded(text).to_bytes().ok()
}

/// Whether `TOTP::new` accepts the parameters. Its source checks that the
/// number of digits is from 6 to 8 and that the secret has at least 16
/// bytes (128 bits), and nothing else.
#[verifier::external_body]
fn totp_accepts(algorithm: TotpAlgorithm, digits: usize, skew: u8, step: u64, secret: &Vec<u8>) -> (ok: bool)
    ensures
        ok == (6 <= digits && digits <= 8 && secret@.len() >= 16),
{
    let algorithm = match algorithm {
        TotpAlgorithm::Sha1 => Algorithm::SHA1,
        TotpAlgorithm::Sha256 => Algorithm::SHA256,
        TotpAlgorithm::Sha512 => Algorithm::SHA512,
    };
    TOTP::new(algorithm, digits, skew, step, secret.clone()).is_ok()
}

/// `TOTP::new_unchecked(..).generate(time)`. The code is named; the
/// contract claims what the source shows: the time enters only as
/// `time / step`, and the code is the HMAC value modulo `10^digits`
/// written with exactly `digits` decimal digits, zero-padded.
#[verifier::external_body]
fn totp_generate(
    algorithm: TotpAlgorithm,
    digits: usize,
    skew: u8,
    step: u64,
    secret: &[u8],
    time: u64,
) -> (code: String)
    requires
        step > 0,
        6 <= digits <= 8,
    ensures
        code@ == totp_token(algorithm, digits, secret@, time / step),
        code@.len() == digits,
        is_decimal_text(code@),
{
    let algorithm = match algorithm {
        TotpAlgorithm::Sha1 => Algorithm::SHA1,
        TotpAlgorithm::Sha256 => Algorithm::SHA256,
        TotpAlgorithm::Sha512 => Algorithm::SHA512,
    };
    TOTP::new_unchecked(algorithm, digits, skew, step, secret.to_vec()).generate(time)
}

/// The code that this library shows for a secret at a given UNIX time.
pub open spec fn code_at(secret: Seq<u8>, time: u64) -> Seq<char> {
    totp_token(TotpAlgorithm::Sha1, TOTP_DIGITS, secret, time / TOTP_STEP)
}

/// The abstract content of a TOTP key.
pub struct TotpKeyData {
    pub id: u128,
    pub site_name: Seq<char>,
    pub login: Seq<char>,
    pub secret: Seq<u8>,
}

/// A TOTP key.
pub struct TotpKey {
    id: u128,
    site_name: String,
    login: String,
    secret: Vec<u8>,
}

impl View for TotpKey {
    type V = TotpKeyData;

    closed spec fn view(&self) -> TotpKeyData {
        TotpKeyData {
            id: self.id,
            site_name: self.site_name@,
            login: self.login@,
            secret: self.secret@,
        }
    }
}

/// The first field, in the order site name, login, secret, that is
/// refused, reported as the error for it; `None` when all are acceptable.
pub open spec fn totp_fields_error(
    site_name: Seq<char>,
    login: Seq<char>,
    secret: Seq<char>,
) -> Option<TotpValidationError> {
    if site_name.len() == 0 {
        Some(TotpValidationError::EmptySiteName)
    } else if login.len() == 0 {
        Some(TotpValidationError::EmptyLogin)
    } else if !is_base32_text(secret) {
        Some(TotpValidationError::BadSecret)
    } else {
        None
    }
}

/// What `TotpKey::new` gives for the three fields: the first error, or a
/// key holding the two fields and the decoded secret under a random
/// identifier.
pub open spec fn is_new_key_result(
    res: Result<TotpKey, TotpValidationError>,
    site_name: Seq<char>,
    login: Seq<char>,
    secret: Seq<char>,
) -> bool {
    match res {
        Ok(k) => {
            &&& totp_fields_error(site_name, login, secret) is None
            &&& k@.site_name == site_name
            &&& k@.login == login
            &&& k@.secret == base32_decoded(secret)
            &&& k@.secret.len() >= 16
            &&& is_random_uuid(k@.id)
        },
        Err(e) => totp_fields_error(site_name, login, secret) == Some(e),
    }
}

/// Inputs on which creating a key stops the program: all fields are
/// acceptable but the secret decodes to fewer than 16 bytes, which
/// `TOTP::new` refuses.
pub open spec fn totp_creation_fails(site_name: Seq<char>, login: Seq<char>, secret: Seq<char>) -> bool {
    &&& totp_fields_error(site_name, login, secret) is None
    &&& base32_decoded_len(secret.len()) < 16
}

impl TotpKey {
    /// Creates a key under a fresh random identifier, after checking that
    /// the site name and login are not empty and decoding the base32 secret.
    pub fn new(site_name: String, login: String, secret: String) -> (res: Result<Self, TotpValidationError>)
        requires
            !totp_creation_fails(site_name@, login@, secret@),
        ensures
            is_new_key_result(res, site_name@, login@, secret@),
            res is Ok <==> (site_name@.len() > 0 && login@.len() > 0 && is_base32_text(secret@)),
            res matches Ok(k) ==> k@.site_name == site_name@ && k@.login == login@ && k@.secret
                == base32_decoded(secret@),
    {
        Self::validate_site_name(site_name.as_str())?;
        Self::validate_login(login.as_str())?;
        let secret = Self::validate_secret(secret)?;
        let accepted = totp_accepts(TotpAlgorithm::Sha1, TOTP_DIGITS, TOTP_SKEW, TOTP_STEP, &secret);
        assert(accepted);

        Ok(Self { id: new_random_id(), site_name, login, secret })
    }

    /// Whether `new` would stop the program on these fields, computed the
    /// way `new` computes it.
    pub fn creation_fails(site_name: &str, login: &str, secret: &str) -> (fails: bool)
        ensures
            fails == totp_creation_fails(site_name@, login@, secret@),
    {
        if site_name.is_empty() || login.is_empty() {
            return false;
        }
        match decode_secret(secret.to_string()) {
            Some(bytes) => !totp_accepts(TotpAlgorithm::Sha1, TOTP_DIGITS, TOTP_SKEW, TOTP_STEP, &bytes),
            None => false,
        }
    }

    /// Rebuilds a key from a stored row: the identifier's text, the two
    /// fields and the raw secret. Gives `None` when the identifier does not
    /// parse or when `TOTP::new` refuses the secret (shorter than 16 bytes).
    /// A row whose identifier is the text that `id_text` wrote reads back as
    /// the key with that identifier and those fields.
    pub fn from_row(id: &str, site_name: String, login: String, secret: Vec<u8>) -> (res: Option<Self>)
        ensures
            res is Some <==> (uuid_parsed(id@) is Some && secret@.len() >= 16),
            res matches Some(k) ==> {
                &&& uuid_parsed(id@) == Some(k@.id)
                &&& k@.site_name == site_name@
                &&& k@.login == login@
                &&& k@.secret == secret@
            },
            forall|x: u128|
                id@ == uuid_text(x) && secret@.len() >= 16 ==> (res matches Some(k) && k@ == (
                TotpKeyData { id: x, site_name: site_name@, login: login@, secret: secret@ })),
    {
        match parse_id(id) {
            Some(id) => {
                if totp_accepts(TotpAlgorithm::Sha1, TOTP_DIGITS, TOTP_SKEW, TOTP_STEP, &secret) {
                    Some(Self { id, site_name, login, secret })
                } else {
                    None
                }
            },
            None => None,
        }
    }

    /// The identifier's text as it is stored.
    pub fn id_text(&self) -> (text: String)
        ensures
            text@ == uuid_text(self@.id),
            uuid_parsed(text@) == Some(self@.id),
    {
        id_to_text(self.id)
    }

    /// Whether deleting a key succeeded, given the number of rows the
    /// database reports deleted, or `Err` when the statement failed.
    pub fn delete_outcome(deleted_rows: Result<usize, ()>) -> (res: Result<(), TotpDeleteError>)
        ensures
            res is Ok <==> deleted_rows == Ok::<usize, ()>(1),
    {
        match deleted_rows {
            Ok(count) => {
                if count == 1 {
                    Ok(())
                } else {
                    Err(TotpDeleteError)
                }
            },
            Err(_) => Err(TotpDeleteError),
        }
    }

    pub fn id(&self) -> (id: u128)
        ensures
            id == self@.id,
    {
        self.id
    }

    pub fn site_name(&self) -> (s: &str)
        ensures
            s@ == self@.site_name,
    {
        self.site_name.as_str()
    }

    pub fn login(&self) -> (s: &str)
        ensures
            s@ == self@.login,
    {
        self.login.as_str()
    }

    pub fn secret(&self) -> (s: &[u8])
        ensures
            s@ == self@.secret,
    {
        self.secret.as_slice()
    }

    /// The six-digit code for the key at a UNIX time (in seconds).
    pub fn gen_key(&self, time: u64) -> (code: String)
        ensures
            code@ == code_at(self@.secret, time),
            code@.len() == TOTP_DIGITS,
            is_decimal_text(code@),
    {
        totp_generate(TotpAlgorithm::Sha1, TOTP_DIGITS, TOTP_SKEW, TOTP_STEP, self.secret.as_slice(), time)
    }

    /// Replaces the site name unless the new one is empty; on error the key
    /// is unchanged.
    pub fn set_site_name(&mut self, site_name: String) -> (res: Result<(), TotpValidationError>)
        ensures
            site_name@.len() == 0 ==> res == Err::<(), _>(TotpValidationError::EmptySiteName)
                && final(self)@ == old(self)@,
            site_name@.len() > 0 ==> res is Ok && final(self)@ == (TotpKeyData {
                site_name: site_name@,
                ..old(self)@
            }),
    {
        Self::validate_site_name(site_name.as_str())?;
        self.site_name = site_name;
        Ok(())
    }

    /// Replaces the login unless the new one is empty; on error the key is
    /// unchanged.
    pub fn set_login(&mut self, login: String) -> (res: Result<(), TotpValidationError>)
        ensures
            login@.len() == 0 ==> res == Err::<(), _>(TotpValidationError::EmptyLogin)
                && final(self)@ == old(self)@,
            login@.len() > 0 ==> res is Ok && final(self)@ == (TotpKeyData {
                login: login@,
                ..old(self)@
            }),
    {
        Self::validate_login(login.as_str())?;
        self.login = login;
        Ok(())
    }

    /// Replaces the secret with the decoding of a base32 text, unless it is
    /// not base32; on error the key is unchanged. Unlike `new`, no length is
    /// required of the secret.
    pub fn set_secret(&mut self, secret: String) -> (res: Result<(), TotpValidationError>)
        ensures
            !is_base32_text(secret@) ==> res == Err::<(), _>(TotpValidationError::BadSecret)
                && final(self)@ == old(self)@,
            is_base32_text(secret@) ==> res is Ok && final(self)@ == (TotpKeyData {
                secret: base32_decoded(secret@),
                ..old(self)@
            }),
    {
        let sec = Self::validate_secret(secret)?;
        self.secret = sec;
        Ok(())
    }

    fn validate_site_name(site_name: &str) -> (res: Result<(), TotpValidationError>)
        ensures
            res is Ok <==> site_name@.len() > 0,
            res is Err ==> res == Err::<(), _>(TotpValidationError::EmptySiteName),
    {
        if !site_name.is_empty() {
            Ok(())
        } else {
            Err(TotpValidationError::EmptySiteName)
        }
    }

    fn validate_login(login: &str) -> (res: Result<(), TotpValidationError>)
        ensures
            res is Ok <==> login@.len() > 0,
            res is Err ==> res == Err::<(), _>(TotpValidationError::EmptyLogin),
    {
        if !login.is_empty() {
            Ok(())
        } else {
            Err(TotpValidationError::EmptyLogin)
        }
    }

    fn validate_secret(secret: String) -> (res: Result<Vec<u8>, TotpValidationError>)
        ensures
            res is Ok <==> is_base32_text(secret@),
            res matches Ok(b) ==> b@ == base32_decoded(secret@) && b@.len() == base32_decoded_len(
                secret@.len(),
            ),
            res is Err ==> res == Err::<Vec<u8>, _>(TotpValidationError::BadSecret),
    {
        match decode_secret(secret) {
            Some(secret) => Ok(secret),
            None => Err(TotpValidationError::BadSecret),
        }
    }
}

/// Codes depend on the time only through its 30-second step: two times in
/// the same step give the same code for the same secret.
pub proof fn lemma_code_constant_within_step(secret: Seq<u8>, t1: u64, t2: u64)
    requires
        t1 / TOTP_STEP == t2 / TOTP_STEP,
    ensures
        code_at(secret, t1) == code_at(secret, t2),
{
}

} // verus!
