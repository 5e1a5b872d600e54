//! API keys and password credentials at the relay's account boundary:
//! key format, key generation, and the hashing cores of account
//! creation and login.

use vstd::prelude::*;

use crate::text::push_char;

verus! {

/// A well-formed API key is exactly 35 characters: the marker `gp_`
/// followed by 32 more characters.
pub open spec fn spec_api_key_format(s: Seq<char>) -> bool {
    &&& s.len() == 35
    &&& s[0] == 'g'
    &&& s[1] == 'p'
    &&& s[2] == '_'
}

/// A lower-case hexadecimal digit.
pub open spec fn is_hex_digit(c: char) -> bool {
    ('0' <= c && c <= '9') || ('a' <= c && c <= 'f')
}

/// Structural check of an API key, performed before any lookup.
pub fn is_valid_api_key_format(key: &str) -> (r: bool)
    ensures
        r == spec_api_key_format(key@),
{
    if key.unicode_len() != 35 {
        return false;
    }
    key.get_char(0) == 'g' && key.get_char(1) == 'p' && key.get_char(2) == '_'
}

/// Relies on `uuid::Uuid::new_v4` and its `Display` form: a freshly
/// drawn random identifier rendered in the hyphenated lower-case form,
/// 36 characters with hyphens at positions 8, 13, 18 and 23 and a
/// lower-case hex digit everywhere else. The value itself is random;
/// only the shape is promised.
#[verifier::external_body]
fn fresh_uuid_hyphenated() -> (r: String)
    ensures
        r@.len() == 36,
        r@[8] == '-' && r@[13] == '-' && r@[18] == '-' && r@[23] == '-',
        forall|i: int|
            0 <= i < 36 && i != 8 && i != 13 && i != 18 && i != 23 ==> is_hex_digit(
                #[trigger] r@[i],
            ),
{
    uuid::Uuid::new_v4().to_string()
}

/// Draws a fresh API key: the `gp_` marker followed by the 32 hex
/// digits of a random identifier. The result is always well-formed.
pub fn generate_api_key() -> (r: String)
    ensures
        spec_api_key_format(r@),
        forall|i: int| 3 <= i < 35 ==> is_hex_digit(#[trigger] r@[i]),
{
    proof {
        reveal_strlit("gp_");
    }
    let u = fresh_uuid_hyphenated();
    let mut s = String::from_str("gp_");
    let mut i: usize = 0;
    while i < 36
        invariant
            u@.len() == 36,
            u@[8] == '-' && u@[13] == '-' && u@[18] == '-' && u@[23] == '-',
            forall|j: int|
                0 <= j < 36 && j != 8 && j != 13 && j != 18 && j != 23 ==> is_hex_digit(
                    #[trigger] u@[j],
                ) && u@[j] != '-',
            i <= 36,
            s@.len() == 3 + i - (if i > 23 {
                4int
            } else if i > 18 {
                3int
            } else if i > 13 {
                2int
            } else if i > 8 {
                1int
            } else {
                0int
            }),
            s@[0] == 'g' && s@[1] == 'p' && s@[2] == '_',
            forall|j: int| 3 <= j < s@.len() ==> is_hex_digit(#[trigger] s@[j]),
        decreases 36 - i,
    {
        let c = u.as_str().get_char(i);
        if c != '-' {
            push_char(&mut s, c);
        }
        i = i + 1;
    }
    s
}

/// What `bcrypt::verify` decides for a password against a stored hash:
/// `Some(m)` when the hash parses and the comparison yields `m`, `None`
/// when the hash cannot be read. The call recomputes the hash from the
/// salt stored in `hash`, so the outcome is a function of the two
/// arguments alone.
pub uninterp spec fn bcrypt_check_of(password: Seq<char>, hash: Seq<char>) -> Option<bool>;

/// Relies on `bcrypt::hash` with the crate's default cost: a salted
/// hash of the password, rendered in the crate's non-empty, dollar-led
/// format, or the crate's error rendered as a message. The salt is
/// random, so the value itself is not pinned; but whatever hash comes
/// back, `bcrypt::verify` parses it and matches the same password
/// against it.
#[verifier::external_body]
pub fn hash_password(password: &str) -> (r: Result<String, String>)
    ensures
        r matches Ok(h) ==> h@.len() > 0 && h@[0] == '$' && bcrypt_check_of(password@, h@)
            == Some(true),
{
    bcrypt::hash(password, bcrypt::DEFAULT_COST).map_err(
        |e| format!("Password hashing failed: {}", e),
    )
}

/// Relies on `bcrypt::verify`: whether the password matches the hash,
/// or the crate's error rendered as a message when the hash cannot be
/// read.
#[verifier::external_body]
pub fn verify_password(password: &str, hash: &str) -> (r: Result<bool, String>)
    ensures
        r matches Ok(m) ==> bcrypt_check_of(password@, hash@) == Some(m),
        r matches Err(_) ==> bcrypt_check_of(password@, hash@) is None,
{
    bcrypt::verify(password, hash).map_err(|e| format!("Password verification failed: {}", e))
}

/// Everything a new account record needs from the computing side: a
/// well-formed fresh API key and the password hash.
pub struct NewAccount {
    pub api_key: String,
    pub password_hash: String,
}

/// The computing core of account creation: draws the key and hashes
/// the password; the stored record then carries a well-formed key and
/// a hash that the same password, and no text equal to it, will match.
pub fn prepare_account(password: &str) -> (r: Result<NewAccount, String>)
    ensures
        r matches Ok(account) ==> spec_api_key_format(account.api_key@)
            && account.password_hash@.len() > 0 && account.password_hash@[0] == '$'
            && bcrypt_check_of(password@, account.password_hash@) == Some(true),
{
    let api_key = generate_api_key();
    match hash_password(password) {
        Ok(password_hash) => Ok(NewAccount { api_key, password_hash }),
        Err(e) => Err(e),
    }
}

/// The decision core of login: given the stored credentials found for
/// an address (or none), an unknown address and a wrong password read
/// the same from outside, and exactly a stored record whose hash the
/// password matches releases its API key.
pub fn check_credentials(
    password: &str,
    stored: &Option<(String, String)>,
) -> (r: Result<String, String>)
    ensures
        stored is None ==> (r matches Err(e) && e@ == "Invalid credentials"@),
        stored matches Some(record) ==> ({
            &&& bcrypt_check_of(password@, record.1@) == Some(true) ==> (r matches Ok(key)
                && key@ == record.0@)
            &&& bcrypt_check_of(password@, record.1@) == Some(false) ==> (r matches Err(e) && e@
                == "Invalid credentials"@)
            &&& bcrypt_check_of(password@, record.1@) is None ==> r is Err
        }),
        r matches Ok(key) ==> (stored matches Some(record) && key@ == record.0@ && bcrypt_check_of(
            password@,
            record.1@,
        ) == Some(true)),
{
    match stored {
        Some(record) => {
            match verify_password(password, record.1.as_str()) {
                Ok(true) => Ok(record.0.clone()),
                Ok(false) => Err(String::from_str("Invalid credentials")),
                Err(e) => Err(e),
            }
        },
        None => Err(String::from_str("Invalid credentials")),
    }
}

} // verus!
