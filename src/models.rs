//! Screens, tabs and the journal's user.
use vstd::prelude::*;
use argon2::PasswordHasher;
use crate::mood::opt_text;
use vstd::utf8::encode_utf8;

verus! {

/// The screen the application shows.
#[derive(Clone, Copy, PartialEq, Eq, Structural, Debug)]
pub enum AppScreen {
    Welcome,
    AddUser,
    MainApp,
}

/// The tabs of the main screen.
#[derive(Clone, Copy, PartialEq, Eq, Structural, Debug)]
pub enum Tab {
    Add,
    History,
    Analytics,
    Settings,
}

/// The tabs of the settings screen.
#[derive(Clone, Copy, PartialEq, Eq, Structural, Debug)]
pub enum SettingsTab {
    General,
    Moods,
    Tags,
    Goals,
}

/// The longest password, in bytes, that Argon2 hashes.
pub const MAX_PIN_BYTES: usize = 0xFFFF_FFFF;

/// The PHC string that Argon2, with its default parameters and the all-zero
/// salt, makes of a PIN.
pub uninterp spec fn pin_hash_of(pin: Seq<char>) -> Seq<char>;

/// Relies on argon2's `Argon2::default().hash_password`, fed the PIN's UTF-8
/// bytes and the salt that `SaltString::encode_b64` makes of sixteen zero
/// bytes: parameters and salt are fixed, so the PHC string depends on the PIN
/// alone. An error of the hasher comes back as `None`; with this salt (16
/// bytes, at least `MIN_SALT_LEN`) and the default parameters the only one
/// left is a password longer than `MAX_PWD_LEN`, 0xFFFFFFFF bytes.
#[verifier::external_body]
fn hash_pin(pin: &str) -> (r: Option<String>)
    ensures
        r matches Some(h) ==> h@ == pin_hash_of(pin@),
        encode_utf8(pin@).len() <= MAX_PIN_BYTES ==> r is Some,
{
    let salt = argon2::password_hash::SaltString::encode_b64(&[0u8; 16]).ok()?;
    let hash = argon2::Argon2::default().hash_password(pin.as_bytes(), &salt).ok()?;
    Some(hash.to_string())
}

/// Why a user could not be made.
#[derive(Clone, Copy, PartialEq, Eq, Structural, Debug)]
pub enum UserError {
    /// The PIN is longer than Argon2 takes.
    PinTooLong,
}

/// Someone who keeps a journal: a store-assigned identity, a name, the hash
/// of an optional PIN and an optional email address.
pub struct User {
    pub id: Option<i64>,
    pub name: String,
    pub pin_hash: Option<String>,
    pub email: Option<String>,
}

/// `None` for an empty text, the text otherwise.
pub open spec fn optional(s: Seq<char>) -> Option<Seq<char>> {
    if s.len() == 0 {
        None
    } else {
        Some(s)
    }
}

impl User {
    /// A user not yet stored, from the name, the hash of the PIN if one was
    /// given, and the email field, where an empty field means no address.
    pub fn with_pin_hash(name: String, pin_hash: Option<String>, email: String) -> (r: User)
        ensures
            r.id is None,
            r.name@ == name@,
            opt_text(r.pin_hash) == opt_text(pin_hash),
            opt_text(r.email) == optional(email@),
    {
        let email = if email.as_str().is_empty() {
            None
        } else {
            Some(email)
        };
        User { id: None, name, pin_hash, email }
    }

    /// A new user from the fields of the sign-up form. An empty PIN means no
    /// PIN, and an empty email no address; a PIN that is given is kept only
    /// as its Argon2 hash. Fails only for a PIN longer than Argon2 takes.
    pub fn create(name: String, pin: String, email: String) -> (r: Result<User, UserError>)
        ensures
            r is Ok <==> (pin@.len() == 0 || encode_utf8(pin@).len() <= MAX_PIN_BYTES),
            r is Err ==> r == Err::<User, UserError>(UserError::PinTooLong),
            r matches Ok(u) ==> {
                &&& u.id is None
                &&& u.name@ == name@
                &&& opt_text(u.pin_hash) == if pin@.len() == 0 {
                    None
                } else {
                    Some(pin_hash_of(pin@))
                }
                &&& opt_text(u.email) == optional(email@)
            },
    {
        let pin_hash = if pin.as_str().is_empty() {
            None
        } else if pin.as_str().as_bytes().len() > MAX_PIN_BYTES {
            return Err(UserError::PinTooLong);
        } else {
            match hash_pin(pin.as_str()) {
                Some(h) => Some(h),
                None => return Err(UserError::PinTooLong),
            }
        };
        Ok(User::with_pin_hash(name, pin_hash, email))
    }
}

} // verus!
