//! The persisted record: a user profile with an embedded preferences
//! sub-record, together with its mathematical model and field bounds.
//!
//! Strings are held as their encoded bytes: every bound in the format is a
//! byte length, and the `@` requirement on emails is the byte `0x40`.

use vstd::prelude::*;

verus! {

#[derive(Clone, Copy, Debug, PartialEq, Eq, Structural)]
pub enum Theme {
    Light,
    Dark,
    Auto,
}

#[derive(Clone, Copy, Debug, PartialEq, Eq, Structural)]
pub enum Language {
    English,
    Spanish,
    French,
    German,
}

#[derive(Clone, Copy, Debug, PartialEq, Eq, Structural)]
pub struct UserPreferences {
    pub theme: Theme,
    pub language: Language,
    pub notifications: bool,
    /// Scale of 0 to 5; enforced by every update.
    pub privacy_level: u8,
}

#[derive(Clone, Debug)]
pub struct UserProfile {
    pub user_id: u32,
    /// At most 32 bytes.
    pub username: Vec<u8>,
    /// At most 64 bytes; must contain at least one `@`.
    pub email: Vec<u8>,
    pub balance: u64,
    pub reputation: u32,
    pub is_verified: bool,
    pub created_at: i64,
    pub last_login: i64,
    pub preferences: UserPreferences,
}

/// The mathematical model of a profile record.
#[verifier::ext_equal]
pub ghost struct ProfileData {
    pub user_id: u32,
    pub username: Seq<u8>,
    pub email: Seq<u8>,
    pub balance: u64,
    pub reputation: u32,
    pub is_verified: bool,
    pub created_at: i64,
    pub last_login: i64,
    pub preferences: UserPreferences,
}

impl View for UserProfile {
    type V = ProfileData;

    open spec fn view(&self) -> ProfileData {
        ProfileData {
            user_id: self.user_id,
            username: self.username@,
            email: self.email@,
            balance: self.balance,
            reputation: self.reputation,
            is_verified: self.is_verified,
            created_at: self.created_at,
            last_login: self.last_login,
            preferences: self.preferences,
        }
    }
}

/// Maximum encoded byte length of a username.
pub const MAX_USERNAME_LEN: usize = 32;

/// Maximum encoded byte length of an email.
pub const MAX_EMAIL_LEN: usize = 64;

/// The byte `@`, which every valid email must contain.
pub const AT_BYTE: u8 = 64;

/// Whether the byte string contains at least one `@`.
pub open spec fn contains_at_byte(s: Seq<u8>) -> bool {
    exists|i: int| 0 <= i < s.len() && s[i] == AT_BYTE
}

/// The field bounds of the data model: both strings fit their fixed budget.
pub open spec fn within_field_bounds(p: ProfileData) -> bool {
    &&& p.username.len() <= MAX_USERNAME_LEN
    &&& p.email.len() <= MAX_EMAIL_LEN
}

/// The preferences every freshly created profile starts with.
pub open spec fn default_preferences() -> UserPreferences {
    UserPreferences {
        theme: Theme::Light,
        language: Language::English,
        notifications: true,
        privacy_level: 3,
    }
}

impl Default for UserPreferences {
    fn default() -> (r: Self)
        ensures
            r == default_preferences(),
    {
        UserPreferences {
            theme: Theme::Light,
            language: Language::English,
            notifications: true,
            privacy_level: 3,
        }
    }
}

/// The record `UserProfile::new` builds: zero balance and reputation,
/// unverified, zero timestamps, default preferences.
pub open spec fn spec_new_profile(user_id: u32, username: Seq<u8>, email: Seq<u8>) -> ProfileData {
    ProfileData {
        user_id,
        username,
        email,
        balance: 0,
        reputation: 0,
        is_verified: false,
        created_at: 0,
        last_login: 0,
        preferences: default_preferences(),
    }
}

impl UserPreferences {
    /// Encoded size: one tag byte per enum, one byte each for the flag and
    /// the privacy level.
    pub const MAX_SIZE: usize = 1 + 1 + 1 + 1;
}

impl UserProfile {
    /// The fixed capacity a storage slot reserves for one record: the sum of
    /// every field's maximum encoded width.
    pub const MAX_SIZE: usize = 4 + 4 + 32 + 4 + 64 + 8 + 4 + 1 + 8 + 8 + 4;

    pub fn new(user_id: u32, username: Vec<u8>, email: Vec<u8>) -> (r: Self)
        ensures
            r@ == spec_new_profile(user_id, username@, email@),
    {
        Self {
            user_id,
            username,
            email,
            balance: 0,
            reputation: 0,
            is_verified: false,
            created_at: 0,
            last_login: 0,
            preferences: UserPreferences::default(),
        }
    }
}

/// Whether `s` contains an `@` byte, decided by scanning.
pub fn has_at_byte(s: &Vec<u8>) -> (r: bool)
    ensures
        r == contains_at_byte(s@),
{
    let mut i: usize = 0;
    while i < s.len()
        invariant
            0 <= i <= s@.len(),
            forall|j: int| 0 <= j < i ==> s@[j] != AT_BYTE,
        decreases s@.len() - i,
    {
        if s[i] == AT_BYTE {
            return true;
        }
        i = i + 1;
    }
    false
}

} // verus!
