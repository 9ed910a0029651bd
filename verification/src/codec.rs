//! The record codec: the fixed binary layout of a profile record.
//!
//! Field order follows the data model; integers are little-endian and
//! fixed-width, strings carry a 4-byte length prefix, enums and bools take
//! one tag byte each. This layout is the persisted format and must stay
//! byte-stable.

use vstd::prelude::*;
use vstd::bytes::*;
use vstd::slice::{slice_index_get, slice_subrange, slice_to_vec};

use crate::error::DecodeError;
use crate::ints::{i64_bits, i64_from_bits, i64_of_bits, i64_to_bits};
use crate::state::{Language, ProfileData, Theme, UserPreferences, UserProfile};

verus! {

pub open spec fn theme_tag(t: Theme) -> u8 {
    match t {
        Theme::Light => 0,
        Theme::Dark => 1,
        Theme::Auto => 2,
    }
}

pub open spec fn theme_from_tag(b: u8) -> Option<Theme> {
    if b == 0 {
        Some(Theme::Light)
    } else if b == 1 {
        Some(Theme::Dark)
    } else if b == 2 {
        Some(Theme::Auto)
    } else {
        None
    }
}

pub open spec fn language_tag(l: Language) -> u8 {
    match l {
        Language::English => 0,
        Language::Spanish => 1,
        Language::French => 2,
        Language::German => 3,
    }
}

pub open spec fn language_from_tag(b: u8) -> Option<Language> {
    if b == 0 {
        Some(Language::English)
    } else if b == 1 {
        Some(Language::Spanish)
    } else if b == 2 {
        Some(Language::French)
    } else if b == 3 {
        Some(Language::German)
    } else {
        None
    }
}

pub open spec fn bool_byte(b: bool) -> u8 {
    if b {
        1
    } else {
        0
    }
}

pub open spec fn bool_from_byte(b: u8) -> Option<bool> {
    if b == 0 {
        Some(false)
    } else if b == 1 {
        Some(true)
    } else {
        None
    }
}

/// The four encoded bytes of a preferences sub-record.
pub open spec fn spec_encode_preferences(q: UserPreferences) -> Seq<u8> {
    seq![theme_tag(q.theme), language_tag(q.language), bool_byte(q.notifications), q.privacy_level]
}

/// Exact byte length of the encoding of `p`.
pub open spec fn encoded_profile_len(p: ProfileData) -> int {
    45 + p.username.len() as int + p.email.len() as int
}

/// The encoded bytes of a full profile record.
pub open spec fn spec_encode_profile(p: ProfileData) -> Seq<u8> {
    spec_u32_to_le_bytes(p.user_id) + spec_u32_to_le_bytes(p.username.len() as u32) + p.username
        + spec_u32_to_le_bytes(p.email.len() as u32) + p.email + spec_u64_to_le_bytes(p.balance)
        + spec_u32_to_le_bytes(p.reputation) + seq![bool_byte(p.is_verified)]
        + spec_u64_to_le_bytes(i64_bits(p.created_at)) + spec_u64_to_le_bytes(
        i64_bits(p.last_login),
    ) + spec_encode_preferences(p.preferences)
}

/// Structural decoding of a record from a prefix of `s`: the decoded record
/// together with the number of bytes it occupies, or nothing when no prefix
/// of `s` is a well-formed encoding.
pub open spec fn spec_decode_profile(s: Seq<u8>) -> Option<(ProfileData, int)> {
    if s.len() < 8 {
        None
    } else {
        let user_id = spec_u32_from_le_bytes(s.subrange(0, 4));
        let ulen = spec_u32_from_le_bytes(s.subrange(4, 8)) as int;
        if s.len() < 12 + ulen {
            None
        } else {
            let username = s.subrange(8, 8 + ulen);
            let elen = spec_u32_from_le_bytes(s.subrange(8 + ulen, 12 + ulen)) as int;
            if s.len() < 45 + ulen + elen {
                None
            } else {
                let email = s.subrange(12 + ulen, 12 + ulen + elen);
                let t0 = 12 + ulen + elen;
                let balance = spec_u64_from_le_bytes(s.subrange(t0, t0 + 8));
                let reputation = spec_u32_from_le_bytes(s.subrange(t0 + 8, t0 + 12));
                let created_at = i64_from_bits(spec_u64_from_le_bytes(s.subrange(t0 + 13, t0 + 21)));
                let last_login = i64_from_bits(spec_u64_from_le_bytes(s.subrange(t0 + 21, t0 + 29)));
                match (bool_from_byte(s[t0 + 12]), theme_from_tag(s[t0 + 29]), language_from_tag(
                    s[t0 + 30],
                ), bool_from_byte(s[t0 + 31])) {
                    (Some(is_verified), Some(theme), Some(language), Some(notifications)) => Some(
                        (
                            ProfileData {
                                user_id,
                                username,
                                email,
                                balance,
                                reputation,
                                is_verified,
                                created_at,
                                last_login,
                                preferences: UserPreferences {
                                    theme,
                                    language,
                                    notifications,
                                    privacy_level: s[t0 + 32],
                                },
                            },
                            45 + ulen + elen,
                        ),
                    ),
                    _ => None,
                }
            }
        }
    }
}

/// The encoding of a record occupies exactly its encoded length: the fixed
/// 45 bytes of integer, flag and tag fields plus the two string bodies.
pub proof fn lemma_encoded_profile_len(p: ProfileData)
    ensures
        spec_encode_profile(p).len() == encoded_profile_len(p),
{
    lemma_auto_spec_u32_to_from_le_bytes();
    lemma_auto_spec_u64_to_from_le_bytes();
}

/// Size bound: every record within the field bounds encodes to at most
/// `UserProfile::MAX_SIZE` bytes, so the fixed slot capacity always suffices.
pub proof fn lemma_encoded_size_bound(p: ProfileData)
    requires
        crate::state::within_field_bounds(p),
    ensures
        spec_encode_profile(p).len() <= UserProfile::MAX_SIZE,
{
    lemma_encoded_profile_len(p);
}

/// Round trip: decoding the encoding of any record (under any trailing
/// padding) yields that record back, having consumed exactly its encoded
/// length.
pub proof fn lemma_profile_roundtrip(p: ProfileData, pad: Seq<u8>)
    requires
        p.username.len() <= u32::MAX,
        p.email.len() <= u32::MAX,
    ensures
        spec_decode_profile(spec_encode_profile(p) + pad) == Some((p, encoded_profile_len(p))),
{
    lemma_auto_spec_u32_to_from_le_bytes();
    lemma_auto_spec_u64_to_from_le_bytes();
    crate::ints::lemma_i64_bits_roundtrip(p.created_at);
    crate::ints::lemma_i64_bits_roundtrip(p.last_login);
    let ul = p.username.len() as int;
    let el = p.email.len() as int;
    let t0 = 12 + ul + el;
    let s = spec_encode_profile(p) + pad;
    assert(s.len() == 45 + ul + el + pad.len());
    assert(s.subrange(0, 4) =~= spec_u32_to_le_bytes(p.user_id));
    assert(s.subrange(4, 8) =~= spec_u32_to_le_bytes(p.username.len() as u32));
    assert(s.subrange(8, 8 + ul) =~= p.username);
    assert(s.subrange(8 + ul, 12 + ul) =~= spec_u32_to_le_bytes(p.email.len() as u32));
    assert(s.subrange(12 + ul, 12 + ul + el) =~= p.email);
    assert(s.subrange(t0, t0 + 8) =~= spec_u64_to_le_bytes(p.balance));
    assert(s.subrange(t0 + 8, t0 + 12) =~= spec_u32_to_le_bytes(p.reputation));
    assert(s[t0 + 12] == bool_byte(p.is_verified));
    assert(s.subrange(t0 + 13, t0 + 21) =~= spec_u64_to_le_bytes(i64_bits(p.created_at)));
    assert(s.subrange(t0 + 21, t0 + 29) =~= spec_u64_to_le_bytes(i64_bits(p.last_login)));
    assert(s[t0 + 29] == theme_tag(p.preferences.theme));
    assert(s[t0 + 30] == language_tag(p.preferences.language));
    assert(s[t0 + 31] == bool_byte(p.preferences.notifications));
    assert(s[t0 + 32] == p.preferences.privacy_level);
    assert(theme_from_tag(theme_tag(p.preferences.theme)) == Some(p.preferences.theme));
    assert(language_from_tag(language_tag(p.preferences.language))
        == Some(p.preferences.language));
    assert(spec_decode_profile(s) matches Some((q, n)) && q =~= p && n == 45 + ul + el);
}

/// Decode is also a left inverse of encode: re-encoding a decoded record
/// reproduces exactly the bytes it was read from, so a record's stored form
/// is unique.
pub proof fn lemma_decode_encode_identity(data: Seq<u8>, p: ProfileData, n: int)
    requires
        spec_decode_profile(data) == Some((p, n)),
    ensures
        n == encoded_profile_len(p),
        spec_encode_profile(p) == data.subrange(0, n),
        p.username.len() <= u32::MAX,
        p.email.len() <= u32::MAX,
{
    lemma_auto_spec_u32_to_from_le_bytes();
    lemma_auto_spec_u64_to_from_le_bytes();
    let ul = p.username.len() as int;
    let el = p.email.len() as int;
    let t0 = 12 + ul + el;
    assert(data.subrange(0, 4) == spec_u32_to_le_bytes(p.user_id));
    assert(data.subrange(4, 8) == spec_u32_to_le_bytes(p.username.len() as u32));
    assert(data.subrange(8, 8 + ul) == p.username);
    assert(data.subrange(8 + ul, 12 + ul) == spec_u32_to_le_bytes(p.email.len() as u32));
    assert(data.subrange(12 + ul, 12 + ul + el) == p.email);
    assert(data.subrange(t0, t0 + 8) == spec_u64_to_le_bytes(p.balance));
    assert(data.subrange(t0 + 8, t0 + 12) == spec_u32_to_le_bytes(p.reputation));
    assert(data[t0 + 12] == bool_byte(p.is_verified));
    crate::ints::lemma_i64_from_bits_roundtrip(
        spec_u64_from_le_bytes(data.subrange(t0 + 13, t0 + 21)),
    );
    crate::ints::lemma_i64_from_bits_roundtrip(
        spec_u64_from_le_bytes(data.subrange(t0 + 21, t0 + 29)),
    );
    assert(data.subrange(t0 + 13, t0 + 21) == spec_u64_to_le_bytes(i64_bits(p.created_at)));
    assert(data.subrange(t0 + 21, t0 + 29) == spec_u64_to_le_bytes(i64_bits(p.last_login)));
    assert(data[t0 + 29] == theme_tag(p.preferences.theme));
    assert(data[t0 + 30] == language_tag(p.preferences.language));
    assert(data[t0 + 31] == bool_byte(p.preferences.notifications));
    assert(data[t0 + 32] == p.preferences.privacy_level);
    assert(spec_encode_profile(p) =~= data.subrange(0, t0 + 33));
}

pub fn theme_to_tag(t: &Theme) -> (r: u8)
    ensures
        r == theme_tag(*t),
{
    match t {
        Theme::Light => 0,
        Theme::Dark => 1,
        Theme::Auto => 2,
    }
}

pub fn language_to_tag(l: &Language) -> (r: u8)
    ensures
        r == language_tag(*l),
{
    match l {
        Language::English => 0,
        Language::Spanish => 1,
        Language::French => 2,
        Language::German => 3,
    }
}

pub fn bool_to_byte(b: bool) -> (r: u8)
    ensures
        r == bool_byte(b),
{
    if b {
        1
    } else {
        0
    }
}

/// Serializes `p` into a fresh buffer of exactly its encoded length.
pub fn encode_profile(p: &UserProfile) -> (r: Vec<u8>)
    requires
        p.username@.len() <= u32::MAX,
        p.email@.len() <= u32::MAX,
    ensures
        r@ == spec_encode_profile(p@),
        r@.len() == encoded_profile_len(p@),
{
    proof {
        lemma_auto_spec_u32_to_from_le_bytes();
        lemma_auto_spec_u64_to_from_le_bytes();
    }
    let mut out: Vec<u8> = Vec::new();
    let mut part = u32_to_le_bytes(p.user_id);
    out.append(&mut part);
    let mut part = u32_to_le_bytes(p.username.len() as u32);
    out.append(&mut part);
    out.extend_from_slice(p.username.as_slice());
    let mut part = u32_to_le_bytes(p.email.len() as u32);
    out.append(&mut part);
    out.extend_from_slice(p.email.as_slice());
    let mut part = u64_to_le_bytes(p.balance);
    out.append(&mut part);
    let mut part = u32_to_le_bytes(p.reputation);
    out.append(&mut part);
    out.push(bool_to_byte(p.is_verified));
    let mut part = u64_to_le_bytes(i64_to_bits(p.created_at));
    out.append(&mut part);
    let mut part = u64_to_le_bytes(i64_to_bits(p.last_login));
    out.append(&mut part);
    out.push(theme_to_tag(&p.preferences.theme));
    out.push(language_to_tag(&p.preferences.language));
    out.push(bool_to_byte(p.preferences.notifications));
    out.push(p.preferences.privacy_level);
    proof {
        assert(out@ =~= spec_encode_profile(p@));
    }
    out
}

/// Deserializes a record from a prefix of `data`, returning it with the
/// number of bytes consumed, exactly where the structural model decodes one.
pub fn decode_profile(data: &[u8]) -> (r: Result<(UserProfile, usize), DecodeError>)
    ensures
        match r {
            Ok((p, n)) => spec_decode_profile(data@) == Some((p@, n as int)),
            Err(_) => spec_decode_profile(data@) is None,
        },
{
    let len = data.len();
    if len < 8 {
        return Err(DecodeError);
    }
    let user_id = u32_from_le_bytes(slice_subrange(data, 0, 4));
    let ulen32 = u32_from_le_bytes(slice_subrange(data, 4, 8));
    if (len as u64) < 12u64 + (ulen32 as u64) {
        return Err(DecodeError);
    }
    let ulen = ulen32 as usize;
    let username = slice_to_vec(slice_subrange(data, 8, 8 + ulen));
    let elen32 = u32_from_le_bytes(slice_subrange(data, 8 + ulen, 12 + ulen));
    if (len as u64) < 45u64 + (ulen as u64) + (elen32 as u64) {
        return Err(DecodeError);
    }
    let elen = elen32 as usize;
    let email = slice_to_vec(slice_subrange(data, 12 + ulen, 12 + ulen + elen));
    let t0 = 12 + ulen + elen;
    let balance = u64_from_le_bytes(slice_subrange(data, t0, t0 + 8));
    let reputation = u32_from_le_bytes(slice_subrange(data, t0 + 8, t0 + 12));
    let vb = *slice_index_get(data, t0 + 12);
    let is_verified = if vb == 0 {
        false
    } else if vb == 1 {
        true
    } else {
        return Err(DecodeError);
    };
    let created_at = i64_of_bits(u64_from_le_bytes(slice_subrange(data, t0 + 13, t0 + 21)));
    let last_login = i64_of_bits(u64_from_le_bytes(slice_subrange(data, t0 + 21, t0 + 29)));
    let tb = *slice_index_get(data, t0 + 29);
    let theme = if tb == 0 {
        Theme::Light
    } else if tb == 1 {
        Theme::Dark
    } else if tb == 2 {
        Theme::Auto
    } else {
        return Err(DecodeError);
    };
    let lb = *slice_index_get(data, t0 + 30);
    let language = if lb == 0 {
        Language::English
    } else if lb == 1 {
        Language::Spanish
    } else if lb == 2 {
        Language::French
    } else if lb == 3 {
        Language::German
    } else {
        return Err(DecodeError);
    };
    let nb = *slice_index_get(data, t0 + 31);
    let notifications = if nb == 0 {
        false
    } else if nb == 1 {
        true
    } else {
        return Err(DecodeError);
    };
    let privacy_level = *slice_index_get(data, t0 + 32);
    let profile = UserProfile {
        user_id,
        username,
        email,
        balance,
        reputation,
        is_verified,
        created_at,
        last_login,
        preferences: UserPreferences { theme, language, notifications, privacy_level },
    };
    Ok((profile, t0 + 33))
}

} // verus!
