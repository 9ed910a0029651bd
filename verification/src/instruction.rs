//! The instruction decoder: parses an opaque byte buffer into one of the five
//! typed operations. The layout is one tag byte followed by the payload;
//! strings carry a 4-byte length prefix, options one presence byte. The whole
//! buffer must be consumed. No business validation happens here.

use vstd::prelude::*;
use vstd::bytes::*;
use vstd::slice::{slice_index_get, slice_subrange, slice_to_vec};

use crate::codec::{
    bool_byte, bool_from_byte, language_from_tag, spec_encode_preferences, theme_from_tag,
};
use crate::error::{DecodeError, UserManagerError};
use crate::state::{Language, Theme, UserPreferences};

verus! {

#[derive(Debug)]
pub enum UserInstruction {
    CreateProfile { username: Vec<u8>, email: Vec<u8> },
    GetProfile,
    UpdateProfile {
        username: Option<Vec<u8>>,
        email: Option<Vec<u8>>,
        preferences: Option<UserPreferences>,
    },
    UpdateBalance { amount: u64, is_deposit: bool },
    DeleteProfile,
}

/// The mathematical model of an operation request.
#[verifier::ext_equal]
pub ghost enum InstructionData {
    CreateProfile { username: Seq<u8>, email: Seq<u8> },
    GetProfile,
    UpdateProfile {
        username: Option<Seq<u8>>,
        email: Option<Seq<u8>>,
        preferences: Option<UserPreferences>,
    },
    UpdateBalance { amount: u64, is_deposit: bool },
    DeleteProfile,
}

pub open spec fn view_opt_bytes(o: Option<Vec<u8>>) -> Option<Seq<u8>> {
    match o {
        Some(v) => Some(v@),
        None => None,
    }
}

impl View for UserInstruction {
    type V = InstructionData;

    open spec fn view(&self) -> InstructionData {
        match self {
            UserInstruction::CreateProfile { username, email } => InstructionData::CreateProfile {
                username: username@,
                email: email@,
            },
            UserInstruction::GetProfile => InstructionData::GetProfile,
            UserInstruction::UpdateProfile { username, email, preferences } => (
            InstructionData::UpdateProfile {
                username: view_opt_bytes(*username),
                email: view_opt_bytes(*email),
                preferences: *preferences,
            }),
            UserInstruction::UpdateBalance { amount, is_deposit } => (
            InstructionData::UpdateBalance { amount: *amount, is_deposit: *is_deposit }),
            UserInstruction::DeleteProfile => InstructionData::DeleteProfile,
        }
    }
}

/// A length-prefixed string: 4 bytes of little-endian length, then the bytes.
pub open spec fn spec_encode_string(s: Seq<u8>) -> Seq<u8> {
    spec_u32_to_le_bytes(s.len() as u32) + s
}

/// An optional value: one presence byte, then the value when present.
pub open spec fn spec_encode_opt_string(o: Option<Seq<u8>>) -> Seq<u8> {
    match o {
        None => seq![0u8],
        Some(s) => seq![1u8] + spec_encode_string(s),
    }
}

pub open spec fn spec_encode_opt_preferences(o: Option<UserPreferences>) -> Seq<u8> {
    match o {
        None => seq![0u8],
        Some(q) => seq![1u8] + spec_encode_preferences(q),
    }
}

/// The encoded bytes of an operation request.
pub open spec fn spec_encode_instruction(i: InstructionData) -> Seq<u8> {
    match i {
        InstructionData::CreateProfile { username, email } => seq![0u8] + spec_encode_string(
            username,
        ) + spec_encode_string(email),
        InstructionData::GetProfile => seq![1u8],
        InstructionData::UpdateProfile { username, email, preferences } => seq![2u8]
            + spec_encode_opt_string(username) + spec_encode_opt_string(email)
            + spec_encode_opt_preferences(preferences),
        InstructionData::UpdateBalance { amount, is_deposit } => seq![3u8] + spec_u64_to_le_bytes(
            amount,
        ) + seq![bool_byte(is_deposit)],
        InstructionData::DeleteProfile => seq![4u8],
    }
}

/// Whether every string carried by the request fits a 4-byte length prefix.
pub open spec fn instruction_lens_ok(i: InstructionData) -> bool {
    match i {
        InstructionData::CreateProfile { username, email } => username.len() <= u32::MAX
            && email.len() <= u32::MAX,
        InstructionData::UpdateProfile { username, email, .. } => {
            &&& (username matches Some(u) ==> u.len() <= u32::MAX)
            &&& (email matches Some(e) ==> e.len() <= u32::MAX)
        },
        _ => true,
    }
}

/// Reads a length-prefixed string starting at `off`; yields the string and
/// the offset just past it.
pub open spec fn spec_read_string(s: Seq<u8>, off: int) -> Option<(Seq<u8>, int)> {
    if off + 4 > s.len() {
        None
    } else {
        let n = spec_u32_from_le_bytes(s.subrange(off, off + 4)) as int;
        if off + 4 + n > s.len() {
            None
        } else {
            Some((s.subrange(off + 4, off + 4 + n), off + 4 + n))
        }
    }
}

pub open spec fn spec_read_opt_string(s: Seq<u8>, off: int) -> Option<(Option<Seq<u8>>, int)> {
    if off + 1 > s.len() {
        None
    } else if s[off] == 0 {
        Some((None, off + 1))
    } else if s[off] == 1 {
        match spec_read_string(s, off + 1) {
            Some((v, o2)) => Some((Some(v), o2)),
            None => None,
        }
    } else {
        None
    }
}

pub open spec fn spec_read_preferences(s: Seq<u8>, off: int) -> Option<(UserPreferences, int)> {
    if off + 4 > s.len() {
        None
    } else {
        match (theme_from_tag(s[off]), language_from_tag(s[off + 1]), bool_from_byte(s[off + 2])) {
            (Some(theme), Some(language), Some(notifications)) => Some(
                (
                    UserPreferences { theme, language, notifications, privacy_level: s[off + 3] },
                    off + 4,
                ),
            ),
            _ => None,
        }
    }
}

pub open spec fn spec_read_opt_preferences(s: Seq<u8>, off: int) -> Option<
    (Option<UserPreferences>, int),
> {
    if off + 1 > s.len() {
        None
    } else if s[off] == 0 {
        Some((None, off + 1))
    } else if s[off] == 1 {
        match spec_read_preferences(s, off + 1) {
            Some((q, o2)) => Some((Some(q), o2)),
            None => None,
        }
    } else {
        None
    }
}

/// Structural decoding of an operation request: the tagged payload, consumed
/// exactly to the end of the buffer, or nothing when the buffer is malformed.
pub open spec fn spec_decode_instruction(s: Seq<u8>) -> Option<InstructionData> {
    if s.len() < 1 {
        None
    } else {
        let tag = s[0];
        if tag == 0 {
            match spec_read_string(s, 1) {
                None => None,
                Some((username, o1)) => match spec_read_string(s, o1) {
                    None => None,
                    Some((email, o2)) => if o2 == s.len() {
                        Some(InstructionData::CreateProfile { username, email })
                    } else {
                        None
                    },
                },
            }
        } else if tag == 1 {
            if s.len() == 1 {
                Some(InstructionData::GetProfile)
            } else {
                None
            }
        } else if tag == 2 {
            match spec_read_opt_string(s, 1) {
                None => None,
                Some((username, o1)) => match spec_read_opt_string(s, o1) {
                    None => None,
                    Some((email, o2)) => match spec_read_opt_preferences(s, o2) {
                        None => None,
                        Some((preferences, o3)) => if o3 == s.len() {
                            Some(InstructionData::UpdateProfile { username, email, preferences })
                        } else {
                            None
                        },
                    },
                },
            }
        } else if tag == 3 {
            if s.len() != 10 {
                None
            } else {
                let amount = spec_u64_from_le_bytes(s.subrange(1, 9));
                match bool_from_byte(s[9]) {
                    Some(is_deposit) => Some(
                        InstructionData::UpdateBalance { amount, is_deposit },
                    ),
                    None => None,
                }
            }
        } else if tag == 4 {
            if s.len() == 1 {
                Some(InstructionData::DeleteProfile)
            } else {
                None
            }
        } else {
            None
        }
    }
}

proof fn lemma_read_string_at(s: Seq<u8>, off: int, v: Seq<u8>)
    requires
        0 <= off,
        off + 4 + v.len() <= s.len(),
        v.len() <= u32::MAX,
        s.subrange(off, off + 4) == spec_u32_to_le_bytes(v.len() as u32),
        s.subrange(off + 4, off + 4 + v.len()) == v,
    ensures
        spec_read_string(s, off) == Some((v, off + 4 + v.len())),
{
    lemma_auto_spec_u32_to_from_le_bytes();
    let x = v.len() as u32;
    assert(spec_u32_to_le_bytes(x).len() == 4);
    assert(spec_u32_from_le_bytes(s.subrange(off, off + 4)) == x);
}

proof fn lemma_read_opt_string_at(s: Seq<u8>, off: int, o: Option<Seq<u8>>)
    requires
        0 <= off,
        o matches Some(v) ==> v.len() <= u32::MAX,
        off + spec_encode_opt_string(o).len() <= s.len(),
        s.subrange(off, off + spec_encode_opt_string(o).len()) == spec_encode_opt_string(o),
    ensures
        spec_read_opt_string(s, off) == Some((o, off + spec_encode_opt_string(o).len())),
{
    lemma_auto_spec_u32_to_from_le_bytes();
    let e = spec_encode_opt_string(o);
    let el = e.len() as int;
    assert(s.subrange(off, off + el)[0] == e[0]);
    match o {
        None => {
            assert(s[off] == e[0]);
        },
        Some(v) => {
            let w = spec_u32_to_le_bytes(v.len() as u32);
            assert(w.len() == 4);
            assert(s[off] == e[0]);
            assert forall|i: int| 0 <= i < 4 implies s.subrange(off + 1, off + 5)[i] == w[i] by {
                assert(s.subrange(off, off + el)[1 + i] == e[1 + i]);
            }
            assert(s.subrange(off + 1, off + 5) =~= w);
            assert forall|i: int| 0 <= i < v.len() implies (
            s.subrange(off + 5, off + 5 + v.len() as int)[i] == v[i]) by {
                assert(s.subrange(off, off + el)[5 + i] == e[5 + i]);
            }
            assert(s.subrange(off + 5, off + 5 + v.len()) =~= v);
            lemma_read_string_at(s, off + 1, v);
        },
    }
}

proof fn lemma_read_opt_preferences_at(s: Seq<u8>, off: int, o: Option<UserPreferences>)
    requires
        0 <= off,
        off + spec_encode_opt_preferences(o).len() <= s.len(),
        s.subrange(off, off + spec_encode_opt_preferences(o).len()) == spec_encode_opt_preferences(
            o,
        ),
    ensures
        spec_read_opt_preferences(s, off) == Some((o, off + spec_encode_opt_preferences(o).len())),
{
    let e = spec_encode_opt_preferences(o);
    match o {
        None => {
            assert(s[off] == e[0]);
        },
        Some(q) => {
            assert(s[off] == e[0]);
            assert(s[off + 1] == e[1]);
            assert(s[off + 2] == e[2]);
            assert(s[off + 3] == e[3]);
            assert(s[off + 4] == e[4]);
        },
    }
}

/// Round trip: decoding the encoding of any operation request yields that
/// request back.
pub proof fn lemma_instruction_roundtrip(i: InstructionData)
    requires
        instruction_lens_ok(i),
    ensures
        spec_decode_instruction(spec_encode_instruction(i)) == Some(i),
{
    lemma_auto_spec_u32_to_from_le_bytes();
    lemma_auto_spec_u64_to_from_le_bytes();
    let s = spec_encode_instruction(i);
    match i {
        InstructionData::CreateProfile { username, email } => {
            let ul = username.len() as int;
            let el = email.len() as int;
            assert(s[0] == 0);
            assert(s.len() == 9 + ul + el);
            assert(s.subrange(1, 5) =~= spec_u32_to_le_bytes(username.len() as u32));
            assert(s.subrange(5, 5 + ul) =~= username);
            lemma_read_string_at(s, 1, username);
            assert(s.subrange(5 + ul, 9 + ul) =~= spec_u32_to_le_bytes(email.len() as u32));
            assert(s.subrange(9 + ul, 9 + ul + el) =~= email);
            lemma_read_string_at(s, 5 + ul, email);
        },
        InstructionData::GetProfile => {
            assert(s.len() == 1 && s[0] == 1);
        },
        InstructionData::UpdateProfile { username, email, preferences } => {
            let a = spec_encode_opt_string(username);
            let b = spec_encode_opt_string(email);
            let c = spec_encode_opt_preferences(preferences);
            let al = a.len() as int;
            let bl = b.len() as int;
            let cl = c.len() as int;
            assert(s[0] == 2);
            assert(s.len() == 1 + al + bl + cl);
            assert(s.subrange(1, 1 + al) =~= a);
            lemma_read_opt_string_at(s, 1, username);
            assert(s.subrange(1 + al, 1 + al + bl) =~= b);
            lemma_read_opt_string_at(s, 1 + al, email);
            assert(s.subrange(1 + al + bl, s.len() as int) =~= c);
            lemma_read_opt_preferences_at(s, 1 + al + bl, preferences);
        },
        InstructionData::UpdateBalance { amount, is_deposit } => {
            assert(s.len() == 10 && s[0] == 3);
            assert(s.subrange(1, 9) =~= spec_u64_to_le_bytes(amount));
            assert(s[9] == bool_byte(is_deposit));
        },
        InstructionData::DeleteProfile => {
            assert(s.len() == 1 && s[0] == 4);
        },
    }
}

fn read_string(data: &[u8], off: usize) -> (r: Result<(Vec<u8>, usize), DecodeError>)
    ensures
        match r {
            Ok((v, n)) => spec_read_string(data@, off as int) == Some((v@, n as int)) && off < n
                <= data@.len(),
            Err(_) => spec_read_string(data@, off as int) is None,
        },
{
    let len = data.len();
    if off > len || len - off < 4 {
        return Err(DecodeError);
    }
    let n32 = u32_from_le_bytes(slice_subrange(data, off, off + 4));
    if (n32 as u64) > ((len - (off + 4)) as u64) {
        return Err(DecodeError);
    }
    let n = n32 as usize;
    let v = slice_to_vec(slice_subrange(data, off + 4, off + 4 + n));
    Ok((v, off + 4 + n))
}

fn read_opt_string(data: &[u8], off: usize) -> (r: Result<(Option<Vec<u8>>, usize), DecodeError>)
    ensures
        match r {
            Ok((v, n)) => spec_read_opt_string(data@, off as int) == Some(
                (view_opt_bytes(v), n as int),
            ) && off < n <= data@.len(),
            Err(_) => spec_read_opt_string(data@, off as int) is None,
        },
{
    if off >= data.len() {
        return Err(DecodeError);
    }
    let p = *slice_index_get(data, off);
    if p == 0 {
        Ok((None, off + 1))
    } else if p == 1 {
        let (v, n) = read_string(data, off + 1)?;
        Ok((Some(v), n))
    } else {
        Err(DecodeError)
    }
}

fn read_preferences(data: &[u8], off: usize) -> (r: Result<(UserPreferences, usize), DecodeError>)
    ensures
        match r {
            Ok((q, n)) => spec_read_preferences(data@, off as int) == Some((q, n as int)) && off
                < n <= data@.len(),
            Err(_) => spec_read_preferences(data@, off as int) is None,
        },
{
    let len = data.len();
    if off > len || len - off < 4 {
        return Err(DecodeError);
    }
    let tb = *slice_index_get(data, off);
    let theme = if tb == 0 {
        Theme::Light
    } else if tb == 1 {
        Theme::Dark
    } else if tb == 2 {
        Theme::Auto
    } else {
        return Err(DecodeError);
    };
    let lb = *slice_index_get(data, off + 1);
    let language = if lb == 0 {
        Language::English
    } else if lb == 1 {
        Language::Spanish
    } else if lb == 2 {
        Language::French
    } else if lb == 3 {
        Language::German
    } else {
        return Err(DecodeError);
    };
    let nb = *slice_index_get(data, off + 2);
    let notifications = if nb == 0 {
        false
    } else if nb == 1 {
        true
    } else {
        return Err(DecodeError);
    };
    let privacy_level = *slice_index_get(data, off + 3);
    Ok((UserPreferences { theme, language, notifications, privacy_level }, off + 4))
}

fn read_opt_preferences(data: &[u8], off: usize) -> (r: Result<
    (Option<UserPreferences>, usize),
    DecodeError,
>)
    ensures
        match r {
            Ok((q, n)) => spec_read_opt_preferences(data@, off as int) == Some((q, n as int))
                && off < n <= data@.len(),
            Err(_) => spec_read_opt_preferences(data@, off as int) is None,
        },
{
    if off >= data.len() {
        return Err(DecodeError);
    }
    let p = *slice_index_get(data, off);
    if p == 0 {
        Ok((None, off + 1))
    } else if p == 1 {
        let (q, n) = read_preferences(data, off + 1)?;
        Ok((Some(q), n))
    } else {
        Err(DecodeError)
    }
}

/// Decodes one operation request; fails with `InvalidInstruction` exactly on
/// the buffers whose structural decoding yields nothing.
pub fn decode_instruction(data: &[u8]) -> (r: Result<UserInstruction, UserManagerError>)
    ensures
        match r {
            Ok(i) => spec_decode_instruction(data@) == Some(i@),
            Err(e) => spec_decode_instruction(data@) is None && e
                == UserManagerError::InvalidInstruction,
        },
{
    let len = data.len();
    if len < 1 {
        return Err(UserManagerError::InvalidInstruction);
    }
    let tag = *slice_index_get(data, 0);
    if tag == 0 {
        let r1 = read_string(data, 1);
        match r1 {
            Err(_) => Err(UserManagerError::InvalidInstruction),
            Ok((username, o1)) => {
                let r2 = read_string(data, o1);
                match r2 {
                    Err(_) => Err(UserManagerError::InvalidInstruction),
                    Ok((email, o2)) => {
                        if o2 == len {
                            Ok(UserInstruction::CreateProfile { username, email })
                        } else {
                            Err(UserManagerError::InvalidInstruction)
                        }
                    },
                }
            },
        }
    } else if tag == 1 {
        if len == 1 {
            Ok(UserInstruction::GetProfile)
        } else {
            Err(UserManagerError::InvalidInstruction)
        }
    } else if tag == 2 {
        let r1 = read_opt_string(data, 1);
        match r1 {
            Err(_) => Err(UserManagerError::InvalidInstruction),
            Ok((username, o1)) => {
                let r2 = read_opt_string(data, o1);
                match r2 {
                    Err(_) => Err(UserManagerError::InvalidInstruction),
                    Ok((email, o2)) => {
                        let r3 = read_opt_preferences(data, o2);
                        match r3 {
                            Err(_) => Err(UserManagerError::InvalidInstruction),
                            Ok((preferences, o3)) => {
                                if o3 == len {
                                    Ok(
                                        UserInstruction::UpdateProfile {
                                            username,
                                            email,
                                            preferences,
                                        },
                                    )
                                } else {
                                    Err(UserManagerError::InvalidInstruction)
                                }
                            },
                        }
                    },
                }
            },
        }
    } else if tag == 3 {
        if len != 10 {
            return Err(UserManagerError::InvalidInstruction);
        }
        let amount = u64_from_le_bytes(slice_subrange(data, 1, 9));
        let db = *slice_index_get(data, 9);
        let is_deposit = if db == 0 {
            false
        } else if db == 1 {
            true
        } else {
            return Err(UserManagerError::InvalidInstruction);
        };
        Ok(UserInstruction::UpdateBalance { amount, is_deposit })
    } else if tag == 4 {
        if len == 1 {
            Ok(UserInstruction::DeleteProfile)
        } else {
            Err(UserManagerError::InvalidInstruction)
        }
    } else {
        Err(UserManagerError::InvalidInstruction)
    }
}

/// Serializes an operation request; the exact bytes `decode_instruction`
/// accepts back.
pub fn encode_instruction(i: &UserInstruction) -> (r: Vec<u8>)
    requires
        instruction_lens_ok(i@),
    ensures
        r@ == spec_encode_instruction(i@),
{
    proof {
        lemma_auto_spec_u32_to_from_le_bytes();
        lemma_auto_spec_u64_to_from_le_bytes();
    }
    let mut out: Vec<u8> = Vec::new();
    match i {
        UserInstruction::CreateProfile { username, email } => {
            out.push(0);
            push_string(&mut out, username);
            push_string(&mut out, email);
        },
        UserInstruction::GetProfile => {
            out.push(1);
        },
        UserInstruction::UpdateProfile { username, email, preferences } => {
            out.push(2);
            push_opt_string(&mut out, username);
            push_opt_string(&mut out, email);
            push_opt_preferences(&mut out, preferences);
        },
        UserInstruction::UpdateBalance { amount, is_deposit } => {
            out.push(3);
            let mut part = u64_to_le_bytes(*amount);
            out.append(&mut part);
            out.push(crate::codec::bool_to_byte(*is_deposit));
        },
        UserInstruction::DeleteProfile => {
            out.push(4);
        },
    }
    proof {
        assert(out@ =~= spec_encode_instruction(i@));
    }
    out
}

fn push_string(out: &mut Vec<u8>, s: &Vec<u8>)
    requires
        s@.len() <= u32::MAX,
    ensures
        final(out)@ == old(out)@ + spec_encode_string(s@),
{
    let mut part = u32_to_le_bytes(s.len() as u32);
    out.append(&mut part);
    out.extend_from_slice(s.as_slice());
    proof {
        assert(out@ =~= old(out)@ + spec_encode_string(s@));
    }
}

fn push_opt_string(out: &mut Vec<u8>, o: &Option<Vec<u8>>)
    requires
        view_opt_bytes(*o) matches Some(s) ==> s.len() <= u32::MAX,
    ensures
        final(out)@ == old(out)@ + spec_encode_opt_string(view_opt_bytes(*o)),
{
    match o {
        None => {
            out.push(0);
            proof {
                assert(out@ =~= old(out)@ + spec_encode_opt_string(view_opt_bytes(*o)));
            }
        },
        Some(s) => {
            out.push(1);
            push_string(out, s);
            proof {
                assert(out@ =~= old(out)@ + spec_encode_opt_string(view_opt_bytes(*o)));
            }
        },
    }
}

fn push_opt_preferences(out: &mut Vec<u8>, o: &Option<UserPreferences>)
    ensures
        final(out)@ == old(out)@ + spec_encode_opt_preferences(*o),
{
    match o {
        None => {
            out.push(0);
        },
        Some(q) => {
            out.push(1);
            out.push(crate::codec::theme_to_tag(&q.theme));
            out.push(crate::codec::language_to_tag(&q.language));
            out.push(crate::codec::bool_to_byte(q.notifications));
            out.push(q.privacy_level);
        },
    }
    proof {
        assert(out@ =~= old(out)@ + spec_encode_opt_preferences(*o));
    }
}

} // verus!
