//! Laws that relate several operations: what a freshly created slot holds,
//! what a partial update leaves alone, how an adjusted balance reads back,
//! and what a deleted slot rejects.

use vstd::prelude::*;

use crate::codec::{
    encoded_profile_len, lemma_encoded_profile_len, lemma_profile_roundtrip, spec_decode_profile,
    spec_encode_profile,
};
use crate::error::{ProcessError, UserManagerError};
use crate::processor::{
    created_profile, opt_or, sat_add_u64, slot_is_empty, spec_adjust_balance, spec_create,
    spec_delete, spec_get, spec_process, spec_update, zeros,
};
use crate::state::{contains_at_byte, within_field_bounds, ProfileData, UserPreferences};

verus! {

/// The slot buffer holds one codec-valid record that obeys every business
/// rule: field bounds, a well-formed email, and a privacy level on its scale.
pub open spec fn holds_valid_record(data: Seq<u8>) -> bool {
    match spec_decode_profile(data) {
        Some((p, n)) => within_field_bounds(p) && contains_at_byte(p.email)
            && p.preferences.privacy_level <= 5,
        None => false,
    }
}

/// The state invariant of a storage slot: it is empty, or it holds exactly
/// one fully-formed, rule-abiding record.
pub open spec fn slot_invariant(data: Seq<u8>) -> bool {
    slot_is_empty(data) || holds_valid_record(data)
}

/// A successful Create leaves the slot holding exactly the fresh record:
/// decoding the new buffer yields the created profile, which is within the
/// field bounds. Reading the slot back (Get on an owned slot) returns it.
pub proof fn lemma_create_stores_record(
    data: Seq<u8>,
    payer_is_signer: bool,
    username: Seq<u8>,
    email: Seq<u8>,
    now: i64,
)
    requires
        spec_create(data, payer_is_signer, username, email, now).0 is Ok,
    ensures
        ({
            let p = created_profile(username, email, now);
            let stored = spec_create(data, payer_is_signer, username, email, now).1;
            &&& within_field_bounds(p)
            &&& spec_decode_profile(stored) == Some((p, encoded_profile_len(p)))
            &&& spec_get(stored, true) == Ok::<ProfileData, ProcessError>(p)
        }),
{
    let p = created_profile(username, email, now);
    let pad = zeros(crate::state::UserProfile::MAX_SIZE as int - encoded_profile_len(p));
    lemma_encoded_profile_len(p);
    lemma_profile_roundtrip(p, pad);
    let stored = spec_create(data, payer_is_signer, username, email, now).1;
    assert(stored == spec_encode_profile(p) + pad);
    // the stored buffer is not all zeros: the email's `@` byte survives in it
    let i = choose|i: int| 0 <= i < email.len() && email[i] == crate::state::AT_BYTE;
    assert(spec_encode_profile(p)[12 + username.len() + i] == email[i]);
    assert(stored[12 + username.len() + i] == email[i]);
    assert(!slot_is_empty(stored));
}

/// An Update with every field absent leaves the stored record byte-identical
/// in every field except `last_login`, which takes the clock value.
pub proof fn lemma_update_absent_fields(data: Seq<u8>, p0: ProfileData, n0: int, now: i64)
    requires
        spec_decode_profile(data) == Some((p0, n0)),
        spec_update(data, true, true, None, None, None, now).0 is Ok,
    ensures
        ({
            let p1 = ProfileData { last_login: now, ..p0 };
            spec_decode_profile(spec_update(data, true, true, None, None, None, now).1) == Some(
                (p1, encoded_profile_len(p1)),
            )
        }),
{
    let p1 = ProfileData { last_login: now, ..p0 };
    let enc = spec_encode_profile(p1);
    lemma_encoded_profile_len(p1);
    lemma_profile_roundtrip(p1, data.skip(enc.len() as int));
}

/// How an adjusted balance reads back: a successful deposit saturates at the
/// numeric bound, a successful withdrawal subtracts exactly; nothing else in
/// the record changes except `last_login`.
pub proof fn lemma_adjust_balance_result(
    data: Seq<u8>,
    p0: ProfileData,
    n0: int,
    amount: u64,
    is_deposit: bool,
    now: i64,
)
    requires
        spec_decode_profile(data) == Some((p0, n0)),
        spec_adjust_balance(data, true, true, amount, is_deposit, now).0 is Ok,
    ensures
        ({
            let new_balance = if is_deposit {
                sat_add_u64(p0.balance, amount)
            } else {
                (p0.balance - amount) as u64
            };
            let p1 = ProfileData { balance: new_balance, last_login: now, ..p0 };
            spec_decode_profile(spec_adjust_balance(data, true, true, amount, is_deposit, now).1)
                == Some((p1, encoded_profile_len(p1)))
        }),
        !is_deposit ==> p0.balance >= amount,
{
    let new_balance = if is_deposit {
        sat_add_u64(p0.balance, amount)
    } else {
        (p0.balance - amount) as u64
    };
    let p1 = ProfileData { balance: new_balance, last_login: now, ..p0 };
    let enc = spec_encode_profile(p1);
    lemma_encoded_profile_len(p1);
    lemma_profile_roundtrip(p1, data.skip(enc.len() as int));
}

/// Every operation on an empty slot is rejected: Create is the only
/// transition out of the empty state, and everything else fails with
/// `NotInitialized` before any mutation.
pub proof fn lemma_empty_slot_rejects_operations(
    data: Seq<u8>,
    user_lamports: u64,
    dest_lamports: u64,
    owner_matches: bool,
    username: Option<Seq<u8>>,
    email: Option<Seq<u8>>,
    preferences: Option<UserPreferences>,
    amount: u64,
    is_deposit: bool,
    now: i64,
)
    requires
        slot_is_empty(data),
    ensures
        spec_get(data, owner_matches) == Err::<ProfileData, ProcessError>(
            ProcessError::User(UserManagerError::NotInitialized),
        ),
        spec_update(data, true, owner_matches, username, email, preferences, now).0 == Err::<
            (),
            ProcessError,
        >(ProcessError::User(UserManagerError::NotInitialized)),
        spec_adjust_balance(data, true, owner_matches, amount, is_deposit, now).0 == Err::<
            (),
            ProcessError,
        >(ProcessError::User(UserManagerError::NotInitialized)),
        spec_delete(data, user_lamports, dest_lamports, true, owner_matches).0 == Err::<
            (),
            ProcessError,
        >(ProcessError::User(UserManagerError::NotInitialized)),
{
}

/// A successful Delete zero-fills the buffer and moves the whole slot
/// balance to the destination; the slot is empty afterwards, so a second
/// Delete fails with the same precondition error as any other operation on
/// an empty slot.
pub proof fn lemma_delete_then_empty(
    data: Seq<u8>,
    user_lamports: u64,
    dest_lamports: u64,
    owner_matches: bool,
)
    requires
        spec_delete(data, user_lamports, dest_lamports, true, owner_matches).0 is Ok,
    ensures
        ({
            let outcome = spec_delete(data, user_lamports, dest_lamports, true, owner_matches);
            &&& slot_is_empty(outcome.1)
            &&& outcome.2 == 0
            &&& outcome.3 == dest_lamports + user_lamports
            &&& forall|ul2: u64, dl2: u64, owner2: bool|
                spec_delete(outcome.1, ul2, dl2, true, owner2).0 == Err::<(), ProcessError>(
                    ProcessError::User(UserManagerError::NotInitialized),
                )
        }),
{
}

/// Create preserves the state invariant: on success the slot holds the fresh
/// rule-abiding record, on failure it is untouched.
pub proof fn lemma_create_preserves_invariant(
    data: Seq<u8>,
    payer_is_signer: bool,
    username: Seq<u8>,
    email: Seq<u8>,
    now: i64,
)
    requires
        slot_invariant(data),
    ensures
        slot_invariant(spec_create(data, payer_is_signer, username, email, now).1),
{
    let outcome = spec_create(data, payer_is_signer, username, email, now);
    if outcome.0 is Ok {
        lemma_create_stores_record(data, payer_is_signer, username, email, now);
    } else {
        assert(outcome.1 == data);
    }
}

/// Update preserves the state invariant: supplied fields are re-validated,
/// kept fields were valid already.
pub proof fn lemma_update_preserves_invariant(
    data: Seq<u8>,
    is_signer: bool,
    owner_matches: bool,
    username: Option<Seq<u8>>,
    email: Option<Seq<u8>>,
    preferences: Option<UserPreferences>,
    now: i64,
)
    requires
        slot_invariant(data),
    ensures
        slot_invariant(spec_update(data, is_signer, owner_matches, username, email, preferences, now).1),
{
    let outcome = spec_update(data, is_signer, owner_matches, username, email, preferences, now);
    if outcome.0 is Ok {
        assert(!slot_is_empty(data));
        match spec_decode_profile(data) {
            Some((p0, n0)) => {
                let p1 = ProfileData {
                    username: opt_or(username, p0.username),
                    email: opt_or(email, p0.email),
                    preferences: opt_or(preferences, p0.preferences),
                    last_login: now,
                    ..p0
                };
                let enc = spec_encode_profile(p1);
                lemma_profile_roundtrip(p1, data.skip(enc.len() as int));
                assert(outcome.1 == enc + data.skip(enc.len() as int));
            },
            None => {
                assert(false);
            },
        }
    } else {
        assert(outcome.1 == data);
    }
}

/// AdjustBalance preserves the state invariant: only the balance and
/// `last_login` change, and both stay within their types.
pub proof fn lemma_adjust_balance_preserves_invariant(
    data: Seq<u8>,
    is_signer: bool,
    owner_matches: bool,
    amount: u64,
    is_deposit: bool,
    now: i64,
)
    requires
        slot_invariant(data),
    ensures
        slot_invariant(spec_adjust_balance(data, is_signer, owner_matches, amount, is_deposit, now).1),
{
    let outcome = spec_adjust_balance(data, is_signer, owner_matches, amount, is_deposit, now);
    if outcome.0 is Ok {
        assert(!slot_is_empty(data));
        match spec_decode_profile(data) {
            Some((p0, n0)) => {
                let new_balance = if is_deposit {
                    sat_add_u64(p0.balance, amount)
                } else {
                    (p0.balance - amount) as u64
                };
                let p1 = ProfileData { balance: new_balance, last_login: now, ..p0 };
                let enc = spec_encode_profile(p1);
                lemma_profile_roundtrip(p1, data.skip(enc.len() as int));
                assert(outcome.1 == enc + data.skip(enc.len() as int));
            },
            None => {
                assert(false);
            },
        }
    } else {
        assert(outcome.1 == data);
    }
}

/// The whole state machine preserves the slot invariant: whatever
/// instruction arrives and whatever flags the host supplies, the record slot
/// stays empty or holds one fully-formed, rule-abiding record.
pub proof fn lemma_process_preserves_invariant(
    user_data: Seq<u8>,
    user_lamports: u64,
    second_data: Seq<u8>,
    second_lamports: u64,
    user_is_signer: bool,
    second_is_signer: bool,
    owner_matches: bool,
    instruction: Seq<u8>,
    now: i64,
)
    requires
        slot_invariant(user_data),
    ensures
        slot_invariant(
            spec_process(
                user_data,
                user_lamports,
                second_data,
                second_lamports,
                user_is_signer,
                second_is_signer,
                owner_matches,
                instruction,
                now,
            ).1,
        ),
{
    match crate::instruction::spec_decode_instruction(instruction) {
        None => {},
        Some(ins) => match ins {
            crate::instruction::InstructionData::CreateProfile { username, email } => {
                lemma_create_preserves_invariant(
                    user_data,
                    second_is_signer,
                    username,
                    email,
                    now,
                );
            },
            crate::instruction::InstructionData::GetProfile => {},
            crate::instruction::InstructionData::UpdateProfile {
                username,
                email,
                preferences,
            } => {
                lemma_update_preserves_invariant(
                    user_data,
                    user_is_signer,
                    owner_matches,
                    username,
                    email,
                    preferences,
                    now,
                );
            },
            crate::instruction::InstructionData::UpdateBalance { amount, is_deposit } => {
                lemma_adjust_balance_preserves_invariant(
                    user_data,
                    user_is_signer,
                    owner_matches,
                    amount,
                    is_deposit,
                    now,
                );
            },
            crate::instruction::InstructionData::DeleteProfile => {},
        },
    }
}

} // verus!
