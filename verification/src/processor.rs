//! The operation handlers: five transition functions over a storage slot.
//!
//! A slot is a byte buffer with a native balance counter. The host runtime
//! supplies the signer flags, the ownership flag and the clock as plain
//! values; every decision made from them is verified here. A slot is empty
//! while its buffer holds no nonzero byte; each handler either applies its
//! whole transition and re-serializes the record in place, or fails before
//! any mutation.

use vstd::prelude::*;

use crate::codec::{
    decode_profile, encode_profile, encoded_profile_len, lemma_encoded_profile_len,
    lemma_profile_roundtrip, spec_decode_profile, spec_encode_profile,
};
use crate::error::{DecodeError, ProcessError, UserManagerError};
use crate::instruction::{decode_instruction, view_opt_bytes, InstructionData, UserInstruction};
use crate::ints::{i64_bits, i64_to_bits};
use crate::state::{
    contains_at_byte, default_preferences, has_at_byte, ProfileData, UserPreferences, UserProfile,
    MAX_EMAIL_LEN, MAX_USERNAME_LEN,
};

verus! {

/// One addressable unit of external storage: at most one serialized record
/// plus a native balance counter.
pub struct Slot {
    pub data: Vec<u8>,
    pub lamports: u64,
}

/// A slot is empty while its buffer holds no nonzero byte: never allocated,
/// or zeroed by a delete.
pub open spec fn slot_is_empty(data: Seq<u8>) -> bool {
    forall|i: int| 0 <= i < data.len() ==> data[i] == 0
}

pub open spec fn zeros(n: int) -> Seq<u8> {
    Seq::new(n as nat, |i: int| 0u8)
}

/// The user id assigned at creation: the low 32 bits of the timestamp.
pub open spec fn ts_user_id(now: i64) -> u32 {
    (i64_bits(now) % 0x1_0000_0000) as u32
}

/// The record a successful create stores: time-derived id, zero balance,
/// default preferences, both timestamps set to the clock value.
pub open spec fn created_profile(username: Seq<u8>, email: Seq<u8>, now: i64) -> ProfileData {
    ProfileData {
        user_id: ts_user_id(now),
        username,
        email,
        balance: 0,
        reputation: 0,
        is_verified: false,
        created_at: now,
        last_login: now,
        preferences: default_preferences(),
    }
}

/// Saturating addition on the balance counter.
pub open spec fn sat_add_u64(a: u64, b: u64) -> u64 {
    if a + b > u64::MAX {
        u64::MAX
    } else {
        (a + b) as u64
    }
}

pub open spec fn opt_or<A>(o: Option<A>, d: A) -> A {
    match o {
        Some(x) => x,
        None => d,
    }
}

/// Outcome of Create: the result and the slot buffer afterwards. Validation
/// order: username bound, email bound, email format, payer signature, slot
/// emptiness; on success the buffer becomes the encoded fresh record padded
/// with zeros to the fixed slot capacity.
pub open spec fn spec_create(
    data: Seq<u8>,
    payer_is_signer: bool,
    username: Seq<u8>,
    email: Seq<u8>,
    now: i64,
) -> (Result<(), ProcessError>, Seq<u8>) {
    if username.len() > MAX_USERNAME_LEN {
        (Err(ProcessError::User(UserManagerError::UsernameTooLong)), data)
    } else if email.len() > MAX_EMAIL_LEN {
        (Err(ProcessError::User(UserManagerError::EmailTooLong)), data)
    } else if !contains_at_byte(email) {
        (Err(ProcessError::User(UserManagerError::InvalidEmail)), data)
    } else if !payer_is_signer {
        (Err(ProcessError::MissingRequiredSignature), data)
    } else if !slot_is_empty(data) {
        (Err(ProcessError::User(UserManagerError::AlreadyInitialized)), data)
    } else {
        let p = created_profile(username, email, now);
        (
            Ok(()),
            spec_encode_profile(p) + zeros(
                UserProfile::MAX_SIZE as int - encoded_profile_len(p),
            ),
        )
    }
}

/// Outcome of Get: the decoded record, read-only. Requires an initialized,
/// owned slot holding a codec-valid record.
pub open spec fn spec_get(data: Seq<u8>, owner_matches: bool) -> Result<
    ProfileData,
    ProcessError,
> {
    if slot_is_empty(data) {
        Err(ProcessError::User(UserManagerError::NotInitialized))
    } else if !owner_matches {
        Err(ProcessError::IncorrectProgramId)
    } else {
        match spec_decode_profile(data) {
            None => Err(ProcessError::Decode(DecodeError)),
            Some((p, n)) => Ok(p),
        }
    }
}

/// Outcome of Update: fields present in the request replace their
/// counterparts after re-validation, absent fields stay, `last_login` takes
/// the clock value, and the record is re-encoded over the front of the
/// buffer. Any failure leaves the buffer untouched.
pub open spec fn spec_update(
    data: Seq<u8>,
    is_signer: bool,
    owner_matches: bool,
    username: Option<Seq<u8>>,
    email: Option<Seq<u8>>,
    preferences: Option<UserPreferences>,
    now: i64,
) -> (Result<(), ProcessError>, Seq<u8>) {
    if !is_signer {
        (Err(ProcessError::MissingRequiredSignature), data)
    } else if slot_is_empty(data) {
        (Err(ProcessError::User(UserManagerError::NotInitialized)), data)
    } else if !owner_matches {
        (Err(ProcessError::IncorrectProgramId), data)
    } else {
        match spec_decode_profile(data) {
            None => (Err(ProcessError::Decode(DecodeError)), data),
            Some((p0, n)) => {
                if username matches Some(u) && u.len() > MAX_USERNAME_LEN {
                    (Err(ProcessError::User(UserManagerError::UsernameTooLong)), data)
                } else if email matches Some(e) && e.len() > MAX_EMAIL_LEN {
                    (Err(ProcessError::User(UserManagerError::EmailTooLong)), data)
                } else if email matches Some(e) && !contains_at_byte(e) {
                    (Err(ProcessError::User(UserManagerError::InvalidEmail)), data)
                } else if preferences matches Some(q) && q.privacy_level > 5 {
                    (Err(ProcessError::User(UserManagerError::InvalidPrivacyLevel)), data)
                } else {
                    let p1 = ProfileData {
                        username: opt_or(username, p0.username),
                        email: opt_or(email, p0.email),
                        preferences: opt_or(preferences, p0.preferences),
                        last_login: now,
                        ..p0
                    };
                    let enc = spec_encode_profile(p1);
                    if enc.len() > data.len() {
                        (Err(ProcessError::BufferTooSmall), data)
                    } else {
                        (Ok(()), enc + data.skip(enc.len() as int))
                    }
                }
            },
        }
    }
}

/// Outcome of AdjustBalance: a deposit saturates at the numeric bound, a
/// withdrawal needs sufficient funds; `last_login` takes the clock value.
pub open spec fn spec_adjust_balance(
    data: Seq<u8>,
    is_signer: bool,
    owner_matches: bool,
    amount: u64,
    is_deposit: bool,
    now: i64,
) -> (Result<(), ProcessError>, Seq<u8>) {
    if !is_signer {
        (Err(ProcessError::MissingRequiredSignature), data)
    } else if slot_is_empty(data) {
        (Err(ProcessError::User(UserManagerError::NotInitialized)), data)
    } else if !owner_matches {
        (Err(ProcessError::IncorrectProgramId), data)
    } else {
        match spec_decode_profile(data) {
            None => (Err(ProcessError::Decode(DecodeError)), data),
            Some((p0, n)) => {
                if !is_deposit && p0.balance < amount {
                    (Err(ProcessError::User(UserManagerError::InsufficientFunds)), data)
                } else {
                    let new_balance = if is_deposit {
                        sat_add_u64(p0.balance, amount)
                    } else {
                        (p0.balance - amount) as u64
                    };
                    let p1 = ProfileData { balance: new_balance, last_login: now, ..p0 };
                    let enc = spec_encode_profile(p1);
                    if enc.len() > data.len() {
                        (Err(ProcessError::BufferTooSmall), data)
                    } else {
                        (Ok(()), enc + data.skip(enc.len() as int))
                    }
                }
            },
        }
    }
}

/// Outcome of Delete: the result, the slot buffer afterwards, the slot
/// balance afterwards, and the destination balance afterwards. On success
/// the buffer is zero-filled and the whole balance moves to the destination;
/// the transfer must not overflow.
pub open spec fn spec_delete(
    data: Seq<u8>,
    user_lamports: u64,
    dest_lamports: u64,
    is_signer: bool,
    owner_matches: bool,
) -> (Result<(), ProcessError>, Seq<u8>, u64, u64) {
    if !is_signer {
        (Err(ProcessError::MissingRequiredSignature), data, user_lamports, dest_lamports)
    } else if slot_is_empty(data) {
        (
            Err(ProcessError::User(UserManagerError::NotInitialized)),
            data,
            user_lamports,
            dest_lamports,
        )
    } else if !owner_matches {
        (Err(ProcessError::IncorrectProgramId), data, user_lamports, dest_lamports)
    } else {
        match spec_decode_profile(data) {
            None => (Err(ProcessError::Decode(DecodeError)), data, user_lamports, dest_lamports),
            Some((p0, n)) => {
                if dest_lamports + user_lamports > u64::MAX {
                    (Err(ProcessError::ArithmeticOverflow), data, user_lamports, dest_lamports)
                } else {
                    (Ok(()), zeros(data.len() as int), 0, (dest_lamports + user_lamports) as u64)
                }
            },
        }
    }
}

/// Outcome of Get as the caller of the dispatcher sees it: the record is
/// exposed read-only, so only the result survives.
pub open spec fn spec_get_unit(data: Seq<u8>, owner_matches: bool) -> Result<(), ProcessError> {
    match spec_get(data, owner_matches) {
        Ok(_) => Ok(()),
        Err(e) => Err(e),
    }
}

/// The whole state machine: decodes one instruction and applies its
/// transition to the user slot (and, for Delete, the destination balance).
/// Yields the result, then the user slot's buffer and balance, then the
/// second slot's buffer and balance.
pub open spec fn spec_process(
    user_data: Seq<u8>,
    user_lamports: u64,
    second_data: Seq<u8>,
    second_lamports: u64,
    user_is_signer: bool,
    second_is_signer: bool,
    owner_matches: bool,
    instruction: Seq<u8>,
    now: i64,
) -> (Result<(), ProcessError>, Seq<u8>, u64, Seq<u8>, u64) {
    match crate::instruction::spec_decode_instruction(instruction) {
        None => (
            Err(ProcessError::User(UserManagerError::InvalidInstruction)),
            user_data,
            user_lamports,
            second_data,
            second_lamports,
        ),
        Some(ins) => match ins {
            InstructionData::CreateProfile { username, email } => {
                let outcome = spec_create(user_data, second_is_signer, username, email, now);
                (outcome.0, outcome.1, user_lamports, second_data, second_lamports)
            },
            InstructionData::GetProfile => (
                spec_get_unit(user_data, owner_matches),
                user_data,
                user_lamports,
                second_data,
                second_lamports,
            ),
            InstructionData::UpdateProfile { username, email, preferences } => {
                let outcome = spec_update(
                    user_data,
                    user_is_signer,
                    owner_matches,
                    username,
                    email,
                    preferences,
                    now,
                );
                (outcome.0, outcome.1, user_lamports, second_data, second_lamports)
            },
            InstructionData::UpdateBalance { amount, is_deposit } => {
                let outcome = spec_adjust_balance(
                    user_data,
                    user_is_signer,
                    owner_matches,
                    amount,
                    is_deposit,
                    now,
                );
                (outcome.0, outcome.1, user_lamports, second_data, second_lamports)
            },
            InstructionData::DeleteProfile => {
                let outcome = spec_delete(
                    user_data,
                    user_lamports,
                    second_lamports,
                    user_is_signer,
                    owner_matches,
                );
                (outcome.0, outcome.1, outcome.2, second_data, outcome.3)
            },
        },
    }
}

/// Whether the slot buffer holds no nonzero byte, decided by scanning.
pub fn buffer_is_empty(data: &Vec<u8>) -> (r: bool)
    ensures
        r == slot_is_empty(data@),
{
    let mut i: usize = 0;
    while i < data.len()
        invariant
            0 <= i <= data@.len(),
            forall|j: int| 0 <= j < i ==> data@[j] == 0,
        decreases data@.len() - i,
    {
        if data[i] != 0 {
            return false;
        }
        i = i + 1;
    }
    true
}

fn zero_vec(n: usize) -> (r: Vec<u8>)
    ensures
        r@ == zeros(n as int),
{
    let mut out: Vec<u8> = Vec::new();
    let mut i: usize = 0;
    while i < n
        invariant
            0 <= i <= n,
            out@ =~= zeros(i as int),
        decreases n - i,
    {
        out.push(0);
        i = i + 1;
    }
    proof {
        assert(out@ =~= zeros(n as int));
    }
    out
}

/// Replaces the front of `data` with `enc`, leaving the remaining suffix as
/// it was: the in-place overwrite the host buffer supports.
fn overwrite_prefix(data: &mut Vec<u8>, enc: Vec<u8>)
    requires
        enc@.len() <= old(data)@.len(),
    ensures
        final(data)@ == enc@ + old(data)@.skip(enc@.len() as int),
{
    let ghost e = enc@;
    let n = enc.len();
    let mut buf = enc;
    let mut i: usize = n;
    while i < data.len()
        invariant
            n <= i <= data@.len(),
            data@ == old(data)@,
            buf@ == e + data@.subrange(n as int, i as int),
        decreases data@.len() - i,
    {
        buf.push(data[i]);
        i = i + 1;
        proof {
            assert(buf@ =~= e + data@.subrange(n as int, i as int));
        }
    }
    proof {
        assert(e + data@.subrange(n as int, data@.len() as int) =~= e + data@.skip(n as int));
    }
    *data = buf;
}

pub struct Processor;

impl Processor {
    /// Create: validates the inputs and the payer's signature, requires an
    /// empty slot, and stores a fresh record over a zero-padded buffer of
    /// the fixed capacity. The slot balance is funded by the host and not
    /// touched here.
    pub fn process_create_profile(
        user_slot: &mut Slot,
        payer_is_signer: bool,
        username: Vec<u8>,
        email: Vec<u8>,
        now: i64,
    ) -> (r: Result<(), ProcessError>)
        ensures
            (r, final(user_slot).data@) == spec_create(
                old(user_slot).data@,
                payer_is_signer,
                username@,
                email@,
                now,
            ),
            final(user_slot).lamports == old(user_slot).lamports,
            r is Err ==> final(user_slot).data@ == old(user_slot).data@,
            username@.len() > MAX_USERNAME_LEN ==> r == Err::<(), ProcessError>(
                ProcessError::User(UserManagerError::UsernameTooLong),
            ),
            username@.len() <= MAX_USERNAME_LEN && email@.len() > MAX_EMAIL_LEN ==> r == Err::<
                (),
                ProcessError,
            >(ProcessError::User(UserManagerError::EmailTooLong)),
            username@.len() <= MAX_USERNAME_LEN && email@.len() <= MAX_EMAIL_LEN
                && !contains_at_byte(email@) ==> r == Err::<(), ProcessError>(
                ProcessError::User(UserManagerError::InvalidEmail),
            ),
            username@.len() <= MAX_USERNAME_LEN && email@.len() <= MAX_EMAIL_LEN
                && contains_at_byte(email@) && payer_is_signer && !slot_is_empty(
                old(user_slot).data@,
            ) ==> r == Err::<(), ProcessError>(
                ProcessError::User(UserManagerError::AlreadyInitialized),
            ),
            r is Ok <==> (username@.len() <= MAX_USERNAME_LEN && email@.len() <= MAX_EMAIL_LEN
                && contains_at_byte(email@) && payer_is_signer && slot_is_empty(
                old(user_slot).data@,
            )),
            r is Ok ==> final(user_slot).data@.len() == UserProfile::MAX_SIZE,
    {
        if username.len() > MAX_USERNAME_LEN {
            return Err(ProcessError::User(UserManagerError::UsernameTooLong));
        }
        if email.len() > MAX_EMAIL_LEN {
            return Err(ProcessError::User(UserManagerError::EmailTooLong));
        }
        if !has_at_byte(&email) {
            return Err(ProcessError::User(UserManagerError::InvalidEmail));
        }
        if !payer_is_signer {
            return Err(ProcessError::MissingRequiredSignature);
        }
        if !buffer_is_empty(&user_slot.data) {
            return Err(ProcessError::User(UserManagerError::AlreadyInitialized));
        }
        let bits = i64_to_bits(now);
        let user_id = (bits % 0x1_0000_0000u64) as u32;
        let mut profile = UserProfile::new(user_id, username, email);
        profile.created_at = now;
        profile.last_login = now;
        proof {
            lemma_encoded_profile_len(profile@);
        }
        let enc = encode_profile(&profile);
        let mut buf = enc;
        let ghost e = buf@;
        while buf.len() < UserProfile::MAX_SIZE
            invariant
                e.len() <= buf@.len() <= UserProfile::MAX_SIZE,
                buf@ == e + zeros(buf@.len() - e.len()),
            decreases UserProfile::MAX_SIZE - buf@.len(),
        {
            buf.push(0);
            proof {
                assert(buf@ =~= e + zeros(buf@.len() - e.len()));
            }
        }
        user_slot.data = buf;
        Ok(())
    }

    /// Get: read-only; decodes and returns the record of an initialized,
    /// owned slot.
    pub fn process_get_profile(user_slot: &Slot, owner_matches: bool) -> (r: Result<
        UserProfile,
        ProcessError,
    >)
        ensures
            match r {
                Ok(p) => spec_get(user_slot.data@, owner_matches) == Ok::<
                    ProfileData,
                    ProcessError,
                >(p@),
                Err(e) => spec_get(user_slot.data@, owner_matches) == Err::<
                    ProfileData,
                    ProcessError,
                >(e),
            },
    {
        if buffer_is_empty(&user_slot.data) {
            return Err(ProcessError::User(UserManagerError::NotInitialized));
        }
        if !owner_matches {
            return Err(ProcessError::IncorrectProgramId);
        }
        match decode_profile(user_slot.data.as_slice()) {
            Err(e) => Err(ProcessError::Decode(e)),
            Ok((profile, _)) => Ok(profile),
        }
    }

    /// Update: partial update of the record; absent fields stay unchanged,
    /// supplied fields are re-validated under the same rules as Create, the
    /// privacy level must stay on its 0 to 5 scale, and `last_login` takes
    /// the clock value. Any failure leaves the whole record untouched.
    pub fn process_update_profile(
        user_slot: &mut Slot,
        user_is_signer: bool,
        owner_matches: bool,
        username: Option<Vec<u8>>,
        email: Option<Vec<u8>>,
        preferences: Option<UserPreferences>,
        now: i64,
    ) -> (r: Result<(), ProcessError>)
        ensures
            (r, final(user_slot).data@) == spec_update(
                old(user_slot).data@,
                user_is_signer,
                owner_matches,
                view_opt_bytes(username),
                view_opt_bytes(email),
                preferences,
                now,
            ),
            final(user_slot).lamports == old(user_slot).lamports,
            r is Err ==> final(user_slot).data@ == old(user_slot).data@,
            preferences matches Some(q) && q.privacy_level > 5 && r is Err
                ==> final(user_slot).data@ == old(user_slot).data@,
    {
        if !user_is_signer {
            return Err(ProcessError::MissingRequiredSignature);
        }
        if buffer_is_empty(&user_slot.data) {
            return Err(ProcessError::User(UserManagerError::NotInitialized));
        }
        if !owner_matches {
            return Err(ProcessError::IncorrectProgramId);
        }
        let decoded = decode_profile(user_slot.data.as_slice());
        let mut profile = match decoded {
            Err(e) => {
                return Err(ProcessError::Decode(e));
            },
            Ok((p, _)) => p,
        };
        match username {
            Some(new_username) => {
                if new_username.len() > MAX_USERNAME_LEN {
                    return Err(ProcessError::User(UserManagerError::UsernameTooLong));
                }
                profile.username = new_username;
            },
            None => {},
        }
        match email {
            Some(new_email) => {
                if new_email.len() > MAX_EMAIL_LEN {
                    return Err(ProcessError::User(UserManagerError::EmailTooLong));
                }
                if !has_at_byte(&new_email) {
                    return Err(ProcessError::User(UserManagerError::InvalidEmail));
                }
                profile.email = new_email;
            },
            None => {},
        }
        match preferences {
            Some(new_preferences) => {
                if new_preferences.privacy_level > 5 {
                    return Err(ProcessError::User(UserManagerError::InvalidPrivacyLevel));
                }
                profile.preferences = new_preferences;
            },
            None => {},
        }
        profile.last_login = now;
        let enc = encode_profile(&profile);
        if enc.len() > user_slot.data.len() {
            return Err(ProcessError::BufferTooSmall);
        }
        overwrite_prefix(&mut user_slot.data, enc);
        Ok(())
    }

    /// AdjustBalance: deposits saturate at the numeric bound and never fail;
    /// a withdrawal larger than the current balance fails with
    /// `InsufficientFunds` and leaves the record untouched.
    pub fn process_update_balance(
        user_slot: &mut Slot,
        user_is_signer: bool,
        owner_matches: bool,
        amount: u64,
        is_deposit: bool,
        now: i64,
    ) -> (r: Result<(), ProcessError>)
        ensures
            (r, final(user_slot).data@) == spec_adjust_balance(
                old(user_slot).data@,
                user_is_signer,
                owner_matches,
                amount,
                is_deposit,
                now,
            ),
            final(user_slot).lamports == old(user_slot).lamports,
            r is Err ==> final(user_slot).data@ == old(user_slot).data@,
            user_is_signer && owner_matches && !is_deposit && (spec_decode_profile(
                old(user_slot).data@,
            ) matches Some((p0, n)) && p0.balance < amount) && !slot_is_empty(old(user_slot).data@)
                ==> r == Err::<(), ProcessError>(
                ProcessError::User(UserManagerError::InsufficientFunds),
            ),
    {
        if !user_is_signer {
            return Err(ProcessError::MissingRequiredSignature);
        }
        if buffer_is_empty(&user_slot.data) {
            return Err(ProcessError::User(UserManagerError::NotInitialized));
        }
        if !owner_matches {
            return Err(ProcessError::IncorrectProgramId);
        }
        let decoded = decode_profile(user_slot.data.as_slice());
        let mut profile = match decoded {
            Err(e) => {
                return Err(ProcessError::Decode(e));
            },
            Ok((p, _)) => p,
        };
        if is_deposit {
            profile.balance = profile.balance.saturating_add(amount);
        } else {
            if profile.balance < amount {
                return Err(ProcessError::User(UserManagerError::InsufficientFunds));
            }
            profile.balance = profile.balance - amount;
        }
        profile.last_login = now;
        let enc = encode_profile(&profile);
        if enc.len() > user_slot.data.len() {
            return Err(ProcessError::BufferTooSmall);
        }
        overwrite_prefix(&mut user_slot.data, enc);
        Ok(())
    }

    /// Delete: transfers the whole slot balance to the destination (failing
    /// with `ArithmeticOverflow` when the sum would not fit) and zero-fills
    /// the buffer, leaving the slot empty.
    pub fn process_delete_profile(
        user_slot: &mut Slot,
        destination_slot: &mut Slot,
        user_is_signer: bool,
        owner_matches: bool,
    ) -> (r: Result<(), ProcessError>)
        ensures
            ({
                let outcome = spec_delete(
                    old(user_slot).data@,
                    old(user_slot).lamports,
                    old(destination_slot).lamports,
                    user_is_signer,
                    owner_matches,
                );
                &&& r == outcome.0
                &&& final(user_slot).data@ == outcome.1
                &&& final(user_slot).lamports == outcome.2
                &&& final(destination_slot).lamports == outcome.3
            }),
            final(destination_slot).data@ == old(destination_slot).data@,
            r is Err ==> final(user_slot).data@ == old(user_slot).data@
                && final(user_slot).lamports == old(user_slot).lamports
                && final(destination_slot).lamports == old(destination_slot).lamports,
            r is Ok ==> slot_is_empty(final(user_slot).data@) && final(user_slot).lamports == 0,
    {
        if !user_is_signer {
            return Err(ProcessError::MissingRequiredSignature);
        }
        if buffer_is_empty(&user_slot.data) {
            return Err(ProcessError::User(UserManagerError::NotInitialized));
        }
        if !owner_matches {
            return Err(ProcessError::IncorrectProgramId);
        }
        let decoded = decode_profile(user_slot.data.as_slice());
        match decoded {
            Err(e) => {
                return Err(ProcessError::Decode(e));
            },
            Ok(_) => {},
        }
        let moved = match destination_slot.lamports.checked_add(user_slot.lamports) {
            None => {
                return Err(ProcessError::ArithmeticOverflow);
            },
            Some(total) => total,
        };
        destination_slot.lamports = moved;
        user_slot.lamports = 0;
        let n = user_slot.data.len();
        user_slot.data = zero_vec(n);
        Ok(())
    }

    /// Entry point of the state machine: decodes one instruction and runs
    /// its handler. The first slot is the record's slot; the second is the
    /// payer for Create and the destination for Delete. `second_is_signer`
    /// is the payer's signature flag, `user_is_signer` the record slot's.
    pub fn process(
        user_slot: &mut Slot,
        second_slot: &mut Slot,
        user_is_signer: bool,
        second_is_signer: bool,
        owner_matches: bool,
        instruction_data: &[u8],
        now: i64,
    ) -> (r: Result<(), ProcessError>)
        ensures
            ({
                let outcome = spec_process(
                    old(user_slot).data@,
                    old(user_slot).lamports,
                    old(second_slot).data@,
                    old(second_slot).lamports,
                    user_is_signer,
                    second_is_signer,
                    owner_matches,
                    instruction_data@,
                    now,
                );
                &&& r == outcome.0
                &&& final(user_slot).data@ == outcome.1
                &&& final(user_slot).lamports == outcome.2
                &&& final(second_slot).data@ == outcome.3
                &&& final(second_slot).lamports == outcome.4
            }),
            r is Err ==> final(user_slot).data@ == old(user_slot).data@,
    {
        let instruction = match decode_instruction(instruction_data) {
            Err(e) => {
                return Err(ProcessError::User(e));
            },
            Ok(i) => i,
        };
        match instruction {
            UserInstruction::CreateProfile { username, email } => Self::process_create_profile(
                user_slot,
                second_is_signer,
                username,
                email,
                now,
            ),
            UserInstruction::GetProfile => {
                match Self::process_get_profile(user_slot, owner_matches) {
                    Ok(_) => Ok(()),
                    Err(e) => Err(e),
                }
            },
            UserInstruction::UpdateProfile { username, email, preferences } => (
            Self::process_update_profile(
                user_slot,
                user_is_signer,
                owner_matches,
                username,
                email,
                preferences,
                now,
            )),
            UserInstruction::UpdateBalance { amount, is_deposit } => (
            Self::process_update_balance(
                user_slot,
                user_is_signer,
                owner_matches,
                amount,
                is_deposit,
                now,
            )),
            UserInstruction::DeleteProfile => Self::process_delete_profile(
                user_slot,
                second_slot,
                user_is_signer,
                owner_matches,
            ),
        }
    }
}

} // verus!
