use user_management_program::codec::decode_profile;
use user_management_program::error::{ProcessError, UserManagerError};
use user_management_program::instruction::{encode_instruction, UserInstruction};
use user_management_program::process_instruction;
use user_management_program::processor::{Processor, Slot};
use user_management_program::state::{Language, Theme, UserPreferences, UserProfile};

const NOW: i64 = 1_700_000_000;

fn empty_slot() -> Slot {
    Slot { data: Vec::new(), lamports: 0 }
}

fn created_slot() -> Slot {
    let mut slot = empty_slot();
    let r = Processor::process_create_profile(
        &mut slot,
        true,
        b"alice".to_vec(),
        b"a@x.com".to_vec(),
        NOW,
    );
    assert!(r.is_ok());
    slot
}

fn user_error(e: UserManagerError) -> ProcessError {
    ProcessError::User(e)
}

#[test]
fn create_then_get_returns_fresh_record() {
    let slot = created_slot();
    assert_eq!(slot.data.len(), UserProfile::MAX_SIZE);
    let p = Processor::process_get_profile(&slot, true).unwrap();
    assert_eq!(p.user_id, NOW as u32);
    assert_eq!(p.username, b"alice".to_vec());
    assert_eq!(p.email, b"a@x.com".to_vec());
    assert_eq!(p.balance, 0);
    assert_eq!(p.reputation, 0);
    assert!(!p.is_verified);
    assert_eq!(p.created_at, NOW);
    assert_eq!(p.last_login, NOW);
    assert_eq!(
        p.preferences,
        UserPreferences {
            theme: Theme::Light,
            language: Language::English,
            notifications: true,
            privacy_level: 3,
        }
    );
}

#[test]
fn create_rejects_bad_inputs_and_busy_slots() {
    // occupied slot
    let mut slot = created_slot();
    let before = slot.data.clone();
    let r = Processor::process_create_profile(
        &mut slot,
        true,
        b"bob".to_vec(),
        b"b@x.com".to_vec(),
        NOW,
    );
    assert_eq!(r.unwrap_err(), user_error(UserManagerError::AlreadyInitialized));
    assert_eq!(slot.data, before);

    // username over 32 bytes
    let mut slot = empty_slot();
    let r = Processor::process_create_profile(
        &mut slot,
        true,
        vec![b'u'; 33],
        b"a@x.com".to_vec(),
        NOW,
    );
    assert_eq!(r.unwrap_err(), user_error(UserManagerError::UsernameTooLong));
    assert!(slot.data.is_empty());

    // email over 64 bytes
    let mut long_email = vec![b'e'; 64];
    long_email.push(b'@');
    let r = Processor::process_create_profile(&mut slot, true, b"bob".to_vec(), long_email, NOW);
    assert_eq!(r.unwrap_err(), user_error(UserManagerError::EmailTooLong));

    // email without an `@`
    let r = Processor::process_create_profile(
        &mut slot,
        true,
        b"bob".to_vec(),
        b"no-at-sign".to_vec(),
        NOW,
    );
    assert_eq!(r.unwrap_err(), user_error(UserManagerError::InvalidEmail));

    // payer did not sign
    let r = Processor::process_create_profile(
        &mut slot,
        false,
        b"bob".to_vec(),
        b"b@x.com".to_vec(),
        NOW,
    );
    assert_eq!(r.unwrap_err(), ProcessError::MissingRequiredSignature);
    assert!(slot.data.is_empty());
}

#[test]
fn get_requires_initialized_owned_slot() {
    let slot = empty_slot();
    assert_eq!(
        Processor::process_get_profile(&slot, true).unwrap_err(),
        user_error(UserManagerError::NotInitialized)
    );
    let slot = created_slot();
    assert_eq!(
        Processor::process_get_profile(&slot, false).unwrap_err(),
        ProcessError::IncorrectProgramId
    );
}

#[test]
fn withdrawal_over_balance_fails_and_changes_nothing() {
    let mut slot = created_slot();
    let r = Processor::process_update_balance(&mut slot, true, true, 100, true, NOW + 1);
    assert!(r.is_ok());
    let before = slot.data.clone();
    let r = Processor::process_update_balance(&mut slot, true, true, 150, false, NOW + 2);
    assert_eq!(r.unwrap_err(), user_error(UserManagerError::InsufficientFunds));
    assert_eq!(slot.data, before);
    let p = Processor::process_get_profile(&slot, true).unwrap();
    assert_eq!(p.balance, 100);
    assert_eq!(p.last_login, NOW + 1);
}

#[test]
fn deposits_saturate_instead_of_overflowing() {
    let mut slot = created_slot();
    let r = Processor::process_update_balance(&mut slot, true, true, u64::MAX, true, NOW);
    assert!(r.is_ok());
    let r = Processor::process_update_balance(&mut slot, true, true, u64::MAX, true, NOW);
    assert!(r.is_ok());
    let p = Processor::process_get_profile(&slot, true).unwrap();
    assert_eq!(p.balance, u64::MAX);
    // the saturated balance can be withdrawn exactly
    let r = Processor::process_update_balance(&mut slot, true, true, u64::MAX, false, NOW);
    assert!(r.is_ok());
    let p = Processor::process_get_profile(&slot, true).unwrap();
    assert_eq!(p.balance, 0);
}

#[test]
fn balance_requires_signature_and_record() {
    let mut slot = created_slot();
    let r = Processor::process_update_balance(&mut slot, false, true, 1, true, NOW);
    assert_eq!(r.unwrap_err(), ProcessError::MissingRequiredSignature);
    let r = Processor::process_update_balance(&mut slot, true, false, 1, true, NOW);
    assert_eq!(r.unwrap_err(), ProcessError::IncorrectProgramId);
    let mut slot = empty_slot();
    let r = Processor::process_update_balance(&mut slot, true, true, 1, true, NOW);
    assert_eq!(r.unwrap_err(), user_error(UserManagerError::NotInitialized));
}

#[test]
fn update_with_absent_fields_only_touches_last_login() {
    let mut slot = created_slot();
    let raw_before = slot.data.clone();
    let (before, consumed) = decode_profile(&slot.data).unwrap();
    let r = Processor::process_update_profile(&mut slot, true, true, None, None, None, NOW + 9);
    assert!(r.is_ok());
    // byte-identical outside the last_login window of the encoded record
    let t0 = 12 + before.username.len() + before.email.len();
    assert_eq!(slot.data.len(), raw_before.len());
    for i in 0..slot.data.len() {
        if !(t0 + 21 <= i && i < t0 + 29) {
            assert_eq!(slot.data[i], raw_before[i], "byte {i} changed");
        }
    }
    let _ = consumed;
    let (after, _) = decode_profile(&slot.data).unwrap();
    assert_eq!(after.user_id, before.user_id);
    assert_eq!(after.username, before.username);
    assert_eq!(after.email, before.email);
    assert_eq!(after.balance, before.balance);
    assert_eq!(after.reputation, before.reputation);
    assert_eq!(after.is_verified, before.is_verified);
    assert_eq!(after.created_at, before.created_at);
    assert_eq!(after.preferences, before.preferences);
    assert_eq!(after.last_login, NOW + 9);
}

#[test]
fn update_applies_supplied_fields() {
    let mut slot = created_slot();
    let prefs = UserPreferences {
        theme: Theme::Dark,
        language: Language::German,
        notifications: false,
        privacy_level: 5,
    };
    let r = Processor::process_update_profile(
        &mut slot,
        true,
        true,
        Some(b"alice2".to_vec()),
        Some(b"new@y.org".to_vec()),
        Some(prefs),
        NOW + 3,
    );
    assert!(r.is_ok());
    let p = Processor::process_get_profile(&slot, true).unwrap();
    assert_eq!(p.username, b"alice2".to_vec());
    assert_eq!(p.email, b"new@y.org".to_vec());
    assert_eq!(p.preferences, prefs);
    assert_eq!(p.created_at, NOW);
    assert_eq!(p.last_login, NOW + 3);
}

#[test]
fn update_rejecting_privacy_level_leaves_record_unchanged() {
    let mut slot = created_slot();
    let before = slot.data.clone();
    let r = Processor::process_update_profile(
        &mut slot,
        true,
        true,
        Some(b"other".to_vec()),
        Some(b"o@t.her".to_vec()),
        Some(UserPreferences {
            theme: Theme::Dark,
            language: Language::French,
            notifications: false,
            privacy_level: 6,
        }),
        NOW + 4,
    );
    assert_eq!(r.unwrap_err(), user_error(UserManagerError::InvalidPrivacyLevel));
    assert_eq!(slot.data, before);
}

#[test]
fn update_revalidates_username_and_email() {
    let mut slot = created_slot();
    let before = slot.data.clone();
    let r = Processor::process_update_profile(
        &mut slot,
        true,
        true,
        Some(vec![b'u'; 33]),
        None,
        None,
        NOW,
    );
    assert_eq!(r.unwrap_err(), user_error(UserManagerError::UsernameTooLong));
    let r = Processor::process_update_profile(
        &mut slot,
        true,
        true,
        None,
        Some(vec![b'e'; 65]),
        None,
        NOW,
    );
    assert_eq!(r.unwrap_err(), user_error(UserManagerError::EmailTooLong));
    let r = Processor::process_update_profile(
        &mut slot,
        true,
        true,
        None,
        Some(b"plain".to_vec()),
        None,
        NOW,
    );
    assert_eq!(r.unwrap_err(), user_error(UserManagerError::InvalidEmail));
    assert_eq!(slot.data, before);
}

#[test]
fn delete_zeroes_buffer_and_moves_balance() {
    let mut slot = created_slot();
    slot.lamports = 900;
    let mut destination = empty_slot();
    destination.lamports = 50;
    let r = Processor::process_delete_profile(&mut slot, &mut destination, true, true);
    assert!(r.is_ok());
    assert_eq!(slot.data.len(), UserProfile::MAX_SIZE);
    assert!(slot.data.iter().all(|b| *b == 0));
    assert_eq!(slot.lamports, 0);
    assert_eq!(destination.lamports, 950);

    // a second delete sees an empty slot
    let r = Processor::process_delete_profile(&mut slot, &mut destination, true, true);
    assert_eq!(r.unwrap_err(), user_error(UserManagerError::NotInitialized));
    assert_eq!(destination.lamports, 950);
}

#[test]
fn delete_rejects_overflowing_transfer() {
    let mut slot = created_slot();
    slot.lamports = 2;
    let mut destination = empty_slot();
    destination.lamports = u64::MAX - 1;
    let before = slot.data.clone();
    let r = Processor::process_delete_profile(&mut slot, &mut destination, true, true);
    assert_eq!(r.unwrap_err(), ProcessError::ArithmeticOverflow);
    assert_eq!(slot.data, before);
    assert_eq!(slot.lamports, 2);
    assert_eq!(destination.lamports, u64::MAX - 1);
}

#[test]
fn end_to_end_scenario() {
    let mut user = empty_slot();
    let mut second = empty_slot();

    // Create("alice", "a@x.com")
    let create = encode_instruction(&UserInstruction::CreateProfile {
        username: b"alice".to_vec(),
        email: b"a@x.com".to_vec(),
    });
    let r = process_instruction(&mut user, &mut second, false, true, true, &create, NOW);
    assert!(r.is_ok());

    // Get returns the fresh record with default preferences
    let p = Processor::process_get_profile(&user, true).unwrap();
    assert_eq!(p.user_id, NOW as u32);
    assert_eq!(p.balance, 0);
    assert_eq!(p.preferences.theme, Theme::Light);
    assert_eq!(p.preferences.language, Language::English);
    assert!(p.preferences.notifications);
    assert_eq!(p.preferences.privacy_level, 3);
    let get = encode_instruction(&UserInstruction::GetProfile);
    let r = process_instruction(&mut user, &mut second, true, false, true, &get, NOW);
    assert!(r.is_ok());

    // deposit 100
    let deposit = encode_instruction(&UserInstruction::UpdateBalance {
        amount: 100,
        is_deposit: true,
    });
    let r = process_instruction(&mut user, &mut second, true, false, true, &deposit, NOW + 1);
    assert!(r.is_ok());
    assert_eq!(Processor::process_get_profile(&user, true).unwrap().balance, 100);

    // withdraw 150 fails, balance stays 100
    let withdraw = encode_instruction(&UserInstruction::UpdateBalance {
        amount: 150,
        is_deposit: false,
    });
    let r = process_instruction(&mut user, &mut second, true, false, true, &withdraw, NOW + 2);
    assert_eq!(r.unwrap_err(), user_error(UserManagerError::InsufficientFunds));
    assert_eq!(Processor::process_get_profile(&user, true).unwrap().balance, 100);

    // privacy level 7 is rejected
    let update = encode_instruction(&UserInstruction::UpdateProfile {
        username: None,
        email: None,
        preferences: Some(UserPreferences {
            theme: Theme::Light,
            language: Language::English,
            notifications: true,
            privacy_level: 7,
        }),
    });
    let r = process_instruction(&mut user, &mut second, true, false, true, &update, NOW + 3);
    assert_eq!(r.unwrap_err(), user_error(UserManagerError::InvalidPrivacyLevel));

    // delete zeroes the buffer and moves the balance out
    user.lamports = 777;
    let delete = encode_instruction(&UserInstruction::DeleteProfile);
    let r = process_instruction(&mut user, &mut second, true, false, true, &delete, NOW + 4);
    assert!(r.is_ok());
    assert!(user.data.iter().all(|b| *b == 0));
    assert_eq!(user.lamports, 0);
    assert_eq!(second.lamports, 777);
}

#[test]
fn process_rejects_malformed_instruction_bytes() {
    let mut user = created_slot();
    let before = user.data.clone();
    let mut second = empty_slot();
    let r = process_instruction(&mut user, &mut second, true, true, true, &[42], NOW);
    assert_eq!(r.unwrap_err(), user_error(UserManagerError::InvalidInstruction));
    assert_eq!(user.data, before);
}

#[test]
fn new_profile_has_zeroed_counters() {
    let p = UserProfile::new(9, b"u".to_vec(), b"u@v".to_vec());
    assert_eq!(p.user_id, 9);
    assert_eq!(p.balance, 0);
    assert_eq!(p.reputation, 0);
    assert!(!p.is_verified);
    assert_eq!(p.created_at, 0);
    assert_eq!(p.last_login, 0);
    assert_eq!(p.preferences, UserPreferences::default());
}
