use user_management_program::codec::{decode_profile, encode_profile};
use user_management_program::instruction::{decode_instruction, encode_instruction, UserInstruction};
use user_management_program::error::UserManagerError;
use user_management_program::state::{Language, Theme, UserPreferences, UserProfile};

fn sample_profile() -> UserProfile {
    UserProfile {
        user_id: 7,
        username: b"alice".to_vec(),
        email: b"a@x.com".to_vec(),
        balance: 5,
        reputation: 2,
        is_verified: true,
        created_at: 1111,
        last_login: -5,
        preferences: UserPreferences {
            theme: Theme::Dark,
            language: Language::Spanish,
            notifications: false,
            privacy_level: 4,
        },
    }
}

fn assert_profiles_equal(a: &UserProfile, b: &UserProfile) {
    assert_eq!(a.user_id, b.user_id);
    assert_eq!(a.username, b.username);
    assert_eq!(a.email, b.email);
    assert_eq!(a.balance, b.balance);
    assert_eq!(a.reputation, b.reputation);
    assert_eq!(a.is_verified, b.is_verified);
    assert_eq!(a.created_at, b.created_at);
    assert_eq!(a.last_login, b.last_login);
    assert_eq!(a.preferences, b.preferences);
}

#[test]
fn profile_roundtrip() {
    let p = sample_profile();
    let bytes = encode_profile(&p);
    assert_eq!(bytes.len(), 45 + 5 + 7);
    let (q, consumed) = decode_profile(&bytes).unwrap();
    assert_eq!(consumed, bytes.len());
    assert_profiles_equal(&p, &q);
}

#[test]
fn profile_roundtrip_negative_timestamps() {
    let mut p = sample_profile();
    p.created_at = i64::MIN;
    p.last_login = -1;
    let bytes = encode_profile(&p);
    let (q, _) = decode_profile(&bytes).unwrap();
    assert_eq!(q.created_at, i64::MIN);
    assert_eq!(q.last_login, -1);
}

#[test]
fn profile_exact_layout() {
    let p = UserProfile {
        user_id: 1,
        username: b"ab".to_vec(),
        email: b"c@d".to_vec(),
        balance: 2,
        reputation: 3,
        is_verified: false,
        created_at: 4,
        last_login: 5,
        preferences: UserPreferences {
            theme: Theme::Light,
            language: Language::English,
            notifications: true,
            privacy_level: 3,
        },
    };
    let bytes = encode_profile(&p);
    let mut expected: Vec<u8> = Vec::new();
    expected.extend_from_slice(&[1, 0, 0, 0]); // user_id
    expected.extend_from_slice(&[2, 0, 0, 0]); // username length
    expected.extend_from_slice(b"ab");
    expected.extend_from_slice(&[3, 0, 0, 0]); // email length
    expected.extend_from_slice(b"c@d");
    expected.extend_from_slice(&[2, 0, 0, 0, 0, 0, 0, 0]); // balance
    expected.extend_from_slice(&[3, 0, 0, 0]); // reputation
    expected.extend_from_slice(&[0]); // is_verified
    expected.extend_from_slice(&[4, 0, 0, 0, 0, 0, 0, 0]); // created_at
    expected.extend_from_slice(&[5, 0, 0, 0, 0, 0, 0, 0]); // last_login
    expected.extend_from_slice(&[0, 0]); // theme and language hold their tags
    expected.extend_from_slice(&[1, 3]); // notifications, privacy_level
    assert_eq!(bytes[6..8], [0, 0][..]); // tail of the username length prefix
    assert_eq!(bytes, expected);
}

#[test]
fn profile_max_size_bound() {
    let p = UserProfile {
        user_id: u32::MAX,
        username: vec![b'u'; 32],
        email: {
            let mut e = vec![b'e'; 63];
            e.push(b'@');
            e
        },
        balance: u64::MAX,
        reputation: u32::MAX,
        is_verified: true,
        created_at: i64::MAX,
        last_login: i64::MIN,
        preferences: UserPreferences {
            theme: Theme::Auto,
            language: Language::German,
            notifications: true,
            privacy_level: 5,
        },
    };
    let bytes = encode_profile(&p);
    assert_eq!(bytes.len(), UserProfile::MAX_SIZE);
    assert_eq!(UserProfile::MAX_SIZE, 141);
    assert_eq!(UserPreferences::MAX_SIZE, 4);
    let (q, consumed) = decode_profile(&bytes).unwrap();
    assert_eq!(consumed, 141);
    assert_profiles_equal(&p, &q);
}

#[test]
fn decode_ignores_trailing_padding() {
    let p = sample_profile();
    let mut bytes = encode_profile(&p);
    let n = bytes.len();
    bytes.extend_from_slice(&[0u8; 20]);
    let (q, consumed) = decode_profile(&bytes).unwrap();
    assert_eq!(consumed, n);
    assert_profiles_equal(&p, &q);
}

#[test]
fn decode_rejects_short_buffer() {
    assert!(decode_profile(&[]).is_err());
    assert!(decode_profile(&[1, 2, 3]).is_err());
    let p = sample_profile();
    let bytes = encode_profile(&p);
    assert!(decode_profile(&bytes[..bytes.len() - 1]).is_err());
}

#[test]
fn decode_rejects_oversized_length_prefix() {
    let p = sample_profile();
    let mut bytes = encode_profile(&p);
    // username length prefix far past the end of the buffer
    bytes[4] = 0xff;
    bytes[5] = 0xff;
    assert!(decode_profile(&bytes).is_err());
}

#[test]
fn decode_rejects_bad_tags() {
    let p = sample_profile();
    let n = encode_profile(&p).len();
    // theme tag out of range
    let mut bytes = encode_profile(&p);
    bytes[n - 4] = 9;
    assert!(decode_profile(&bytes).is_err());
    // language tag out of range
    let mut bytes = encode_profile(&p);
    bytes[n - 3] = 4;
    assert!(decode_profile(&bytes).is_err());
    // notifications flag out of range
    let mut bytes = encode_profile(&p);
    bytes[n - 2] = 2;
    assert!(decode_profile(&bytes).is_err());
    // is_verified flag out of range
    let mut bytes = encode_profile(&p);
    bytes[n - 21] = 7;
    assert!(decode_profile(&bytes).is_err());
}

#[test]
fn instruction_roundtrip_create() {
    let i = UserInstruction::CreateProfile {
        username: b"alice".to_vec(),
        email: b"a@x.com".to_vec(),
    };
    let bytes = encode_instruction(&i);
    assert_eq!(bytes[0], 0);
    match decode_instruction(&bytes).unwrap() {
        UserInstruction::CreateProfile { username, email } => {
            assert_eq!(username, b"alice".to_vec());
            assert_eq!(email, b"a@x.com".to_vec());
        }
        _ => panic!("decoded the wrong operation"),
    }
}

#[test]
fn instruction_roundtrip_update() {
    let prefs = UserPreferences {
        theme: Theme::Auto,
        language: Language::French,
        notifications: false,
        privacy_level: 0,
    };
    let i = UserInstruction::UpdateProfile {
        username: None,
        email: Some(b"n@e.w".to_vec()),
        preferences: Some(prefs),
    };
    let bytes = encode_instruction(&i);
    assert_eq!(bytes[0], 2);
    match decode_instruction(&bytes).unwrap() {
        UserInstruction::UpdateProfile { username, email, preferences } => {
            assert!(username.is_none());
            assert_eq!(email.unwrap(), b"n@e.w".to_vec());
            assert_eq!(preferences.unwrap(), prefs);
        }
        _ => panic!("decoded the wrong operation"),
    }
}

#[test]
fn instruction_roundtrip_balance_get_delete() {
    let i = UserInstruction::UpdateBalance { amount: 100, is_deposit: true };
    let bytes = encode_instruction(&i);
    assert_eq!(bytes.len(), 10);
    match decode_instruction(&bytes).unwrap() {
        UserInstruction::UpdateBalance { amount, is_deposit } => {
            assert_eq!(amount, 100);
            assert!(is_deposit);
        }
        _ => panic!("decoded the wrong operation"),
    }
    assert!(matches!(
        decode_instruction(&encode_instruction(&UserInstruction::GetProfile)).unwrap(),
        UserInstruction::GetProfile
    ));
    assert!(matches!(
        decode_instruction(&encode_instruction(&UserInstruction::DeleteProfile)).unwrap(),
        UserInstruction::DeleteProfile
    ));
}

#[test]
fn instruction_rejects_malformed_buffers() {
    // empty buffer
    assert_eq!(decode_instruction(&[]).unwrap_err(), UserManagerError::InvalidInstruction);
    // unknown tag
    assert_eq!(decode_instruction(&[9]).unwrap_err(), UserManagerError::InvalidInstruction);
    // trailing bytes after a no-payload operation
    assert_eq!(decode_instruction(&[1, 0]).unwrap_err(), UserManagerError::InvalidInstruction);
    // balance payload with an out-of-range flag byte
    let mut bytes = encode_instruction(&UserInstruction::UpdateBalance {
        amount: 1,
        is_deposit: false,
    });
    bytes[9] = 2;
    assert_eq!(decode_instruction(&bytes).unwrap_err(), UserManagerError::InvalidInstruction);
    // truncated create payload
    let create = encode_instruction(&UserInstruction::CreateProfile {
        username: b"a".to_vec(),
        email: b"a@b".to_vec(),
    });
    assert_eq!(
        decode_instruction(&create[..create.len() - 1]).unwrap_err(),
        UserManagerError::InvalidInstruction
    );
    // option presence byte out of range
    assert_eq!(decode_instruction(&[2, 3]).unwrap_err(), UserManagerError::InvalidInstruction);
}

#[test]
fn error_codes_follow_the_taxonomy() {
    assert_eq!(UserManagerError::InvalidInstruction.code(), 0);
    assert_eq!(UserManagerError::NotInitialized.code(), 1);
    assert_eq!(UserManagerError::AlreadyInitialized.code(), 2);
    assert_eq!(UserManagerError::UsernameTooLong.code(), 3);
    assert_eq!(UserManagerError::EmailTooLong.code(), 4);
    assert_eq!(UserManagerError::InvalidEmail.code(), 5);
    assert_eq!(UserManagerError::Unauthorized.code(), 6);
    assert_eq!(UserManagerError::InvalidPrivacyLevel.code(), 7);
    assert_eq!(UserManagerError::InsufficientFunds.code(), 8);
}
