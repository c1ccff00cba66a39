use matrix_mozilla_bot::session::{
    decode_session, encode_session, find_field, restore_from_fields, restore_from_lookups,
    session_fields, session_storage_from, Credential, PlainSessionStorage, RestoreError,
    SessionDB, SessionStorage, StoredSession,
};

fn sample(refresh: Option<&str>, sync: Option<&str>) -> StoredSession {
    StoredSession {
        credential: Credential {
            user_id: "@bot:hs".to_string(),
            device_id: "DEVICE".to_string(),
            access_token: "tok-1".to_string(),
            refresh_token: refresh.map(|s| s.to_string()),
        },
        sync_token: sync.map(|s| s.to_string()),
    }
}

#[test]
fn never_populated_file_is_not_found() {
    assert_eq!(decode_session(None), Err(RestoreError::NotFound));
}

#[test]
fn persisted_session_restores_identically() {
    let s = sample(Some("refresh"), Some("s72_1"));
    let text = encode_session(&s);
    assert_eq!(decode_session(Some(&text)), Ok(s));
    let bare = sample(None, None);
    let text = encode_session(&bare);
    assert_eq!(decode_session(Some(&text)), Ok(bare));
}

#[test]
fn session_file_keeps_nested_layout() {
    assert_eq!(
        encode_session(&sample(None, Some("s1"))),
        "{\"user_session\":{\"user_id\":\"@bot:hs\",\"device_id\":\"DEVICE\",\"access_token\":\"tok-1\"},\"sync_token\":\"s1\"}"
    );
    assert_eq!(
        encode_session(&sample(Some("r\"1"), None)),
        "{\"user_session\":{\"user_id\":\"@bot:hs\",\"device_id\":\"DEVICE\",\"access_token\":\"tok-1\",\"refresh_token\":\"r\\\"1\"},\"sync_token\":null}"
    );
}

#[test]
fn reads_files_in_the_nested_layout() {
    let text = "{ \"sync_token\": null, \"user_session\": { \"access_token\": \"tok-1\", \"device_id\": \"DEVICE\", \"user_id\": \"@bot:hs\" } }";
    assert_eq!(decode_session(Some(text)), Ok(sample(None, None)));
    let text = "{\"user_session\":{\"user_id\":\"@bot:hs\",\"device_id\":\"DEVICE\",\"access_token\":\"tok-1\",\"refresh_token\":\"refresh\"}}";
    assert_eq!(decode_session(Some(text)), Ok(sample(Some("refresh"), None)));
}

#[test]
fn unreadable_file_is_corrupt() {
    assert_eq!(decode_session(Some("not json")), Err(RestoreError::Corrupt));
    assert_eq!(
        decode_session(Some("{\"user_session\":{\"user_id\":\"@bot:hs\"},\"sync_token\":null}")),
        Err(RestoreError::Corrupt)
    );
    assert_eq!(
        decode_session(Some("{\"user_id\":\"@bot:hs\",\"device_id\":\"D\",\"access_token\":\"t\"}")),
        Err(RestoreError::Corrupt)
    );
    assert_eq!(
        decode_session(Some("{\"user_session\":{\"user_id\":\"@bot:hs\",\"device_id\":\"D\",\"access_token\":\"t\"},\"sync_token\":7}")),
        Err(RestoreError::Corrupt)
    );
}

#[test]
fn fields_in_store_order() {
    let fields = session_fields(&sample(Some("r"), Some("s")));
    let keys: Vec<&str> = fields.iter().map(|(k, _)| k.as_str()).collect();
    assert_eq!(
        keys,
        vec!["refresh_token", "sync_token", "access_token", "user_id", "device_id"]
    );
    assert_eq!(find_field(&fields, "user_id"), Some("@bot:hs".to_string()));
    assert_eq!(find_field(&fields, "nothing"), None);
    assert_eq!(restore_from_fields(&fields), Ok(sample(Some("r"), Some("s"))));
}

#[test]
fn secret_store_missing_required_field_is_not_found() {
    let r = restore_from_lookups(
        Some("tok".to_string()),
        None,
        Some("@bot:hs".to_string()),
        None,
        None,
    );
    assert_eq!(r, Err(RestoreError::NotFound));
}

#[test]
fn secret_store_optional_fields_degrade() {
    let r = restore_from_lookups(
        Some("tok-1".to_string()),
        Some("DEVICE".to_string()),
        Some("@bot:hs".to_string()),
        None,
        None,
    );
    assert_eq!(r, Ok(sample(None, None)));
}

#[test]
fn storage_from_settings() {
    let s = session_storage_from(false, true, "/db".to_string(), "pw".to_string(), None);
    assert!(matches!(s, SessionStorage::Ephemeral));
    assert!(s.get_session_db().is_none());
    let s = session_storage_from(true, false, "/db".to_string(), "pw".to_string(), None);
    match &s {
        SessionStorage::Plain(db, PlainSessionStorage { session_path }) => {
            assert_eq!(db.db_path, "/db");
            assert_eq!(session_path, "/db/session.dump");
        }
        _ => panic!("expected the plain backend"),
    }
    let s = session_storage_from(true, false, "/db/".to_string(), "pw".to_string(), None);
    match &s {
        SessionStorage::Plain(_, plain) => assert_eq!(plain.session_path, "/db/session.dump"),
        _ => panic!("expected the plain backend"),
    }
    let s = session_storage_from(true, false, String::new(), "pw".to_string(), None);
    match &s {
        SessionStorage::Plain(_, plain) => assert_eq!(plain.session_path, "session.dump"),
        _ => panic!("expected the plain backend"),
    }
    let s = session_storage_from(true, true, "/db".to_string(), "pw".to_string(), None);
    let db: SessionDB = s.get_session_db().unwrap();
    assert_eq!(db.db_pw, "pw");
}

#[test]
fn store_exists_needs_each_part() {
    let plain = session_storage_from(true, false, "/db".to_string(), "pw".to_string(), Some("/s".to_string()));
    assert!(plain.session_store_exists(true, true, false));
    assert!(!plain.session_store_exists(true, false, true));
    let ss = session_storage_from(true, true, "/db".to_string(), "pw".to_string(), None);
    assert!(ss.session_store_exists(true, false, true));
    assert!(!ss.session_store_exists(true, true, false));
    assert!(!SessionStorage::Ephemeral.session_store_exists(true, true, true));
}
