use steamcmd_engine::credentials::{
    clear_credentials, clear_stored_credentials, get_credentials, get_stored_credentials, init_db,
    save_credentials, SteamCredentials, StoredCredential,
};
use steamcmd_engine::error::EngineError;

fn pair(u: &str, p: &str) -> (String, String) {
    (u.to_string(), p.to_string())
}

#[test]
fn a_fresh_store_is_empty() {
    let store = init_db(Vec::new());
    assert_eq!(store.row_count(), 0);
    assert_eq!(get_credentials(&store), None);
}

#[test]
fn load_after_save_gives_what_was_saved() {
    let mut store = init_db(Vec::new());
    save_credentials(&mut store, "alice", "pw");
    assert_eq!(get_credentials(&store), Some(pair("alice", "pw")));
    assert_eq!(store.row_count(), 1);
}

#[test]
fn load_after_clear_gives_nothing() {
    let mut store = init_db(Vec::new());
    save_credentials(&mut store, "alice", "pw");
    clear_credentials(&mut store);
    assert_eq!(get_credentials(&store), None);
    assert_eq!(store.row_count(), 0);
    clear_credentials(&mut store);
    assert_eq!(store.row_count(), 0);
}

#[test]
fn saving_again_under_the_same_name_replaces_the_password() {
    let mut store = init_db(Vec::new());
    save_credentials(&mut store, "alice", "old");
    save_credentials(&mut store, "alice", "new");
    assert_eq!(get_credentials(&store), Some(pair("alice", "new")));
    assert_eq!(store.row_count(), 1);
}

#[test]
fn saving_under_another_name_leaves_one_row() {
    let mut store = init_db(Vec::new());
    save_credentials(&mut store, "alice", "pw");
    save_credentials(&mut store, "bob", "hunter2");
    assert_eq!(get_credentials(&store), Some(pair("bob", "hunter2")));
    assert_eq!(store.row_count(), 1);
}

#[test]
fn at_most_one_row_after_any_sequence() {
    let mut store = init_db(Vec::new());
    for i in 0..20 {
        if i % 3 == 2 {
            clear_credentials(&mut store);
        } else {
            save_credentials(&mut store, &format!("user{}", i), "pw");
        }
        assert!(store.row_count() <= 1);
    }
}

#[test]
fn a_store_over_one_row_holds_it() {
    let store = init_db(vec![pair("alice", "pw")]);
    assert_eq!(get_credentials(&store), Some(pair("alice", "pw")));
    assert_eq!(store.row_count(), 1);
}

#[test]
fn a_store_over_several_rows_keeps_the_most_recent() {
    let store = init_db(vec![pair("alice", "pw"), pair("bob", "b"), pair("carol", "c")]);
    assert_eq!(get_credentials(&store), Some(pair("carol", "c")));
    assert_eq!(store.row_count(), 1);
}

#[test]
fn the_code_is_not_part_of_the_stored_row() {
    let with_code = SteamCredentials {
        username: "alice".to_string(),
        password: "pw".to_string(),
        two_factor_code: Some("ABCDE".to_string()),
    };
    let without = SteamCredentials {
        username: "alice".to_string(),
        password: "pw".to_string(),
        two_factor_code: None,
    };
    let row = with_code.to_stored();
    assert_eq!(row, StoredCredential { username: "alice".to_string(), password: "pw".to_string() });
    assert_eq!(row, without.to_stored());
    assert_eq!(SteamCredentials::from_stored(row), without);
}

#[test]
fn credentials_need_a_name_and_a_password() {
    let c = |u: &str, p: &str| SteamCredentials {
        username: u.to_string(),
        password: p.to_string(),
        two_factor_code: None,
    };
    assert!(c("alice", "pw").is_well_formed());
    assert!(!c("", "pw").is_well_formed());
    assert!(!c("alice", "").is_well_formed());
    assert!(!c("", "").is_well_formed());
}

#[test]
fn stored_credentials_come_back_without_a_code() {
    assert_eq!(
        get_stored_credentials(Ok(Some(pair("alice", "pw")))),
        Ok(Some(SteamCredentials {
            username: "alice".to_string(),
            password: "pw".to_string(),
            two_factor_code: None,
        }))
    );
    assert_eq!(get_stored_credentials(Ok(None)), Ok(None));
}

#[test]
fn a_store_that_cannot_be_read_is_a_store_failure() {
    assert_eq!(
        get_stored_credentials(Err("unable to open database file".to_string())),
        Err(EngineError::StoreIoFailed(
            "Failed to get credentials: unable to open database file".to_string()
        ))
    );
}

#[test]
fn a_store_that_cannot_be_cleared_is_a_store_failure() {
    assert_eq!(clear_stored_credentials(Ok(())), Ok(()));
    assert_eq!(
        clear_stored_credentials(Err("database is locked".to_string())),
        Err(EngineError::StoreIoFailed(
            "Failed to clear credentials: database is locked".to_string()
        ))
    );
}

#[test]
fn copies_are_equal() {
    let c = SteamCredentials {
        username: "alice".to_string(),
        password: "pw".to_string(),
        two_factor_code: Some("ABCDE".to_string()),
    };
    assert_eq!(c.clone(), c);
    assert_eq!(c.to_stored().clone(), c.to_stored());
}
