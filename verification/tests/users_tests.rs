use referral_points::db::model::{LoginError, StoreError};
use referral_points::db::store::Database;
use referral_points::db::users::{
    _bind_wallet_address, _create_user, _delete_user_by_twitter_id, _finish_task,
    _get_user_by_id, _get_user_by_referral_code, _get_user_by_twitter_id,
    _get_user_by_wallet_address, _get_users, _set_user_multiplier, get_last_created_user_id,
    get_snapshot, login_user,
};
use referral_points::models::dtos::{
    BindWalletAddressDTO, CreateTaskDTO, CreateUserDTO, FinishTaskDTO, LoginUserDTO,
};

fn create_dto(twitter: &str, wallet: &str, password: &str, code: Option<&str>) -> CreateUserDTO {
    CreateUserDTO {
        twitter_id: twitter.to_string(),
        solana_adr: wallet.to_string(),
        password: password.to_string(),
        reffer_code: code.map(|c| c.to_string()),
    }
}

#[test]
fn test_get_user_by_referral_code() {
    let mut db = Database::new();
    let key: Vec<u8> = vec![1, 2, 3];

    let create_user_return_type = _create_user(
        &mut db,
        create_dto("123", "123", "123", None),
        &key,
        "salt",
    )
    .unwrap();

    let user_id = create_user_return_type.id;

    let user = _get_user_by_id(&db, create_user_return_type.id)
        .unwrap()
        .unwrap();

    let user = _get_user_by_referral_code(&db, user.referral_code.to_string())
        .expect("Failed to get user");

    assert_eq!(user.unwrap().id, user_id);
}

#[test]
fn test_delete_user_by_id() {
    let mut db = Database::new();
    let key: Vec<u8> = vec![1, 2, 3];
    let user_id = "nb_crypto";
    _create_user(&mut db, create_dto(user_id, "w1", "pw", None), &key, "salt").unwrap();

    let rows_affected = _delete_user_by_twitter_id(&mut db, user_id).expect("Failed to delete user");

    assert_eq!(rows_affected, 1);
    assert_eq!(_delete_user_by_twitter_id(&mut db, user_id).unwrap(), 0);
}

#[test]
fn referral_code_is_a_fresh_hex_digest() {
    let mut db = Database::new();
    let key: Vec<u8> = vec![1, 2, 3];
    let a = _create_user(&mut db, create_dto("a", "wa", "pw", None), &key, "salt").unwrap();
    let b = _create_user(&mut db, create_dto("b", "wb", "pw", None), &key, "salt").unwrap();
    // 32 digest bytes, two lowercase hex digits each
    assert_eq!(a.referral_code.len(), 64);
    assert!(a
        .referral_code
        .chars()
        .all(|c| c.is_ascii_digit() || ('a'..='f').contains(&c)));
    // the first code is derived from the default counter value, the second
    // from the first user's id
    assert_ne!(a.referral_code, b.referral_code);
    assert_eq!(get_last_created_user_id(&db).unwrap(), b.id);
}

#[test]
fn creation_assigns_ids_and_defaults() {
    let mut db = Database::new();
    let key: Vec<u8> = vec![1, 2, 3];
    let a = _create_user(&mut db, create_dto("a", "wa", "pw", None), &key, "salt").unwrap();
    assert_eq!(a.id, 1);
    assert_eq!(a.total_points, 0);
    assert_eq!(a.referral_points, 0);
    assert_eq!(a.multiplier, 1);
    assert!(a.finished_tasks.is_empty());
    assert!(a.referred_by.is_empty());
    assert!(a.referrer_id.is_none());
    let b = _create_user(&mut db, create_dto("b", "wb", "pw", None), &key, "salt").unwrap();
    assert_eq!(b.id, 2);
}

#[test]
fn duplicate_handle_is_a_conflict() {
    let mut db = Database::new();
    let key: Vec<u8> = vec![1, 2, 3];
    _create_user(&mut db, create_dto("dup", "w1", "pw", None), &key, "salt").unwrap();
    let r = _create_user(&mut db, create_dto("dup", "w2", "pw", None), &key, "salt");
    assert_eq!(r.unwrap_err(), StoreError::Conflict);
    assert_eq!(_get_users(&db).unwrap().len(), 1);
}

#[test]
fn unknown_referral_code_still_creates_the_user() {
    let mut db = Database::new();
    let key: Vec<u8> = vec![1, 2, 3];
    let b = _create_user(
        &mut db,
        create_dto("b", "wb", "pw", Some("no-such-code")),
        &key,
        "salt",
    )
    .unwrap();
    assert!(b.referrer_id.is_none());
    assert_eq!(_get_users(&db).unwrap().len(), 1);
}

#[test]
fn referred_creation_links_both_ways() {
    let mut db = Database::new();
    let key: Vec<u8> = vec![1, 2, 3];
    let a = _create_user(&mut db, create_dto("a", "wa", "pw", None), &key, "salt").unwrap();
    let b = _create_user(
        &mut db,
        create_dto("b", "wb", "pw", Some(a.referral_code.as_str())),
        &key,
        "salt",
    )
    .unwrap();
    assert_eq!(b.referrer_id, Some(a.id));
    let a_after = _get_user_by_id(&db, a.id).unwrap().unwrap();
    assert_eq!(a_after.referred_by, vec![b.id]);
}

fn add_task(db: &mut Database, points: i32) -> i32 {
    let id = db.next_task_id;
    referral_points::db::tasks::_create_task(
        db,
        CreateTaskDTO {
            description: "a task".to_string(),
            points,
            task_button_text: "go".to_string(),
            link: None,
        },
    )
    .unwrap();
    id
}

#[test]
fn referral_scenario_credits_and_bonuses_exactly_once() {
    let mut db = Database::new();
    let key: Vec<u8> = vec![1, 2, 3];
    let a = _create_user(&mut db, create_dto("a", "wa", "pw", None), &key, "salt").unwrap();
    let code_a = a.referral_code.clone();
    let b = _create_user(
        &mut db,
        create_dto("b", "wb", "pw", Some(code_a.as_str())),
        &key,
        "salt",
    )
    .unwrap();
    assert_eq!(b.referrer_id, Some(a.id));
    let a_after = _get_user_by_id(&db, a.id).unwrap().unwrap();
    assert_eq!(a_after.referred_by, vec![b.id]);

    let task = add_task(&mut db, 100);
    _finish_task(
        &mut db,
        FinishTaskDTO { task_id: task, wallet: "wb".to_string() },
    )
    .unwrap();

    let b_after = _get_user_by_id(&db, b.id).unwrap().unwrap();
    assert_eq!(b_after.total_points, 100);
    assert_eq!(b_after.referral_points, 0);
    assert_eq!(b_after.finished_tasks, vec![task]);
    let a_after = _get_user_by_id(&db, a.id).unwrap().unwrap();
    assert_eq!(a_after.total_points, 10);
    assert_eq!(a_after.referral_points, 10);
    assert!(a_after.finished_tasks.is_empty());

    // finishing the same task again changes nothing
    _finish_task(
        &mut db,
        FinishTaskDTO { task_id: task, wallet: "wb".to_string() },
    )
    .unwrap();
    let b_again = _get_user_by_id(&db, b.id).unwrap().unwrap();
    assert_eq!(b_again.total_points, 100);
    assert_eq!(b_again.finished_tasks, vec![task]);
    let a_again = _get_user_by_id(&db, a.id).unwrap().unwrap();
    assert_eq!(a_again.total_points, 10);
    assert_eq!(a_again.referral_points, 10);
}

#[test]
fn completion_without_referrer_touches_one_row() {
    let mut db = Database::new();
    let key: Vec<u8> = vec![1, 2, 3];
    _create_user(&mut db, create_dto("a", "wa", "pw", None), &key, "salt").unwrap();
    _create_user(&mut db, create_dto("b", "wb", "pw", None), &key, "salt").unwrap();
    let task = add_task(&mut db, 40);
    _finish_task(
        &mut db,
        FinishTaskDTO { task_id: task, wallet: "wb".to_string() },
    )
    .unwrap();
    let users = _get_users(&db).unwrap();
    assert_eq!(users[0].total_points, 0);
    assert_eq!(users[0].referral_points, 0);
    assert_eq!(users[1].total_points, 40);
}

#[test]
fn completion_errors_name_the_missing_row() {
    let mut db = Database::new();
    let key: Vec<u8> = vec![1, 2, 3];
    let r = _finish_task(
        &mut db,
        FinishTaskDTO { task_id: 1, wallet: "nobody".to_string() },
    );
    assert_eq!(r.unwrap_err(), StoreError::NotFound);
    _create_user(&mut db, create_dto("a", "wa", "pw", None), &key, "salt").unwrap();
    let r = _finish_task(
        &mut db,
        FinishTaskDTO { task_id: 99, wallet: "wa".to_string() },
    );
    assert_eq!(r.unwrap_err(), StoreError::NotFound);
}

#[test]
fn distinct_referral_codes_for_every_creation() {
    let mut db = Database::new();
    let key: Vec<u8> = vec![1, 2, 3];
    let mut codes: Vec<String> = Vec::new();
    for n in 0..5 {
        let u = _create_user(
            &mut db,
            create_dto(&format!("user{}", n), &format!("wallet{}", n), "pw", None),
            &key,
            "salt",
        )
        .unwrap();
        codes.push(u.referral_code);
    }
    for i in 0..codes.len() {
        for j in (i + 1)..codes.len() {
            assert_ne!(codes[i], codes[j]);
        }
    }
}

#[test]
fn snapshot_uses_the_formula_for_each_multiplier() {
    let mut db = Database::new();
    let key: Vec<u8> = vec![1, 2, 3];
    let a = _create_user(&mut db, create_dto("a", "wa", "pw", None), &key, "salt").unwrap();
    let b = _create_user(
        &mut db,
        create_dto("b", "wb", "pw", Some(a.referral_code.as_str())),
        &key,
        "salt",
    )
    .unwrap();
    let c = _create_user(&mut db, create_dto("c", "wc", "pw", None), &key, "salt").unwrap();
    let task = add_task(&mut db, 60);
    _finish_task(&mut db, FinishTaskDTO { task_id: task, wallet: "wb".to_string() }).unwrap();
    _finish_task(&mut db, FinishTaskDTO { task_id: task, wallet: "wc".to_string() }).unwrap();
    // a: 6 bonus points, b: 60 task points, c: 60 task points
    _set_user_multiplier(&mut db, a.id, 0).unwrap();
    _set_user_multiplier(&mut db, b.id, 1).unwrap();
    _set_user_multiplier(&mut db, c.id, 5).unwrap();
    let snapshot = get_snapshot(&db);
    assert_eq!(snapshot.len(), 3);
    assert_eq!(snapshot[0].twitter_id, "a");
    assert_eq!(snapshot[0].points, (6 + 6) * 0);
    assert_eq!(snapshot[1].points, (60 + 0) * 1);
    assert_eq!(snapshot[2].points, (60 + 0) * 5);
}

#[test]
fn multiplier_update_of_an_absent_id_changes_nothing() {
    let mut db = Database::new();
    let key: Vec<u8> = vec![1, 2, 3];
    _create_user(&mut db, create_dto("a", "wa", "pw", None), &key, "salt").unwrap();
    _set_user_multiplier(&mut db, 77, 9).unwrap();
    assert_eq!(_get_users(&db).unwrap()[0].multiplier, 1);
}

#[test]
fn bind_wallet_overwrites_and_reports_the_id() {
    let mut db = Database::new();
    let key: Vec<u8> = vec![1, 2, 3];
    let a = _create_user(&mut db, create_dto("a", "old_wallet", "pw", None), &key, "salt").unwrap();
    let id = _bind_wallet_address(
        &mut db,
        BindWalletAddressDTO {
            twitter_id: "a".to_string(),
            wallet_address: "new_wallet".to_string(),
        },
    )
    .unwrap();
    assert_eq!(id, a.id);
    let found = _get_user_by_wallet_address(&db, "new_wallet").unwrap().unwrap();
    assert_eq!(found.id, a.id);
    let missing = _bind_wallet_address(
        &mut db,
        BindWalletAddressDTO {
            twitter_id: "nobody".to_string(),
            wallet_address: "w".to_string(),
        },
    );
    assert_eq!(missing.unwrap_err(), StoreError::NotFound);
}

#[test]
fn login_checks_handle_wallet_and_password() {
    let mut db = Database::new();
    let key: Vec<u8> = vec![1, 2, 3];
    _create_user(&mut db, create_dto("a", "wa", "secret", None), &key, "salt").unwrap();

    let missing = login_user(
        &db,
        &LoginUserDTO {
            twitter_id: "x".to_string(),
            solana_adr: "wa".to_string(),
            password: "secret".to_string(),
        },
        &key,
        "salt",
    );
    assert_eq!(missing.unwrap_err(), LoginError::UserNotFound);

    let wrong_wallet = login_user(
        &db,
        &LoginUserDTO {
            twitter_id: "a".to_string(),
            solana_adr: "other".to_string(),
            password: "secret".to_string(),
        },
        &key,
        "salt",
    );
    assert_eq!(wrong_wallet.unwrap_err(), LoginError::WrongWallet);

    let bad_password = login_user(
        &db,
        &LoginUserDTO {
            twitter_id: "a".to_string(),
            solana_adr: "wa".to_string(),
            password: "guess".to_string(),
        },
        &key,
        "salt",
    );
    assert_eq!(bad_password.unwrap_err(), LoginError::BadCredentials);

    let ok = login_user(
        &db,
        &LoginUserDTO {
            twitter_id: "a".to_string(),
            solana_adr: "wa".to_string(),
            password: "secret".to_string(),
        },
        &key,
        "salt",
    )
    .unwrap();
    assert_eq!(ok.twitter_id, "a");
}

#[test]
fn stored_credential_is_a_hash_not_the_password() {
    let mut db = Database::new();
    let key: Vec<u8> = vec![1, 2, 3];
    _create_user(&mut db, create_dto("a", "wa", "secret", None), &key, "salt").unwrap();
    let full = _get_user_by_twitter_id(&db, "a").unwrap().unwrap();
    assert_ne!(full.encrypted_password, "secret");
    assert!(!full.encrypted_password.is_empty());
}

#[test]
fn wallet_lookups_take_the_first_match_in_store_order() {
    // wallet uniqueness is not enforced; the scan finds the earlier row
    let mut db = Database::new();
    let key: Vec<u8> = vec![1, 2, 3];
    let a = _create_user(&mut db, create_dto("a", "shared", "pw", None), &key, "salt").unwrap();
    _create_user(&mut db, create_dto("b", "shared", "pw", None), &key, "salt").unwrap();
    let found = _get_user_by_wallet_address(&db, "shared").unwrap().unwrap();
    assert_eq!(found.id, a.id);
    let task = add_task(&mut db, 15);
    _finish_task(&mut db, FinishTaskDTO { task_id: task, wallet: "shared".to_string() }).unwrap();
    let users = _get_users(&db).unwrap();
    assert_eq!(users[0].total_points, 15);
    assert_eq!(users[1].total_points, 0);
}

#[test]
fn an_empty_store_has_an_empty_snapshot_and_no_counter() {
    let db = Database::new();
    assert!(get_snapshot(&db).is_empty());
    assert!(_get_users(&db).unwrap().is_empty());
    assert_eq!(get_last_created_user_id(&db).unwrap_err(), StoreError::NotFound);
}

#[test]
fn zero_point_tasks_credit_nothing_but_are_still_recorded() {
    let mut db = Database::new();
    let key: Vec<u8> = vec![1, 2, 3];
    let a = _create_user(&mut db, create_dto("a", "wa", "pw", None), &key, "salt").unwrap();
    let b = _create_user(
        &mut db,
        create_dto("b", "wb", "pw", Some(a.referral_code.as_str())),
        &key,
        "salt",
    )
    .unwrap();
    let task = add_task(&mut db, 0);
    _finish_task(&mut db, FinishTaskDTO { task_id: task, wallet: "wb".to_string() }).unwrap();
    let b_after = _get_user_by_id(&db, b.id).unwrap().unwrap();
    assert_eq!(b_after.total_points, 0);
    assert_eq!(b_after.finished_tasks, vec![task]);
    let a_after = _get_user_by_id(&db, a.id).unwrap().unwrap();
    assert_eq!(a_after.total_points, 0);
    assert_eq!(a_after.referral_points, 0);
}
