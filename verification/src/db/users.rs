use vstd::prelude::*;

use crate::constants::REFERRAL_BONUS_PERCENT;
use crate::db::laws::{
    lemma_create_user_m_wf, lemma_finish_task_m_wf, lemma_users_wf_same, wf_fields_same,
};
use crate::db::model::{
    bind_wallet_m, create_user_m, db_wf, delete_user_m, finish_fits, finish_task_m, id_pred,
    last_created_id, lemma_find_first_same, login_m, save_last_created_m, set_multiplier_m,
    snapshot_points_m, user_idx_by_code, user_idx_by_id, user_idx_by_twitter, user_idx_by_wallet,
    LoginError, StoreError,
};
use crate::db::store::{
    accounts_view, find_by_code, find_by_id, find_by_twitter, find_by_wallet, Database,
};
use crate::models::dtos::{BindWalletAddressDTO, CreateUserDTO, FinishTaskDTO, LoginUserDTO};
use crate::models::users::{
    public_users, view_seq_i32, AccountModel, User, UserSnapshot, UserWithEncryptedPassword,
};
use crate::password::{encrypt_password, encrypted_of, validate_password};
use crate::referral_code::derive_referral_code;

verus! {

/// Membership test for a list of credited task ids.
fn contains_id(v: &Vec<i32>, x: i32) -> (r: bool)
    ensures
        r == view_seq_i32(v@).contains(x as int),
{
    let mut i: usize = 0;
    while i < v.len()
        invariant
            i <= v@.len(),
            forall|j: int| 0 <= j < i ==> v@[j] != x,
        decreases v@.len() - i,
    {
        if v[i] == x {
            proof {
                assert(view_seq_i32(v@)[i as int] == x as int);
            }
            return true;
        }
        i = i + 1;
    }
    proof {
        if view_seq_i32(v@).contains(x as int) {
            let w = choose|w: int|
                0 <= w < view_seq_i32(v@).len() && view_seq_i32(v@)[w] == x as int;
            assert(v@[w] == x);
        }
    }
    false
}

/// Records a freshly assigned user id in the append-only creation-order log,
/// so that the next creation derives its referral code from it.
pub fn _save_last_created_user_id(db: &mut Database, user_id: i32) -> (r: Result<(), StoreError>)
    ensures
        final(db)@ == save_last_created_m(old(db)@, user_id as int),
        r == Ok::<(), StoreError>(()),
{
    db.creation_log.push(user_id);
    proof {
        assert(db@.creation_log =~= old(db)@.creation_log.push(user_id as int));
        assert(db@ =~= save_last_created_m(old(db)@, user_id as int));
    }
    Ok(())
}

/// The id recorded by the most recent creation; absent before any creation.
pub fn get_last_created_user_id(db: &Database) -> (r: Result<i32, StoreError>)
    ensures
        match r {
            Ok(v) => db@.creation_log.len() > 0 && v as int == last_created_id(db@),
            Err(e) => db@.creation_log.len() == 0 && e == StoreError::NotFound,
        },
{
    if db.creation_log.len() == 0 {
        Err(StoreError::NotFound)
    } else {
        Ok(db.creation_log[db.creation_log.len() - 1])
    }
}

/// Returns the publicly visible part of the user at row `i`.
fn public_user_at(users: &Vec<UserWithEncryptedPassword>, i: usize) -> (r: User)
    requires
        i < users@.len(),
    ensures
        r@ == accounts_view(users@)[i as int].public(),
{
    let full = users[i].clone();
    let r = User::from(full);
    proof {
        assert(r@ =~= accounts_view(users@)[i as int].public());
    }
    r
}

/// Exact lookup of the user owning a referral code; no fuzzy matching.
pub fn _get_user_by_referral_code(db: &Database, referral_code: String) -> (r: Result<
    Option<User>,
    StoreError,
>)
    ensures
        match r {
            Ok(opt) => {
                let i = user_idx_by_code(db@.users, referral_code@);
                match opt {
                    Some(u) => i != -1 && u@ == db@.users[i].public(),
                    None => i == -1,
                }
            },
            Err(_) => false,
        },
{
    match find_by_code(&db.users, referral_code.as_str()) {
        Some(i) => Ok(Some(public_user_at(&db.users, i))),
        None => Ok(None),
    }
}

/// Lookup of a user's public row by id.
pub fn _get_user_by_id(db: &Database, id: i32) -> (r: Result<Option<User>, StoreError>)
    ensures
        match r {
            Ok(opt) => {
                let i = user_idx_by_id(db@.users, id as int);
                match opt {
                    Some(u) => i != -1 && u@ == db@.users[i].public(),
                    None => i == -1,
                }
            },
            Err(_) => false,
        },
{
    match find_by_id(&db.users, id) {
        Some(i) => Ok(Some(public_user_at(&db.users, i))),
        None => Ok(None),
    }
}

/// Lookup of the full user row, credential included, by handle.
pub fn _get_user_by_twitter_id(db: &Database, twitter_id: &str) -> (r: Result<
    Option<UserWithEncryptedPassword>,
    StoreError,
>)
    ensures
        match r {
            Ok(opt) => {
                let i = user_idx_by_twitter(db@.users, twitter_id@);
                match opt {
                    Some(u) => i != -1 && u@ == db@.users[i],
                    None => i == -1,
                }
            },
            Err(_) => false,
        },
{
    match find_by_twitter(&db.users, twitter_id) {
        Some(i) => Ok(Some(db.users[i].clone())),
        None => Ok(None),
    }
}

/// Lookup of the full user row, credential included, by wallet address.
pub fn _get_user_by_wallet_address(db: &Database, wallet_address: &str) -> (r: Result<
    Option<UserWithEncryptedPassword>,
    StoreError,
>)
    ensures
        match r {
            Ok(opt) => {
                let i = user_idx_by_wallet(db@.users, wallet_address@);
                match opt {
                    Some(u) => i != -1 && u@ == db@.users[i],
                    None => i == -1,
                }
            },
            Err(_) => false,
        },
{
    match find_by_wallet(&db.users, wallet_address) {
        Some(i) => Ok(Some(db.users[i].clone())),
        None => Ok(None),
    }
}

/// All users' public rows, in store order.
pub fn _get_users(db: &Database) -> (r: Result<Vec<User>, StoreError>)
    ensures
        match r {
            Ok(users) => users@.map_values(|u: User| u@) == public_users(db@.users),
            Err(_) => false,
        },
{
    let mut out: Vec<User> = Vec::new();
    let mut i: usize = 0;
    while i < db.users.len()
        invariant
            i <= db.users@.len(),
            out@.len() == i,
            forall|j: int| 0 <= j < i ==> (#[trigger] out@[j])@ == db@.users[j].public(),
        decreases db.users@.len() - i,
    {
        out.push(public_user_at(&db.users, i));
        i = i + 1;
    }
    proof {
        assert(out@.map_values(|u: User| u@) =~= public_users(db@.users));
    }
    Ok(out)
}

/// Overwrites the wallet of the user owning the handle, last write wins, and
/// reports the row's id; absent handles are reported as not found.
pub fn _bind_wallet_address(db: &mut Database, bind_wallet_address: BindWalletAddressDTO) -> (r:
    Result<i32, StoreError>)
    requires
        db_wf(old(db)@),
    ensures
        ({
            let (m2, res) = bind_wallet_m(
                old(db)@,
                bind_wallet_address.twitter_id@,
                bind_wallet_address.wallet_address@,
            );
            &&& final(db)@ == m2
            &&& match (r, res) {
                (Ok(id), Ok(idm)) => id as int == idm,
                (Err(e), Err(em)) => e == em,
                _ => false,
            }
            &&& db_wf(final(db)@)
        }),
{
    match find_by_twitter(&db.users, bind_wallet_address.twitter_id.as_str()) {
        None => Err(StoreError::NotFound),
        Some(i) => {
            let mut u = db.users.remove(i);
            let id = u.id;
            u.wallet_address = bind_wallet_address.wallet_address;
            db.users.insert(i, u);
            proof {
                let (m2, res) = bind_wallet_m(
                    old(db)@,
                    bind_wallet_address.twitter_id@,
                    bind_wallet_address.wallet_address@,
                );
                assert(db@.users =~= m2.users);
                assert(db@ =~= m2);
                assert forall|x: int| 0 <= x < old(db)@.users.len() implies wf_fields_same(
                    old(db)@.users[x],
                    #[trigger] db@.users[x],
                ) by {}
                lemma_users_wf_same(old(db)@.users, db@.users, old(db)@.next_user_id);
            }
            Ok(id)
        },
    }
}

/// Overwrites the snapshot multiplier of the user with the given id; an
/// absent id changes nothing and still succeeds.
pub fn _set_user_multiplier(db: &mut Database, user_id: i32, multiplier: i32) -> (r: Result<
    (),
    StoreError,
>)
    requires
        db_wf(old(db)@),
    ensures
        final(db)@ == set_multiplier_m(old(db)@, user_id as int, multiplier as int),
        r == Ok::<(), StoreError>(()),
        db_wf(final(db)@),
{
    match find_by_id(&db.users, user_id) {
        None => Ok(()),
        Some(i) => {
            let mut u = db.users.remove(i);
            u.multiplier = multiplier;
            db.users.insert(i, u);
            proof {
                let m2 = set_multiplier_m(old(db)@, user_id as int, multiplier as int);
                assert(db@.users =~~= m2.users);
                assert(db@ =~= m2);
                assert forall|x: int| 0 <= x < old(db)@.users.len() implies wf_fields_same(
                    old(db)@.users[x],
                    #[trigger] db@.users[x],
                ) by {}
                lemma_users_wf_same(old(db)@.users, db@.users, old(db)@.next_user_id);
            }
            Ok(())
        },
    }
}

/// Registers a new user: the referral code is derived from the creation
/// log, the row is inserted and logged, and a supplied referral code links
/// the new user to its referrer both ways. A duplicate handle or a colliding
/// derived code is a retryable conflict; a referral code matching nobody is
/// silently tolerated.
pub fn _create_user(
    db: &mut Database,
    create_user_dto: CreateUserDTO,
    key: &Vec<u8>,
    salt: &str,
) -> (r: Result<User, StoreError>)
    requires
        db_wf(old(db)@),
        old(db).next_user_id < i32::MAX,
    ensures
        ({
            let (m2, res) = create_user_m(
                old(db)@,
                create_user_dto.twitter_id@,
                create_user_dto.solana_adr@,
                match create_user_dto.reffer_code {
                    Some(ref rc) => Some(rc@),
                    None => None,
                },
                encrypted_of(key@, create_user_dto.password@, salt@),
            );
            &&& final(db)@ == m2
            &&& match (r, res) {
                (Ok(u), Ok(um)) => u@ == um,
                (Err(e), Err(em)) => e == em,
                _ => false,
            }
            &&& db_wf(final(db)@)
        }),
{
    proof {
        lemma_create_user_m_wf(
            old(db)@,
            create_user_dto.twitter_id@,
            create_user_dto.solana_adr@,
            match create_user_dto.reffer_code {
                Some(ref rc) => Some(rc@),
                None => None,
            },
            encrypted_of(key@, create_user_dto.password@, salt@),
        );
    }
    let last_created_user_id: i32 = if db.creation_log.len() == 0 {
        0
    } else {
        let v = db.creation_log[db.creation_log.len() - 1];
        proof {
            assert(db@.creation_log[db@.creation_log.len() - 1] == v as int);
        }
        v
    };
    let encrypted_password = encrypt_password(key, create_user_dto.password.as_str(), salt);
    let referral_code_string = derive_referral_code(last_created_user_id);
    if find_by_twitter(&db.users, create_user_dto.twitter_id.as_str()).is_some() {
        return Err(StoreError::Conflict);
    }
    if find_by_code(&db.users, referral_code_string.as_str()).is_some() {
        return Err(StoreError::Conflict);
    }
    let user_id = db.next_user_id;
    let referrer_idx: Option<usize> = match &create_user_dto.reffer_code {
        Some(ref_code) => find_by_code(&db.users, ref_code.as_str()),
        None => None,
    };
    let mut referrer_id: Option<i32> = None;
    if let Some(j) = referrer_idx {
        let mut referrer = db.users.remove(j);
        referrer_id = Some(referrer.id);
        referrer.referred_by.push(user_id);
        db.users.insert(j, referrer);
    }
    let public_user = User {
        id: user_id,
        wallet_address: create_user_dto.solana_adr.clone(),
        twitter_id: create_user_dto.twitter_id.clone(),
        referral_code: referral_code_string.clone(),
        total_points: 0,
        finished_tasks: Vec::new(),
        referral_points: 0,
        referred_by: Vec::new(),
        referrer_id,
        multiplier: 1,
    };
    let new_user = UserWithEncryptedPassword {
        id: user_id,
        wallet_address: create_user_dto.solana_adr,
        twitter_id: create_user_dto.twitter_id,
        referral_code: referral_code_string,
        total_points: 0,
        finished_tasks: Vec::new(),
        referral_points: 0,
        referred_by: Vec::new(),
        referrer_id,
        multiplier: 1,
        encrypted_password,
    };
    db.users.push(new_user);
    db.creation_log.push(user_id);
    db.next_user_id = db.next_user_id + 1;
    proof {
        let (m2, res) = create_user_m(
            old(db)@,
            create_user_dto.twitter_id@,
            create_user_dto.solana_adr@,
            match create_user_dto.reffer_code {
                Some(ref rc) => Some(rc@),
                None => None,
            },
            encrypted_of(key@, create_user_dto.password@, salt@),
        );
        assert(db@.users =~~= m2.users);
        assert(db@.creation_log =~= m2.creation_log);
        assert(db@ =~= m2);
        assert(public_user@ =~~= res->Ok_0);
    }
    Ok(public_user)
}

/// Credits the task's points to the user owning the wallet exactly once,
/// and propagates the one-hop referral bonus. Completing a task a second
/// time is a no-op success; an absent user or task is reported as not
/// found.
pub fn _finish_task(db: &mut Database, finish_task_dto: FinishTaskDTO) -> (r: Result<
    (),
    StoreError,
>)
    requires
        db_wf(old(db)@),
        finish_fits(old(db)@, finish_task_dto.wallet@, finish_task_dto.task_id as int),
    ensures
        ({
            let (m2, res) = finish_task_m(
                old(db)@,
                finish_task_dto.wallet@,
                finish_task_dto.task_id as int,
            );
            &&& final(db)@ == m2
            &&& r == res
            &&& db_wf(final(db)@)
        }),
{
    proof {
        lemma_finish_task_m_wf(old(db)@, finish_task_dto.wallet@, finish_task_dto.task_id as int);
    }
    let task_id = finish_task_dto.task_id;
    let idx = match find_by_wallet(&db.users, finish_task_dto.wallet.as_str()) {
        None => {
            return Err(StoreError::NotFound);
        },
        Some(i) => i,
    };
    // The idempotence check: a task already credited is never credited again.
    if contains_id(&db.users[idx].finished_tasks, task_id) {
        return Ok(());
    }
    // This also checks that the task exists.
    let t = match crate::db::store::find_task_by_id(&db.tasks, task_id) {
        None => {
            return Err(StoreError::NotFound);
        },
        Some(t) => t,
    };
    let points_to_add = db.tasks[t].points;
    let points_for_referral = points_to_add * REFERRAL_BONUS_PERCENT / 100;
    let mut user = db.users.remove(idx);
    let referrer_id = user.referrer_id;
    user.finished_tasks.push(task_id);
    user.total_points = user.total_points + points_to_add;
    db.users.insert(idx, user);
    let ghost m1_users = old(db)@.users.update(
        idx as int,
        AccountModel {
            finished_tasks: old(db)@.users[idx as int].finished_tasks.push(task_id as int),
            total_points: old(db)@.users[idx as int].total_points + points_to_add as int,
            ..old(db)@.users[idx as int]
        },
    );
    proof {
        assert(db@.users =~~= m1_users);
    }
    match referrer_id {
        None => {
            proof {
                let (m2, res) = finish_task_m(
                    old(db)@,
                    finish_task_dto.wallet@,
                    finish_task_dto.task_id as int,
                );
                assert(db@ =~= m2);
            }
            Ok(())
        },
        Some(rid) => {
            let k = match find_by_id(&db.users, rid) {
                None => {
                    proof {
                        assert(crate::db::model::referrer_linked(old(db)@.users, idx as int));
                        let k0 = user_idx_by_id(old(db)@.users, rid as int);
                        crate::db::model::lemma_find_first(old(db)@.users, id_pred(rid as int));
                        assert forall|y: int|
                            0 <= y < old(db)@.users.len() implies id_pred(rid as int)(
                            old(db)@.users[y],
                        ) == id_pred(rid as int)(m1_users[y]) by {}
                        lemma_find_first_same(old(db)@.users, m1_users, id_pred(rid as int));
                        assert(false);
                    }
                    return Err(StoreError::NotFound);
                },
                Some(k) => k,
            };
            proof {
                let k0 = user_idx_by_id(old(db)@.users, rid as int);
                crate::db::model::lemma_find_first(old(db)@.users, id_pred(rid as int));
                assert forall|y: int|
                    0 <= y < old(db)@.users.len() implies id_pred(rid as int)(old(db)@.users[y])
                    == id_pred(rid as int)(m1_users[y]) by {}
                lemma_find_first_same(old(db)@.users, m1_users, id_pred(rid as int));
                assert(k as int == k0);
                assert(crate::db::model::referrer_linked(old(db)@.users, idx as int));
                assert(old(db)@.users[k0].id == rid as int);
                assert(old(db)@.users[idx as int].id != rid as int);
                assert(k0 != idx as int);
                assert(m1_users[k0] == old(db)@.users[k0]);
            }
            let mut user_referral = db.users.remove(k);
            user_referral.total_points = user_referral.total_points + points_for_referral;
            user_referral.referral_points = user_referral.referral_points + points_for_referral;
            db.users.insert(k, user_referral);
            proof {
                let (m2, res) = finish_task_m(
                    old(db)@,
                    finish_task_dto.wallet@,
                    finish_task_dto.task_id as int,
                );
                assert(db@.users =~~= m2.users);
                assert(db@ =~= m2);
            }
            Ok(())
        },
    }
}

/// Administrative removal by handle, reporting how many rows went away.
pub fn _delete_user_by_twitter_id(db: &mut Database, twitter_id: &str) -> (r: Result<
    u64,
    StoreError,
>)
    ensures
        ({
            let (m2, n) = delete_user_m(old(db)@, twitter_id@);
            &&& final(db)@ == m2
            &&& r == Ok::<u64, StoreError>(n as u64)
        }),
{
    match find_by_twitter(&db.users, twitter_id) {
        None => Ok(0),
        Some(i) => {
            let _removed = db.users.remove(i);
            proof {
                let (m2, n) = delete_user_m(old(db)@, twitter_id@);
                assert(db@.users =~= m2.users);
                assert(db@ =~= m2);
            }
            Ok(1)
        },
    }
}

/// The outcome of a login once the password check is in hand: a valid
/// password yields the user, an invalid one is a credentials failure.
pub fn login_outcome(user: User, password_valid: bool) -> (r: Result<User, LoginError>)
    ensures
        password_valid ==> r == Ok::<User, LoginError>(user),
        !password_valid ==> r == Err::<User, LoginError>(LoginError::BadCredentials),
{
    if password_valid {
        Ok(user)
    } else {
        Err(LoginError::BadCredentials)
    }
}

/// Login: the handle must exist, the stored wallet must match the supplied
/// one, and the password must hash to the stored credential.
pub fn login_user(db: &Database, login_user_dto: &LoginUserDTO, key: &Vec<u8>, salt: &str) -> (r:
    Result<User, LoginError>)
    ensures
        ({
            let i = user_idx_by_twitter(db@.users, login_user_dto.twitter_id@);
            let valid = i != -1 && db@.users[i].encrypted_password == encrypted_of(
                key@,
                login_user_dto.password@,
                salt@,
            );
            let res = login_m(db@, login_user_dto.twitter_id@, login_user_dto.solana_adr@, valid);
            match (r, res) {
                (Ok(u), Ok(um)) => u@ == um,
                (Err(e), Err(em)) => e == em,
                _ => false,
            }
        }),
{
    let i = match find_by_twitter(&db.users, login_user_dto.twitter_id.as_str()) {
        None => {
            return Err(LoginError::UserNotFound);
        },
        Some(i) => i,
    };
    if !crate::db::store::str_eq_string(
        login_user_dto.solana_adr.as_str(),
        &db.users[i].wallet_address,
    ) {
        return Err(LoginError::WrongWallet);
    }
    let is_password_valid = validate_password(
        key,
        login_user_dto.password.as_str(),
        db.users[i].encrypted_password.as_str(),
        salt,
    );
    let user = public_user_at(&db.users, i);
    proof {
        assert(user@ =~~= db@.users[i as int].public());
    }
    login_outcome(user, is_password_valid)
}

/// Checks a session token's identity claims against the stored row.
pub fn validate_user_identity(
    user: &UserWithEncryptedPassword,
    username: &String,
    solana_adr: &String,
) -> (r: bool)
    ensures
        r == (user@.twitter_id == username@ && user@.wallet_address == solana_adr@),
{
    user.twitter_id == *username && user.wallet_address == *solana_adr
}

/// The external reporting projection: one row per user, scored by the
/// snapshot formula at read time.
pub fn get_snapshot(db: &Database) -> (r: Vec<UserSnapshot>)
    requires
        db_wf(db@),
    ensures
        r@.len() == db@.users.len(),
        forall|i: int|
            0 <= i < r@.len() ==> {
                &&& (#[trigger] r@[i]).twitter_id@ == db@.users[i].twitter_id
                &&& r@[i].wallet_address@ == db@.users[i].wallet_address
                &&& r@[i].points as int == snapshot_points_m(db@.users[i])
            },
{
    let mut out: Vec<UserSnapshot> = Vec::new();
    let mut i: usize = 0;
    while i < db.users.len()
        invariant
            db_wf(db@),
            i <= db.users@.len(),
            out@.len() == i,
            forall|j: int|
                0 <= j < i ==> {
                    &&& (#[trigger] out@[j]).twitter_id@ == db@.users[j].twitter_id
                    &&& out@[j].wallet_address@ == db@.users[j].wallet_address
                    &&& out@[j].points as int == snapshot_points_m(db@.users[j])
                },
        decreases db.users@.len() - i,
    {
        let u = &db.users[i];
        proof {
            assert(crate::db::model::account_wf(db@.users[i as int], db@.next_user_id));
            assert((u.total_points as int + u.referral_points as int) * (u.multiplier as int)
                <= i64::MAX && (u.total_points as int + u.referral_points as int) * (
            u.multiplier as int) >= i64::MIN) by (nonlinear_arith)
                requires
                    0 <= u.referral_points as int <= u.total_points as int <= 0x7fff_ffff,
                    -0x8000_0000 <= u.multiplier as int <= 0x7fff_ffff,
            ;
        }
        let sum: i64 = u.total_points as i64 + u.referral_points as i64;
        let points: i64 = sum * (u.multiplier as i64);
        out.push(
            UserSnapshot {
                twitter_id: u.twitter_id.clone(),
                wallet_address: u.wallet_address.clone(),
                points,
            },
        );
        i = i + 1;
    }
    out
}

} // verus!

