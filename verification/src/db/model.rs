use vstd::prelude::*;

use crate::constants::REFERRAL_BONUS_PERCENT;
use crate::models::tasks::TaskModel;
use crate::models::users::{AccountModel, UserModel};
use crate::referral_code::referral_code_of;

verus! {

/// Failure of a store operation: the row is absent, or inserting it would
/// break a uniqueness rule (a conflict is retryable by the caller).
#[derive(Clone, Copy, Debug, PartialEq, Eq, Structural)]
pub enum StoreError {
    NotFound,
    Conflict,
}

/// Failure of a login attempt.
#[derive(Clone, Copy, Debug, PartialEq, Eq, Structural)]
pub enum LoginError {
    UserNotFound,
    WrongWallet,
    BadCredentials,
}

/// Mathematical state of the relational store: the user table, the task
/// catalog, the append-only creation-order log, and the two id counters.
#[verifier::ext_equal]
pub ghost struct DbModel {
    pub users: Seq<AccountModel>,
    pub tasks: Seq<TaskModel>,
    pub creation_log: Seq<int>,
    pub next_user_id: int,
    pub next_task_id: int,
}

/// Index of the first element of `s` satisfying `f`, or -1 if none does.
pub open spec fn find_first<T>(s: Seq<T>, f: spec_fn(T) -> bool) -> int
    decreases s.len(),
{
    if s.len() == 0 {
        -1
    } else if f(s[0]) {
        0
    } else {
        let r = find_first(s.drop_first(), f);
        if r == -1 {
            -1
        } else {
            r + 1
        }
    }
}

/// What `find_first` returns: the first match, or -1 when nothing matches.
pub proof fn lemma_find_first<T>(s: Seq<T>, f: spec_fn(T) -> bool)
    ensures
        find_first(s, f) == -1 ==> forall|j: int| 0 <= j < s.len() ==> !f(s[j]),
        find_first(s, f) != -1 ==> 0 <= find_first(s, f) < s.len(),
        find_first(s, f) != -1 ==> f(s[find_first(s, f)]),
        find_first(s, f) != -1 ==> forall|j: int| 0 <= j < find_first(s, f) ==> !f(s[j]),
    decreases s.len(),
{
    if s.len() > 0 && !f(s[0]) {
        let ss = s.drop_first();
        lemma_find_first(ss, f);
        let r = find_first(ss, f);
        if r == -1 {
            assert forall|j: int| 0 <= j < s.len() implies !f(s[j]) by {
                if j > 0 {
                    assert(ss[j - 1] == s[j]);
                    assert(!f(ss[j - 1]));
                }
            }
        } else {
            assert(find_first(s, f) == r + 1);
            assert(ss[r] == s[r + 1]);
            assert(f(s[r + 1]));
            assert forall|j: int| 0 <= j < r + 1 implies !f(s[j]) by {
                if j > 0 {
                    assert(ss[j - 1] == s[j]);
                    assert(!f(ss[j - 1]));
                }
            }
        }
    }
}

/// An index that matches, with no match before it, is what `find_first`
/// returns.
pub proof fn lemma_find_first_is<T>(s: Seq<T>, f: spec_fn(T) -> bool, i: int)
    requires
        0 <= i < s.len(),
        f(s[i]),
        forall|j: int| 0 <= j < i ==> !f(s[j]),
    ensures
        find_first(s, f) == i,
{
    lemma_find_first(s, f);
    let r = find_first(s, f);
    if r == -1 {
        assert(!f(s[i]));
    } else if r < i {
        assert(!f(s[r]));
    } else if r > i {
        assert(!f(s[i]));
    }
}

/// `find_first` depends only on the predicate's value at each index.
pub proof fn lemma_find_first_same<T>(s1: Seq<T>, s2: Seq<T>, f: spec_fn(T) -> bool)
    requires
        s1.len() == s2.len(),
        forall|j: int| 0 <= j < s1.len() ==> f(s1[j]) == f(s2[j]),
    ensures
        find_first(s1, f) == find_first(s2, f),
{
    lemma_find_first(s1, f);
    lemma_find_first(s2, f);
    let r1 = find_first(s1, f);
    let r2 = find_first(s2, f);
    if r1 == -1 && r2 != -1 {
        assert(!f(s1[r2]));
    } else if r1 != -1 && r2 == -1 {
        assert(!f(s2[r1]));
    } else if r1 != -1 && r2 != -1 && r1 < r2 {
        assert(!f(s2[r1]));
    } else if r1 != -1 && r2 != -1 && r2 < r1 {
        assert(!f(s1[r2]));
    }
}

pub open spec fn wallet_pred(wallet: Seq<char>) -> spec_fn(AccountModel) -> bool {
    |u: AccountModel| u.wallet_address == wallet
}

pub open spec fn twitter_pred(twitter: Seq<char>) -> spec_fn(AccountModel) -> bool {
    |u: AccountModel| u.twitter_id == twitter
}

pub open spec fn code_pred(code: Seq<char>) -> spec_fn(AccountModel) -> bool {
    |u: AccountModel| u.referral_code == code
}

pub open spec fn id_pred(id: int) -> spec_fn(AccountModel) -> bool {
    |u: AccountModel| u.id == id
}

pub open spec fn task_id_pred(id: int) -> spec_fn(TaskModel) -> bool {
    |t: TaskModel| t.id == id
}

pub open spec fn user_idx_by_wallet(users: Seq<AccountModel>, wallet: Seq<char>) -> int {
    find_first(users, wallet_pred(wallet))
}

pub open spec fn user_idx_by_twitter(users: Seq<AccountModel>, twitter: Seq<char>) -> int {
    find_first(users, twitter_pred(twitter))
}

pub open spec fn user_idx_by_code(users: Seq<AccountModel>, code: Seq<char>) -> int {
    find_first(users, code_pred(code))
}

pub open spec fn user_idx_by_id(users: Seq<AccountModel>, id: int) -> int {
    find_first(users, id_pred(id))
}

pub open spec fn task_idx_by_id(tasks: Seq<TaskModel>, id: int) -> int {
    find_first(tasks, task_id_pred(id))
}

/// Per-row well-formedness: the id was assigned by the counter, the points
/// breakdown is consistent, and no task was credited twice.
pub open spec fn account_wf(u: AccountModel, next_user_id: int) -> bool {
    &&& 1 <= u.id < next_user_id
    &&& 0 <= u.referral_points <= u.total_points <= i32::MAX
    &&& forall|a: int, b: int|
        0 <= a < b < u.finished_tasks.len() ==> u.finished_tasks[a] != u.finished_tasks[b]
}

/// Bidirectional referral linkage: a user's referrer exists, is someone
/// else, and lists the user among those it referred.
pub open spec fn referrer_linked(users: Seq<AccountModel>, i: int) -> bool {
    match users[i].referrer_id {
        None => true,
        Some(r) => {
            let k = user_idx_by_id(users, r);
            &&& r != users[i].id
            &&& k != -1
            &&& users[k].referred_by.contains(users[i].id)
        },
    }
}

pub open spec fn users_wf(users: Seq<AccountModel>, next_user_id: int) -> bool {
    &&& forall|i: int, j: int|
        0 <= i < j < users.len() ==> users[i].id != users[j].id
    &&& forall|i: int, j: int|
        0 <= i < j < users.len() ==> users[i].twitter_id != users[j].twitter_id
    &&& forall|i: int, j: int|
        0 <= i < j < users.len() ==> users[i].referral_code != users[j].referral_code
    &&& forall|i: int| 0 <= i < users.len() ==> account_wf(#[trigger] users[i], next_user_id)
    &&& forall|i: int| 0 <= i < users.len() ==> referrer_linked(users, i)
}

pub open spec fn tasks_wf(tasks: Seq<TaskModel>, next_task_id: int) -> bool {
    &&& forall|i: int, j: int|
        0 <= i < j < tasks.len() ==> tasks[i].id != tasks[j].id
    &&& forall|i: int| 0 <= i < tasks.len() ==> 1 <= (#[trigger] tasks[i]).id < next_task_id
    &&& forall|i: int| 0 <= i < tasks.len() ==> 0 <= (#[trigger] tasks[i]).points
}

pub open spec fn log_wf(log: Seq<int>, next_user_id: int) -> bool {
    forall|i: int| 0 <= i < log.len() ==> 0 <= #[trigger] log[i] < next_user_id
}

/// The store invariant that every normal operation preserves.
pub open spec fn db_wf(m: DbModel) -> bool {
    &&& users_wf(m.users, m.next_user_id)
    &&& tasks_wf(m.tasks, m.next_task_id)
    &&& log_wf(m.creation_log, m.next_user_id)
    &&& 1 <= m.next_user_id
    &&& 1 <= m.next_task_id
}

/// The id recorded by the most recent creation, or 0 before any creation:
/// the value the referral code of the next user is derived from.
pub open spec fn last_created_id(m: DbModel) -> int {
    if m.creation_log.len() == 0 {
        0
    } else {
        m.creation_log.last()
    }
}

/// The row inserted for a new registrant.
pub open spec fn new_account(
    m: DbModel,
    twitter: Seq<char>,
    wallet: Seq<char>,
    ep: Seq<char>,
    referrer_id: Option<int>,
) -> AccountModel {
    AccountModel {
        id: m.next_user_id,
        wallet_address: wallet,
        twitter_id: twitter,
        referral_code: referral_code_of(last_created_id(m)),
        total_points: 0,
        finished_tasks: Seq::empty(),
        referral_points: 0,
        referred_by: Seq::empty(),
        referrer_id: referrer_id,
        multiplier: 1,
        encrypted_password: ep,
    }
}

/// User creation: derive the referral code from the creation log, reject
/// duplicates as retryable conflicts, insert the row, record its id in the
/// log, and link the referrer when the supplied code matches one. A missing
/// or invalid referral code never rolls the registration back.
pub open spec fn create_user_m(
    m: DbModel,
    twitter: Seq<char>,
    wallet: Seq<char>,
    reffer: Option<Seq<char>>,
    ep: Seq<char>,
) -> (DbModel, Result<UserModel, StoreError>) {
    let code = referral_code_of(last_created_id(m));
    if user_idx_by_twitter(m.users, twitter) != -1 || user_idx_by_code(m.users, code) != -1 {
        (m, Err(StoreError::Conflict))
    } else {
        let id = m.next_user_id;
        let j = match reffer {
            Some(rc) => user_idx_by_code(m.users, rc),
            None => -1,
        };
        if j == -1 {
            let nu = new_account(m, twitter, wallet, ep, None);
            (
                DbModel {
                    users: m.users.push(nu),
                    creation_log: m.creation_log.push(id),
                    next_user_id: id + 1,
                    ..m
                },
                Ok(nu.public()),
            )
        } else {
            let referrer = m.users[j];
            let linked = AccountModel { referred_by: referrer.referred_by.push(id), ..referrer };
            let nu = new_account(m, twitter, wallet, ep, Some(referrer.id));
            (
                DbModel {
                    users: m.users.update(j, linked).push(nu),
                    creation_log: m.creation_log.push(id),
                    next_user_id: id + 1,
                    ..m
                },
                Ok(nu.public()),
            )
        }
    }
}

/// The one-hop bonus a referrer earns from a completed task worth `points`.
pub open spec fn bonus_of(points: int) -> int {
    points * REFERRAL_BONUS_PERCENT as int / 100
}

/// Task completion: credit the task's points to the user owning the wallet
/// exactly once, and propagate the bonus one hop to the referrer. A task
/// already finished is a no-op success.
pub open spec fn finish_task_m(m: DbModel, wallet: Seq<char>, task_id: int) -> (
    DbModel,
    Result<(), StoreError>,
) {
    let i = user_idx_by_wallet(m.users, wallet);
    if i == -1 {
        (m, Err(StoreError::NotFound))
    } else {
        let u = m.users[i];
        if u.finished_tasks.contains(task_id) {
            (m, Ok(()))
        } else {
            let t = task_idx_by_id(m.tasks, task_id);
            if t == -1 {
                (m, Err(StoreError::NotFound))
            } else {
                let points = m.tasks[t].points;
                let credited = AccountModel {
                    finished_tasks: u.finished_tasks.push(task_id),
                    total_points: u.total_points + points,
                    ..u
                };
                let m1 = DbModel { users: m.users.update(i, credited), ..m };
                match u.referrer_id {
                    None => (m1, Ok(())),
                    Some(rid) => {
                        let k = user_idx_by_id(m1.users, rid);
                        if k == -1 {
                            (m, Err(StoreError::NotFound))
                        } else {
                            let r = m1.users[k];
                            let rewarded = AccountModel {
                                total_points: r.total_points + bonus_of(points),
                                referral_points: r.referral_points + bonus_of(points),
                                ..r
                            };
                            (DbModel { users: m1.users.update(k, rewarded), ..m1 }, Ok(()))
                        }
                    },
                }
            }
        }
    }
}

/// The machine-size bound a completion must satisfy: whenever points would
/// be credited, the new totals still fit the store's integer columns, and
/// the bonus numerator does too.
pub open spec fn finish_fits(m: DbModel, wallet: Seq<char>, task_id: int) -> bool {
    let i = user_idx_by_wallet(m.users, wallet);
    if i == -1 {
        true
    } else {
        let u = m.users[i];
        if u.finished_tasks.contains(task_id) {
            true
        } else {
            let t = task_idx_by_id(m.tasks, task_id);
            if t == -1 {
                true
            } else {
                let points = m.tasks[t].points;
                &&& points * REFERRAL_BONUS_PERCENT as int <= i32::MAX
                &&& u.total_points + points <= i32::MAX
                &&& match u.referrer_id {
                    None => true,
                    Some(rid) => {
                        let k = user_idx_by_id(m.users, rid);
                        k != -1 ==> {
                            &&& m.users[k].total_points + bonus_of(points) <= i32::MAX
                            &&& m.users[k].referral_points + bonus_of(points) <= i32::MAX
                        }
                    },
                }
            }
        }
    }
}

/// Wallet binding: overwrite the wallet of the user owning the handle, last
/// write wins, and report the row's id.
pub open spec fn bind_wallet_m(m: DbModel, twitter: Seq<char>, wallet: Seq<char>) -> (
    DbModel,
    Result<int, StoreError>,
) {
    let i = user_idx_by_twitter(m.users, twitter);
    if i == -1 {
        (m, Err(StoreError::NotFound))
    } else {
        let u = m.users[i];
        (
            DbModel { users: m.users.update(i, AccountModel { wallet_address: wallet, ..u }), ..m },
            Ok(u.id),
        )
    }
}

/// Multiplier overwrite by user id; updating an absent row changes nothing
/// and still succeeds.
pub open spec fn set_multiplier_m(m: DbModel, user_id: int, multiplier: int) -> DbModel {
    let i = user_idx_by_id(m.users, user_id);
    if i == -1 {
        m
    } else {
        DbModel {
            users: m.users.update(i, AccountModel { multiplier: multiplier, ..m.users[i] }),
            ..m
        }
    }
}

/// Administrative removal by handle, with the number of removed rows.
pub open spec fn delete_user_m(m: DbModel, twitter: Seq<char>) -> (DbModel, int) {
    let i = user_idx_by_twitter(m.users, twitter);
    if i == -1 {
        (m, 0)
    } else {
        (DbModel { users: m.users.remove(i), ..m }, 1)
    }
}

/// Appends a freshly assigned user id to the creation-order log.
pub open spec fn save_last_created_m(m: DbModel, user_id: int) -> DbModel {
    DbModel { creation_log: m.creation_log.push(user_id), ..m }
}

/// Login: the handle must exist, the stored wallet must match, and the
/// supplied password must validate against the stored hash.
pub open spec fn login_m(m: DbModel, twitter: Seq<char>, wallet: Seq<char>, valid: bool) -> Result<
    UserModel,
    LoginError,
> {
    let i = user_idx_by_twitter(m.users, twitter);
    if i == -1 {
        Err(LoginError::UserNotFound)
    } else if m.users[i].wallet_address != wallet {
        Err(LoginError::WrongWallet)
    } else if !valid {
        Err(LoginError::BadCredentials)
    } else {
        Ok(m.users[i].public())
    }
}

/// The externally reported score: the stored breakdown scaled by the
/// multiplier at read time, never persisted.
pub open spec fn snapshot_points_m(u: AccountModel) -> int {
    (u.total_points + u.referral_points) * u.multiplier
}

/// Task creation: the row gets the next catalog id and the creation time.
pub open spec fn create_task_m(
    m: DbModel,
    description: Seq<char>,
    points: int,
    link: Option<Seq<char>>,
    button: Seq<char>,
    ts: int,
) -> DbModel {
    let t = TaskModel {
        id: m.next_task_id,
        description: description,
        points: points,
        time_created: ts,
        link: link,
        task_button_text: Some(button),
    };
    DbModel { tasks: m.tasks.push(t), next_task_id: m.next_task_id + 1, ..m }
}

/// Task removal; removing an absent task is reported as not found.
pub open spec fn delete_task_m(m: DbModel, task_id: int) -> (DbModel, Result<(), StoreError>) {
    let i = task_idx_by_id(m.tasks, task_id);
    if i == -1 {
        (m, Err(StoreError::NotFound))
    } else {
        (DbModel { tasks: m.tasks.remove(i), ..m }, Ok(()))
    }
}

/// Task patch: absent fields keep the stored value; the stored optional
/// fields come out present, defaulting to the empty string.
pub open spec fn put_task_m(
    m: DbModel,
    task_id: int,
    description: Option<Seq<char>>,
    points: Option<int>,
    link: Option<Seq<char>>,
    button: Option<Seq<char>>,
) -> (DbModel, Result<(), StoreError>) {
    let i = task_idx_by_id(m.tasks, task_id);
    if i == -1 {
        (m, Err(StoreError::NotFound))
    } else {
        let t = m.tasks[i];
        let merged = TaskModel {
            description: match description {
                Some(d) => d,
                None => t.description,
            },
            points: match points {
                Some(p) => p,
                None => t.points,
            },
            link: Some(
                match link {
                    Some(l) => l,
                    None => match t.link {
                        Some(l) => l,
                        None => Seq::empty(),
                    },
                },
            ),
            task_button_text: Some(
                match button {
                    Some(b) => b,
                    None => match t.task_button_text {
                        Some(b) => b,
                        None => Seq::empty(),
                    },
                },
            ),
            ..t
        };
        (DbModel { tasks: m.tasks.update(i, merged), ..m }, Ok(()))
    }
}

} // verus!
