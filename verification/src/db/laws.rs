use vstd::prelude::*;

use crate::db::model::{
    account_wf, bonus_of, code_pred, create_user_m, db_wf, find_first, finish_fits, finish_task_m,
    id_pred, last_created_id, lemma_find_first, lemma_find_first_is, lemma_find_first_same,
    referrer_linked, task_idx_by_id, twitter_pred, user_idx_by_code, user_idx_by_id,
    user_idx_by_twitter, user_idx_by_wallet, users_wf, wallet_pred, DbModel,
};
use crate::models::users::AccountModel;
use crate::referral_code::referral_code_of;

verus! {

proof fn lemma_contains_push<T>(s: Seq<T>, x: T, y: T)
    requires
        s.contains(y),
    ensures
        s.push(x).contains(y),
{
    let w = choose|w: int| 0 <= w < s.len() && s[w] == y;
    assert(s.push(x)[w] == y);
}

proof fn lemma_push_contains_last<T>(s: Seq<T>, x: T)
    ensures
        s.push(x).contains(x),
{
    assert(s.push(x)[s.len() as int] == x);
}

/// Pushing a row keeps the position of an id that was already present.
proof fn lemma_find_first_push_found<T>(s: Seq<T>, x: T, f: spec_fn(T) -> bool)
    requires
        find_first(s, f) != -1,
    ensures
        find_first(s.push(x), f) == find_first(s, f),
{
    let k = find_first(s, f);
    lemma_find_first(s, f);
    assert(s.push(x)[k] == s[k]);
    assert forall|y: int| 0 <= y < k implies !f(s.push(x)[y]) by {
        assert(s.push(x)[y] == s[y]);
    }
    lemma_find_first_is(s.push(x), f, k);
}

/// The account fields that the store invariant reads.
pub open spec fn wf_fields_same(a: AccountModel, b: AccountModel) -> bool {
    &&& a.id == b.id
    &&& a.twitter_id == b.twitter_id
    &&& a.referral_code == b.referral_code
    &&& a.total_points == b.total_points
    &&& a.referral_points == b.referral_points
    &&& a.finished_tasks == b.finished_tasks
    &&& a.referred_by == b.referred_by
    &&& a.referrer_id == b.referrer_id
}

/// A table that agrees row by row on every invariant-relevant field is as
/// well-formed as the original; wallets and multipliers may change freely.
pub proof fn lemma_users_wf_same(users1: Seq<AccountModel>, users2: Seq<AccountModel>, next: int)
    requires
        users_wf(users1, next),
        users1.len() == users2.len(),
        forall|x: int| 0 <= x < users1.len() ==> wf_fields_same(users1[x], #[trigger] users2[x]),
    ensures
        users_wf(users2, next),
{
    assert forall|x: int| 0 <= x < users2.len() implies referrer_linked(users2, x) by {
        assert(referrer_linked(users1, x));
        assert(wf_fields_same(users1[x], users2[x]));
        match users2[x].referrer_id {
            None => {},
            Some(r) => {
                let k = user_idx_by_id(users1, r);
                lemma_find_first(users1, id_pred(r));
                assert forall|y: int| 0 <= y < users1.len() implies id_pred(r)(users1[y]) == id_pred(
                    r,
                )(users2[y]) by {
                    assert(wf_fields_same(users1[y], users2[y]));
                }
                lemma_find_first_same(users1, users2, id_pred(r));
                assert(wf_fields_same(users1[k], users2[k]));
            },
        }
    }
}

/// User creation preserves the store invariant: row ids, handles and
/// referral codes stay pairwise distinct, the points breakdown of the new
/// row is trivially consistent, and the referral linkage it establishes is
/// bidirectional.
pub proof fn lemma_create_user_m_wf(
    m: DbModel,
    twitter: Seq<char>,
    wallet: Seq<char>,
    reffer: Option<Seq<char>>,
    ep: Seq<char>,
)
    requires
        db_wf(m),
    ensures
        db_wf(create_user_m(m, twitter, wallet, reffer, ep).0),
{
    let code = referral_code_of(last_created_id(m));
    if user_idx_by_twitter(m.users, twitter) != -1 || user_idx_by_code(m.users, code) != -1 {
    } else {
        lemma_find_first(m.users, twitter_pred(twitter));
        lemma_find_first(m.users, code_pred(code));
        assert forall|x: int| 0 <= x < m.users.len() implies m.users[x].twitter_id != twitter by {
            assert(!twitter_pred(twitter)(m.users[x]));
        }
        assert forall|x: int| 0 <= x < m.users.len() implies m.users[x].referral_code != code by {
            assert(!code_pred(code)(m.users[x]));
        }
        let id = m.next_user_id;
        let next2 = id + 1;
        let j = match reffer {
            Some(rc) => user_idx_by_code(m.users, rc),
            None => -1,
        };
        let base = if j == -1 {
            m.users
        } else {
            m.users.update(
                j,
                AccountModel {
                    referred_by: m.users[j].referred_by.push(id),
                    ..m.users[j]
                },
            )
        };
        let referrer_id = if j == -1 {
            None
        } else {
            Some(m.users[j].id)
        };
        let nu = crate::db::model::new_account(m, twitter, wallet, ep, referrer_id);
        let us2 = base.push(nu);
        if j != -1 {
            lemma_find_first(m.users, code_pred(reffer->Some_0));
        }
        assert(create_user_m(m, twitter, wallet, reffer, ep).0.users == us2);
        assert(base.len() == m.users.len());
        assert forall|x: int| 0 <= x < m.users.len() implies {
            &&& base[x].id == m.users[x].id
            &&& base[x].twitter_id == m.users[x].twitter_id
            &&& base[x].referral_code == m.users[x].referral_code
            &&& base[x].total_points == m.users[x].total_points
            &&& base[x].referral_points == m.users[x].referral_points
            &&& base[x].finished_tasks == m.users[x].finished_tasks
            &&& base[x].referrer_id == m.users[x].referrer_id
        } by {}
        // pairwise distinctness of ids, handles and codes
        assert forall|a: int, b: int| 0 <= a < b < us2.len() implies us2[a].id != us2[b].id by {
            if b < m.users.len() {
            } else {
                assert(account_wf(m.users[a], m.next_user_id));
            }
        }
        assert forall|a: int, b: int|
            0 <= a < b < us2.len() implies us2[a].twitter_id != us2[b].twitter_id by {}
        assert forall|a: int, b: int|
            0 <= a < b < us2.len() implies us2[a].referral_code != us2[b].referral_code by {}
        // per-row well-formedness
        assert forall|x: int| 0 <= x < us2.len() implies account_wf(#[trigger] us2[x], next2) by {
            if x < m.users.len() {
                assert(account_wf(m.users[x], m.next_user_id));
                assert(us2[x].finished_tasks == m.users[x].finished_tasks);
            }
        }
        // referral linkage
        assert forall|x: int| 0 <= x < us2.len() implies referrer_linked(us2, x) by {
            if x < m.users.len() {
                assert(referrer_linked(m.users, x));
                match m.users[x].referrer_id {
                    None => {
                        assert(us2[x].referrer_id == m.users[x].referrer_id);
                    },
                    Some(r) => {
                        assert(us2[x].referrer_id == m.users[x].referrer_id);
                        let k = user_idx_by_id(m.users, r);
                        lemma_find_first(m.users, id_pred(r));
                        assert forall|y: int| 0 <= y < m.users.len() implies id_pred(r)(
                            m.users[y],
                        ) == id_pred(r)(base[y]) by {}
                        lemma_find_first_same(m.users, base, id_pred(r));
                        lemma_find_first_push_found(base, nu, id_pred(r));
                        assert(user_idx_by_id(us2, r) == k);
                        assert(us2[x].id == m.users[x].id);
                        assert(us2[k] == base[k]);
                        if j != -1 && k == j {
                            lemma_contains_push(m.users[j].referred_by, id, m.users[x].id);
                        } else {
                            assert(base[k] == m.users[k]);
                        }
                        assert(us2[k].referred_by.contains(us2[x].id));
                    },
                }
            } else {
                assert(us2[x] == nu);
                match referrer_id {
                    None => {},
                    Some(r) => {
                        assert(r == m.users[j].id);
                        assert(id_pred(r)(us2[j]));
                        assert forall|y: int| 0 <= y < j implies !id_pred(r)(us2[y]) by {
                            assert(m.users[y].id != m.users[j].id);
                        }
                        lemma_find_first_is(us2, id_pred(r), j);
                        lemma_push_contains_last(m.users[j].referred_by, id);
                        assert(us2[j].referred_by.contains(nu.id));
                        assert(account_wf(m.users[j], m.next_user_id));
                    },
                }
            }
        }
        assert(users_wf(us2, next2));
        // creation log
        let log2 = m.creation_log.push(id);
        assert forall|x: int| 0 <= x < log2.len() implies 0 <= #[trigger] log2[x] < next2 by {
            if x < m.creation_log.len() {
                assert(log2[x] == m.creation_log[x]);
            }
        }
    }
}

/// Task completion preserves the store invariant: the credited task id is
/// new to the user's list, both updated rows keep `referral_points` within
/// `total_points`, and no id, handle, code or linkage field changes.
pub proof fn lemma_finish_task_m_wf(m: DbModel, wallet: Seq<char>, task_id: int)
    requires
        db_wf(m),
        finish_fits(m, wallet, task_id),
    ensures
        db_wf(finish_task_m(m, wallet, task_id).0),
{
    let i = user_idx_by_wallet(m.users, wallet);
    if i == -1 {
        return ;
    }
    lemma_find_first(m.users, wallet_pred(wallet));
    let u = m.users[i];
    if u.finished_tasks.contains(task_id) {
        return ;
    }
    let t = task_idx_by_id(m.tasks, task_id);
    if t == -1 {
        return ;
    }
    lemma_find_first(m.tasks, crate::db::model::task_id_pred(task_id));
    let points = m.tasks[t].points;
    assert(0 <= points);
    let credited = AccountModel {
        finished_tasks: u.finished_tasks.push(task_id),
        total_points: u.total_points + points,
        ..u
    };
    let us1 = m.users.update(i, credited);
    assert(account_wf(u, m.next_user_id));
    assert forall|a: int, b: int|
        0 <= a < b < credited.finished_tasks.len() implies credited.finished_tasks[a]
        != credited.finished_tasks[b] by {
        if b == u.finished_tasks.len() {
            assert(credited.finished_tasks[a] == u.finished_tasks[a]);
            if u.finished_tasks[a] == task_id {
                assert(u.finished_tasks.contains(task_id));
            }
        }
    }
    assert(account_wf(credited, m.next_user_id));
    let linked_same = |usx: Seq<AccountModel>|
        forall|x: int|
            0 <= x < usx.len() ==> {
                &&& (#[trigger] usx[x]).id == m.users[x].id
                &&& usx[x].twitter_id == m.users[x].twitter_id
                &&& usx[x].referral_code == m.users[x].referral_code
                &&& usx[x].referred_by == m.users[x].referred_by
                &&& usx[x].referrer_id == m.users[x].referrer_id
            };
    assert(linked_same(us1));
    match u.referrer_id {
        None => {
            lemma_finish_wf_common(m, us1);
        },
        Some(rid) => {
            assert(referrer_linked(m.users, i));
            let k0 = user_idx_by_id(m.users, rid);
            assert(k0 != -1);
            lemma_find_first(m.users, id_pred(rid));
            assert forall|y: int| 0 <= y < m.users.len() implies id_pred(rid)(m.users[y]) == id_pred(
                rid,
            )(us1[y]) by {}
            lemma_find_first_same(m.users, us1, id_pred(rid));
            let k = user_idx_by_id(us1, rid);
            assert(k == k0);
            assert(us1[k].id == rid);
            assert(rid != u.id);
            assert(us1[i].id == u.id);
            assert(k != i);
            assert(us1[k] == m.users[k]);
            let r = us1[k];
            let rewarded = AccountModel {
                total_points: r.total_points + bonus_of(points),
                referral_points: r.referral_points + bonus_of(points),
                ..r
            };
            assert(0 <= bonus_of(points));
            assert(account_wf(r, m.next_user_id));
            assert(account_wf(rewarded, m.next_user_id));
            let us2 = us1.update(k, rewarded);
            assert(linked_same(us2));
            lemma_finish_wf_common(m, us2);
        },
    }
}

/// Shared tail of the completion proof: a table agreeing with the original
/// on ids, handles, codes and linkage fields, whose rows are each
/// well-formed, is well-formed as a whole.
proof fn lemma_finish_wf_common(m: DbModel, us2: Seq<AccountModel>)
    requires
        db_wf(m),
        us2.len() == m.users.len(),
        forall|x: int|
            0 <= x < us2.len() ==> {
                &&& (#[trigger] us2[x]).id == m.users[x].id
                &&& us2[x].twitter_id == m.users[x].twitter_id
                &&& us2[x].referral_code == m.users[x].referral_code
                &&& us2[x].referred_by == m.users[x].referred_by
                &&& us2[x].referrer_id == m.users[x].referrer_id
            },
        forall|x: int| 0 <= x < us2.len() ==> account_wf(#[trigger] us2[x], m.next_user_id),
    ensures
        users_wf(us2, m.next_user_id),
{
    assert forall|x: int| 0 <= x < us2.len() implies referrer_linked(us2, x) by {
        assert(referrer_linked(m.users, x));
        assert(us2[x].id == m.users[x].id);
        match us2[x].referrer_id {
            None => {},
            Some(r) => {
                let k = user_idx_by_id(m.users, r);
                lemma_find_first(m.users, id_pred(r));
                assert forall|y: int| 0 <= y < m.users.len() implies id_pred(r)(m.users[y])
                    == id_pred(r)(us2[y]) by {}
                lemma_find_first_same(m.users, us2, id_pred(r));
                assert(us2[k].referred_by == m.users[k].referred_by);
            },
        }
    }
}

/// Idempotent completion: finishing the same task for the same wallet a
/// second time changes no row and still succeeds, so points are credited
/// exactly once.
pub proof fn lemma_finish_task_idempotent(m: DbModel, wallet: Seq<char>, task_id: int)
    requires
        db_wf(m),
    ensures
        ({
            let (m1, r1) = finish_task_m(m, wallet, task_id);
            let (m2, r2) = finish_task_m(m1, wallet, task_id);
            &&& m2 == m1
            &&& (r1 is Ok ==> r2 is Ok)
        }),
{
    let i = user_idx_by_wallet(m.users, wallet);
    if i == -1 {
        return ;
    }
    lemma_find_first(m.users, wallet_pred(wallet));
    let u = m.users[i];
    if u.finished_tasks.contains(task_id) {
        return ;
    }
    let t = task_idx_by_id(m.tasks, task_id);
    if t == -1 {
        return ;
    }
    let points = m.tasks[t].points;
    let credited = AccountModel {
        finished_tasks: u.finished_tasks.push(task_id),
        total_points: u.total_points + points,
        ..u
    };
    let us1 = m.users.update(i, credited);
    let m1 = finish_task_m(m, wallet, task_id).0;
    match u.referrer_id {
        None => {
            assert(m1.users == us1);
        },
        Some(rid) => {
            assert(referrer_linked(m.users, i));
            let k0 = user_idx_by_id(m.users, rid);
            lemma_find_first(m.users, id_pred(rid));
            assert forall|y: int| 0 <= y < m.users.len() implies id_pred(rid)(m.users[y]) == id_pred(
                rid,
            )(us1[y]) by {}
            lemma_find_first_same(m.users, us1, id_pred(rid));
            assert(m.users[k0].id == rid);
            assert(k0 != i);
        },
    }
    // the same row is found again, and the task is now in its list
    assert forall|y: int| 0 <= y < m.users.len() implies wallet_pred(wallet)(m.users[y])
        == wallet_pred(wallet)(m1.users[y]) by {}
    lemma_find_first_same(m.users, m1.users, wallet_pred(wallet));
    assert(user_idx_by_wallet(m1.users, wallet) == i);
    assert(m1.users[i].finished_tasks == credited.finished_tasks);
    lemma_push_contains_last(u.finished_tasks, task_id);
    assert(m1.users[i].finished_tasks.contains(task_id));
}

/// Referral bonus correctness: completing a task worth P for a referred
/// user raises the referrer's `total_points` and `referral_points` by
/// exactly `floor(P * percent / 100)` and leaves the referrer's
/// `finished_tasks` untouched.
pub proof fn lemma_referral_bonus(m: DbModel, wallet: Seq<char>, task_id: int)
    requires
        db_wf(m),
        user_idx_by_wallet(m.users, wallet) != -1,
        !m.users[user_idx_by_wallet(m.users, wallet)].finished_tasks.contains(task_id),
        task_idx_by_id(m.tasks, task_id) != -1,
        m.users[user_idx_by_wallet(m.users, wallet)].referrer_id is Some,
    ensures
        ({
            let i = user_idx_by_wallet(m.users, wallet);
            let t = task_idx_by_id(m.tasks, task_id);
            let points = m.tasks[t].points;
            let rid = m.users[i].referrer_id->Some_0;
            let k = user_idx_by_id(m.users, rid);
            let (m1, r1) = finish_task_m(m, wallet, task_id);
            &&& r1 is Ok
            &&& 0 <= k < m.users.len()
            &&& m1.users[k].total_points == m.users[k].total_points + bonus_of(points)
            &&& m1.users[k].referral_points == m.users[k].referral_points + bonus_of(points)
            &&& m1.users[k].finished_tasks == m.users[k].finished_tasks
        }),
{
    let i = user_idx_by_wallet(m.users, wallet);
    lemma_find_first(m.users, wallet_pred(wallet));
    let u = m.users[i];
    let t = task_idx_by_id(m.tasks, task_id);
    lemma_find_first(m.tasks, crate::db::model::task_id_pred(task_id));
    let points = m.tasks[t].points;
    let rid = u.referrer_id->Some_0;
    let credited = AccountModel {
        finished_tasks: u.finished_tasks.push(task_id),
        total_points: u.total_points + points,
        ..u
    };
    let us1 = m.users.update(i, credited);
    assert(referrer_linked(m.users, i));
    let k0 = user_idx_by_id(m.users, rid);
    lemma_find_first(m.users, id_pred(rid));
    assert forall|y: int| 0 <= y < m.users.len() implies id_pred(rid)(m.users[y]) == id_pred(rid)(
        us1[y],
    ) by {}
    lemma_find_first_same(m.users, us1, id_pred(rid));
    assert(m.users[k0].id == rid);
    assert(k0 != i);
    assert(us1[k0] == m.users[k0]);
}

/// No self-referral amplification: a user with no referrer completing a
/// task never mutates any other user's row; absent users and tasks mutate
/// nothing at all.
pub proof fn lemma_no_referrer_isolation(m: DbModel, wallet: Seq<char>, task_id: int)
    requires
        db_wf(m),
        ({
            let i = user_idx_by_wallet(m.users, wallet);
            i == -1 || m.users[i].referrer_id is None
        }),
    ensures
        ({
            let i = user_idx_by_wallet(m.users, wallet);
            let m1 = finish_task_m(m, wallet, task_id).0;
            &&& m1.users.len() == m.users.len()
            &&& forall|j: int| 0 <= j < m.users.len() && j != i ==> m1.users[j] == m.users[j]
        }),
{
    let i = user_idx_by_wallet(m.users, wallet);
    if i != -1 {
        lemma_find_first(m.users, wallet_pred(wallet));
    }
}

/// Referral-code uniqueness: any creation leaves all stored referral codes
/// pairwise distinct, so users created one after another always carry
/// distinct codes.
pub proof fn lemma_referral_code_uniqueness(
    m: DbModel,
    twitter: Seq<char>,
    wallet: Seq<char>,
    reffer: Option<Seq<char>>,
    ep: Seq<char>,
)
    requires
        db_wf(m),
    ensures
        ({
            let m2 = create_user_m(m, twitter, wallet, reffer, ep).0;
            forall|a: int, b: int|
                0 <= a < b < m2.users.len() ==> m2.users[a].referral_code
                    != m2.users[b].referral_code
        }),
{
    lemma_create_user_m_wf(m, twitter, wallet, reffer, ep);
}

/// Bidirectional linkage: when a creation with a matching referral code
/// succeeds, the new user's `referrer_id` names the referrer, and the
/// referrer's `referred_by` has gained the new user's id.
pub proof fn lemma_bidirectional_linkage(
    m: DbModel,
    twitter: Seq<char>,
    wallet: Seq<char>,
    rc: Seq<char>,
    ep: Seq<char>,
)
    requires
        db_wf(m),
        user_idx_by_code(m.users, rc) != -1,
    ensures
        ({
            let j = user_idx_by_code(m.users, rc);
            let (m2, res) = create_user_m(m, twitter, wallet, Some(rc), ep);
            res is Ok ==> {
                &&& m2.users.len() == m.users.len() + 1
                &&& m2.users.last().id == m.next_user_id
                &&& m2.users.last().referrer_id == Some(m.users[j].id)
                &&& res->Ok_0.referrer_id == Some(m.users[j].id)
                &&& m2.users[j].referred_by == m.users[j].referred_by.push(m.next_user_id)
                &&& m2.users[j].referred_by.contains(m2.users.last().id)
            }
        }),
{
    let j = user_idx_by_code(m.users, rc);
    lemma_find_first(m.users, code_pred(rc));
    let (m2, res) = create_user_m(m, twitter, wallet, Some(rc), ep);
    if res is Ok {
        lemma_push_contains_last(m.users[j].referred_by, m.next_user_id);
    }
}

} // verus!
