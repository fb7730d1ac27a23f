use vstd::prelude::*;

use crate::db::model::{
    code_pred, db_wf, id_pred, lemma_find_first, lemma_find_first_is, task_id_pred, task_idx_by_id,
    twitter_pred, user_idx_by_code, user_idx_by_id, user_idx_by_twitter, user_idx_by_wallet,
    wallet_pred, DbModel,
};
use crate::models::tasks::{Task, TaskModel};
use crate::models::users::{AccountModel, UserWithEncryptedPassword};

verus! {

pub open spec fn accounts_view(users: Seq<UserWithEncryptedPassword>) -> Seq<AccountModel> {
    users.map_values(|u: UserWithEncryptedPassword| u@)
}

pub open spec fn tasks_view(tasks: Seq<Task>) -> Seq<TaskModel> {
    tasks.map_values(|t: Task| t@)
}

pub open spec fn log_view(log: Seq<i32>) -> Seq<int> {
    log.map_values(|v: i32| v as int)
}

/// The store: user rows, the task catalog, the append-only creation-order
/// log, and the counters handing out row ids.
pub struct Database {
    pub users: Vec<UserWithEncryptedPassword>,
    pub tasks: Vec<Task>,
    pub creation_log: Vec<i32>,
    pub next_user_id: i32,
    pub next_task_id: i32,
}

impl View for Database {
    type V = DbModel;

    open spec fn view(&self) -> DbModel {
        DbModel {
            users: accounts_view(self.users@),
            tasks: tasks_view(self.tasks@),
            creation_log: log_view(self.creation_log@),
            next_user_id: self.next_user_id as int,
            next_task_id: self.next_task_id as int,
        }
    }
}

impl Database {
    /// An empty store, before any registration or task.
    pub fn new() -> (r: Database)
        ensures
            r@.users == Seq::<AccountModel>::empty(),
            r@.tasks == Seq::<TaskModel>::empty(),
            r@.creation_log == Seq::<int>::empty(),
            r@.next_user_id == 1,
            r@.next_task_id == 1,
            db_wf(r@),
    {
        let r = Database {
            users: Vec::new(),
            tasks: Vec::new(),
            creation_log: Vec::new(),
            next_user_id: 1,
            next_task_id: 1,
        };
        proof {
            assert(r@.users =~= Seq::<AccountModel>::empty());
            assert(r@.tasks =~= Seq::<TaskModel>::empty());
            assert(r@.creation_log =~= Seq::<int>::empty());
        }
        r
    }
}

/// Compares a borrowed string slice with a stored string.
pub fn str_eq_string(a: &str, b: &String) -> (r: bool)
    ensures
        r == (a@ == b@),
{
    let owned: String = a.to_owned();
    owned == *b
}

/// Finds the row index of the user owning `twitter`, scanning in store
/// order.
pub fn find_by_twitter(users: &Vec<UserWithEncryptedPassword>, twitter: &str) -> (r: Option<usize>)
    ensures
        match r {
            Some(i) => i < users@.len() && user_idx_by_twitter(accounts_view(users@), twitter@)
                == i as int,
            None => user_idx_by_twitter(accounts_view(users@), twitter@) == -1,
        },
{
    let ghost f = twitter_pred(twitter@);
    let mut i: usize = 0;
    while i < users.len()
        invariant
            f == twitter_pred(twitter@),
            i <= users@.len(),
            forall|j: int| 0 <= j < i ==> !f(accounts_view(users@)[j]),
        decreases users@.len() - i,
    {
        proof {
            assert(accounts_view(users@)[i as int] == users@[i as int]@);
        }
        if str_eq_string(twitter, &users[i].twitter_id) {
            proof {
                lemma_find_first_is(accounts_view(users@), f, i as int);
            }
            return Some(i);
        }
        proof {
            assert(!f(accounts_view(users@)[i as int]));
        }
        i = i + 1;
    }
    proof {
        lemma_find_first(accounts_view(users@), f);
    }
    None
}

/// Finds the row index of the first user bound to `wallet`.
pub fn find_by_wallet(users: &Vec<UserWithEncryptedPassword>, wallet: &str) -> (r: Option<usize>)
    ensures
        match r {
            Some(i) => i < users@.len() && user_idx_by_wallet(accounts_view(users@), wallet@)
                == i as int,
            None => user_idx_by_wallet(accounts_view(users@), wallet@) == -1,
        },
{
    let ghost f = wallet_pred(wallet@);
    let mut i: usize = 0;
    while i < users.len()
        invariant
            f == wallet_pred(wallet@),
            i <= users@.len(),
            forall|j: int| 0 <= j < i ==> !f(accounts_view(users@)[j]),
        decreases users@.len() - i,
    {
        proof {
            assert(accounts_view(users@)[i as int] == users@[i as int]@);
        }
        if str_eq_string(wallet, &users[i].wallet_address) {
            proof {
                lemma_find_first_is(accounts_view(users@), f, i as int);
            }
            return Some(i);
        }
        proof {
            assert(!f(accounts_view(users@)[i as int]));
        }
        i = i + 1;
    }
    proof {
        lemma_find_first(accounts_view(users@), f);
    }
    None
}

/// Finds the row index of the user whose referral code is `code`.
pub fn find_by_code(users: &Vec<UserWithEncryptedPassword>, code: &str) -> (r: Option<usize>)
    ensures
        match r {
            Some(i) => i < users@.len() && user_idx_by_code(accounts_view(users@), code@)
                == i as int,
            None => user_idx_by_code(accounts_view(users@), code@) == -1,
        },
{
    let ghost f = code_pred(code@);
    let mut i: usize = 0;
    while i < users.len()
        invariant
            f == code_pred(code@),
            i <= users@.len(),
            forall|j: int| 0 <= j < i ==> !f(accounts_view(users@)[j]),
        decreases users@.len() - i,
    {
        proof {
            assert(accounts_view(users@)[i as int] == users@[i as int]@);
        }
        if str_eq_string(code, &users[i].referral_code) {
            proof {
                lemma_find_first_is(accounts_view(users@), f, i as int);
            }
            return Some(i);
        }
        proof {
            assert(!f(accounts_view(users@)[i as int]));
        }
        i = i + 1;
    }
    proof {
        lemma_find_first(accounts_view(users@), f);
    }
    None
}

/// Finds the row index of the user with the given id.
pub fn find_by_id(users: &Vec<UserWithEncryptedPassword>, id: i32) -> (r: Option<usize>)
    ensures
        match r {
            Some(i) => i < users@.len() && user_idx_by_id(accounts_view(users@), id as int)
                == i as int,
            None => user_idx_by_id(accounts_view(users@), id as int) == -1,
        },
{
    let ghost f = id_pred(id as int);
    let mut i: usize = 0;
    while i < users.len()
        invariant
            f == id_pred(id as int),
            i <= users@.len(),
            forall|j: int| 0 <= j < i ==> !f(accounts_view(users@)[j]),
        decreases users@.len() - i,
    {
        proof {
            assert(accounts_view(users@)[i as int] == users@[i as int]@);
        }
        if users[i].id == id {
            proof {
                lemma_find_first_is(accounts_view(users@), f, i as int);
            }
            return Some(i);
        }
        proof {
            assert(!f(accounts_view(users@)[i as int]));
        }
        i = i + 1;
    }
    proof {
        lemma_find_first(accounts_view(users@), f);
    }
    None
}

/// Finds the catalog index of the task with the given id.
pub fn find_task_by_id(tasks: &Vec<Task>, id: i32) -> (r: Option<usize>)
    ensures
        match r {
            Some(i) => i < tasks@.len() && task_idx_by_id(tasks_view(tasks@), id as int) == i as int,
            None => task_idx_by_id(tasks_view(tasks@), id as int) == -1,
        },
{
    let ghost f = task_id_pred(id as int);
    let mut i: usize = 0;
    while i < tasks.len()
        invariant
            f == task_id_pred(id as int),
            i <= tasks@.len(),
            forall|j: int| 0 <= j < i ==> !f(tasks_view(tasks@)[j]),
        decreases tasks@.len() - i,
    {
        proof {
            assert(tasks_view(tasks@)[i as int] == tasks@[i as int]@);
        }
        if tasks[i].id == id {
            proof {
                lemma_find_first_is(tasks_view(tasks@), f, i as int);
            }
            return Some(i);
        }
        proof {
            assert(!f(tasks_view(tasks@)[i as int]));
        }
        i = i + 1;
    }
    proof {
        lemma_find_first(tasks_view(tasks@), f);
    }
    None
}

} // verus!

