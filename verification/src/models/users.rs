use vstd::prelude::*;

verus! {

/// Mathematical image of one stored account row, including the credential
/// material that never leaves the authentication flow.
#[verifier::ext_equal]
pub ghost struct AccountModel {
    pub id: int,
    pub wallet_address: Seq<char>,
    pub twitter_id: Seq<char>,
    pub referral_code: Seq<char>,
    pub total_points: int,
    pub finished_tasks: Seq<int>,
    pub referral_points: int,
    pub referred_by: Seq<int>,
    pub referrer_id: Option<int>,
    pub multiplier: int,
    pub encrypted_password: Seq<char>,
}

/// Mathematical image of the publicly visible part of an account row.
#[verifier::ext_equal]
pub ghost struct UserModel {
    pub id: int,
    pub wallet_address: Seq<char>,
    pub twitter_id: Seq<char>,
    pub referral_code: Seq<char>,
    pub total_points: int,
    pub finished_tasks: Seq<int>,
    pub referral_points: int,
    pub referred_by: Seq<int>,
    pub referrer_id: Option<int>,
    pub multiplier: int,
}

impl AccountModel {
    /// The projection that drops the credential material.
    pub open spec fn public(self) -> UserModel {
        UserModel {
            id: self.id,
            wallet_address: self.wallet_address,
            twitter_id: self.twitter_id,
            referral_code: self.referral_code,
            total_points: self.total_points,
            finished_tasks: self.finished_tasks,
            referral_points: self.referral_points,
            referred_by: self.referred_by,
            referrer_id: self.referrer_id,
            multiplier: self.multiplier,
        }
    }
}

/// The public projection of a whole user table.
pub open spec fn public_users(users: Seq<AccountModel>) -> Seq<UserModel> {
    users.map_values(|u: AccountModel| u.public())
}

/// A user row as handed to clients: everything but the encrypted password.
#[derive(Debug)]
pub struct User {
    pub id: i32,
    pub wallet_address: String,
    pub twitter_id: String,
    pub referral_code: String,
    pub total_points: i32,
    pub finished_tasks: Vec<i32>,
    pub referral_points: i32,
    pub referred_by: Vec<i32>,
    pub referrer_id: Option<i32>,
    pub multiplier: i32,
}

/// A full user row, as stored: the public part plus the encrypted password.
#[derive(Debug)]
pub struct UserWithEncryptedPassword {
    pub id: i32,
    pub wallet_address: String,
    pub twitter_id: String,
    pub referral_code: String,
    pub total_points: i32,
    pub finished_tasks: Vec<i32>,
    pub referral_points: i32,
    pub referred_by: Vec<i32>,
    pub referrer_id: Option<i32>,
    pub multiplier: i32,
    pub encrypted_password: String,
}

pub open spec fn view_opt_i32(o: Option<i32>) -> Option<int> {
    match o {
        Some(v) => Some(v as int),
        None => None,
    }
}

pub open spec fn view_seq_i32(s: Seq<i32>) -> Seq<int> {
    s.map_values(|v: i32| v as int)
}

impl View for User {
    type V = UserModel;

    open spec fn view(&self) -> UserModel {
        UserModel {
            id: self.id as int,
            wallet_address: self.wallet_address@,
            twitter_id: self.twitter_id@,
            referral_code: self.referral_code@,
            total_points: self.total_points as int,
            finished_tasks: view_seq_i32(self.finished_tasks@),
            referral_points: self.referral_points as int,
            referred_by: view_seq_i32(self.referred_by@),
            referrer_id: view_opt_i32(self.referrer_id),
            multiplier: self.multiplier as int,
        }
    }
}

impl View for UserWithEncryptedPassword {
    type V = AccountModel;

    open spec fn view(&self) -> AccountModel {
        AccountModel {
            id: self.id as int,
            wallet_address: self.wallet_address@,
            twitter_id: self.twitter_id@,
            referral_code: self.referral_code@,
            total_points: self.total_points as int,
            finished_tasks: view_seq_i32(self.finished_tasks@),
            referral_points: self.referral_points as int,
            referred_by: view_seq_i32(self.referred_by@),
            referrer_id: view_opt_i32(self.referrer_id),
            multiplier: self.multiplier as int,
            encrypted_password: self.encrypted_password@,
        }
    }
}

impl vstd::std_specs::convert::FromSpecImpl<UserWithEncryptedPassword> for User {
    open spec fn obeys_from_spec() -> bool {
        true
    }

    open spec fn from_spec(user: UserWithEncryptedPassword) -> Self {
        User {
            id: user.id,
            wallet_address: user.wallet_address,
            twitter_id: user.twitter_id,
            referral_code: user.referral_code,
            total_points: user.total_points,
            finished_tasks: user.finished_tasks,
            referral_points: user.referral_points,
            referred_by: user.referred_by,
            referrer_id: user.referrer_id,
            multiplier: user.multiplier,
        }
    }
}

impl From<UserWithEncryptedPassword> for User {
    fn from(user: UserWithEncryptedPassword) -> (r: Self) {
        User {
            id: user.id,
            wallet_address: user.wallet_address,
            twitter_id: user.twitter_id,
            referral_code: user.referral_code,
            total_points: user.total_points,
            finished_tasks: user.finished_tasks,
            referral_points: user.referral_points,
            referred_by: user.referred_by,
            referrer_id: user.referrer_id,
            multiplier: user.multiplier,
        }
    }
}

/// Clones a vector of task or user ids, keeping its contents.
fn clone_id_vec(v: &Vec<i32>) -> (r: Vec<i32>)
    ensures
        r@ == v@,
{
    let r = v.clone();
    proof {
        assert(r@ =~= v@);
    }
    r
}

impl Clone for User {
    fn clone(&self) -> (r: Self)
        ensures
            r@ == self@,
    {
        let r = User {
            id: self.id,
            wallet_address: self.wallet_address.clone(),
            twitter_id: self.twitter_id.clone(),
            referral_code: self.referral_code.clone(),
            total_points: self.total_points,
            finished_tasks: clone_id_vec(&self.finished_tasks),
            referral_points: self.referral_points,
            referred_by: clone_id_vec(&self.referred_by),
            referrer_id: self.referrer_id,
            multiplier: self.multiplier,
        };
        proof {
            assert(r@ =~= self@);
        }
        r
    }
}

impl Clone for UserWithEncryptedPassword {
    fn clone(&self) -> (r: Self)
        ensures
            r@ == self@,
    {
        let r = UserWithEncryptedPassword {
            id: self.id,
            wallet_address: self.wallet_address.clone(),
            twitter_id: self.twitter_id.clone(),
            referral_code: self.referral_code.clone(),
            total_points: self.total_points,
            finished_tasks: clone_id_vec(&self.finished_tasks),
            referral_points: self.referral_points,
            referred_by: clone_id_vec(&self.referred_by),
            referrer_id: self.referrer_id,
            multiplier: self.multiplier,
            encrypted_password: self.encrypted_password.clone(),
        };
        proof {
            assert(r@ =~= self@);
        }
        r
    }
}

/// One row of the external reporting projection: the effective score is
/// computed at read time and never persisted.
#[derive(Debug)]
pub struct UserSnapshot {
    pub twitter_id: String,
    pub wallet_address: String,
    pub points: i64,
}

} // verus!
