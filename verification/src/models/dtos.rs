use vstd::prelude::*;

verus! {

/// Registration request: handle, wallet, password, and the referral code of
/// the referring user, if any was supplied.
#[derive(Debug)]
pub struct CreateUserDTO {
    pub twitter_id: String,
    pub solana_adr: String,
    pub password: String,
    pub reffer_code: Option<String>,
}

/// Binds a wallet address to the user owning the handle, last write wins.
#[derive(Debug)]
pub struct BindWalletAddressDTO {
    pub twitter_id: String,
    pub wallet_address: String,
}

/// Login request; the wallet must match the one stored for the handle.
#[derive(Debug)]
pub struct LoginUserDTO {
    pub twitter_id: String,
    pub solana_adr: String,
    pub password: String,
}

/// Identity carried by a session token, re-checked against the stored row.
#[derive(Debug)]
pub struct ValidateJwtDTO {
    pub username: String,
    pub solana_adr: String,
}

/// A new task catalog entry.
#[derive(Debug)]
pub struct CreateTaskDTO {
    pub description: String,
    pub points: i32,
    pub task_button_text: String,
    pub link: Option<String>,
}

/// Marks a task finished for the user owning the wallet.
#[derive(Debug)]
pub struct FinishTaskDTO {
    pub task_id: i32,
    pub wallet: String,
}

/// Removes a task from the catalog.
#[derive(Debug)]
pub struct DeleteTaskDTO {
    pub task_id: i32,
}

/// Partial update of a task: absent fields keep the stored value.
#[derive(Debug)]
pub struct PutTaskDTO {
    pub task_id: i32,
    pub description: Option<String>,
    pub points: Option<i32>,
    pub link: Option<String>,
    pub task_button_text: Option<String>,
}

/// Overwrites the snapshot multiplier of the user owning the handle.
#[derive(Debug)]
pub struct SetMultiplierDTO {
    pub twitter_id: String,
    pub multiplier: i32,
}

} // verus!
