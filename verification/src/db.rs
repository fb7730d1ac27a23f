pub mod connect;
pub mod laws;
pub mod model;
pub mod store;
pub mod tasks;
pub mod users;

pub use connect::Error;
pub use model::{LoginError, StoreError};
pub use store::Database;
pub use tasks::{_create_task, _delete_task, _get_points_for_task, _get_tasks, _put_task};
pub use users::{
    _bind_wallet_address, _create_user, _delete_user_by_twitter_id, _finish_task, _get_user_by_id,
    _get_user_by_referral_code, _get_user_by_twitter_id, _get_user_by_wallet_address, _get_users,
    _save_last_created_user_id, _set_user_multiplier, get_last_created_user_id, get_snapshot,
    login_user,
};
