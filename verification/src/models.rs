pub mod dtos;
pub mod tasks;
pub mod users;

pub use dtos::{
    BindWalletAddressDTO, CreateTaskDTO, CreateUserDTO, DeleteTaskDTO, FinishTaskDTO, LoginUserDTO,
    PutTaskDTO, SetMultiplierDTO, ValidateJwtDTO,
};
pub use tasks::{Task, TaskPoints};
pub use users::{User, UserSnapshot, UserWithEncryptedPassword};
