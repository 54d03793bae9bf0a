//! Account management and the authentication token lifecycle: credential
//! checks, access/refresh token issuance, session rotation and delegated
//! removal of accounts.

pub mod credentials;
pub mod directory;
pub mod error;
pub mod identifier;
pub mod removal;
pub mod session;
pub mod token;
pub mod user;

pub use credentials::{hash_password, register_user, stored_record, verify_password};
pub use directory::{finish_register, finish_update, update_user, ProfilePatch};
pub use error::{AuthError, ErrorClass, StoreError};
pub use identifier::parse_user_id;
pub use removal::{
    relay_removal, remove_user, RemovalAction, RemovalDelegate, RemovalEvent, RemovalPhase,
    RemovalReply, RemovalRequest, RemovedAccount,
};
pub use session::{finish_login, finish_refresh, issue_session, login_user, refresh_user, Session};
pub use token::{generate_jwt, generate_refresh_token, SigningKeys};
pub use user::{get_users, Role, UpdateUser, User, UserLogin, UserSummary};
