//! Roles and permissions of a wiki platform: permission strings, the role
//! model, virtual roles and the decision whether a user may act.
pub mod text;
pub mod types;
pub mod permissions;
pub mod middleware;
pub mod resolvers;
pub mod role;
pub mod user_roles;
pub mod permission;
pub mod store;
