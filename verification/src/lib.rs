//! Ribbon: the decision core of a Discord bot that syncs member roles with
//! Roblox group memberships.
pub mod commands;
pub mod id_index;
pub mod error_model;
pub mod interaction;
pub mod member_link;
pub mod membership;
pub mod messages;
pub mod models;
pub mod roles;
pub mod session;
pub mod sync;
pub mod text;
