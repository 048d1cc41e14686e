//! Access control for a task and vehicle management service: bearer-token
//! authentication, role and ownership authorization, and the resource services
//! that apply those checks before touching their collections.

pub mod role;
pub mod ids;
pub mod error;
pub mod text;
pub mod policy;
pub mod token;
pub mod auth;
pub mod dates;
pub mod search;
pub mod tasks;
pub mod task_service;
pub mod password;
pub mod users;
pub mod user_service;
pub mod vehicles;
pub mod forms;
