//! The authentication and session core of a web application: slow and fast
//! hashing of secrets, random tokens that collide with none in use,
//! sessions that begin, are renewed and end, emailed one-time challenges,
//! the resolver that turns a session cookie into an authentication state,
//! and the guard against cross-site requests.
//!
//! The tables of users, sessions and challenges are kept in memory and
//! stand for the storage that an application brings; time is a number of
//! seconds since the epoch, handed in by the caller; mail goes out through
//! the `AppMailer` trait, which the application implements.

pub mod challenge;
pub mod compose;
pub mod config;
pub mod hashing;
pub mod login;
pub mod mail;
pub mod maybe_auth;
pub mod middleware;
pub mod periodic_jobs;
pub mod register;
pub mod result;
pub mod routes;
pub mod session;
pub mod session_laws;
pub mod state;
pub mod table;
pub mod text;
pub mod token;
pub mod token_action;
pub mod user;
