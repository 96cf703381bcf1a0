//! Verified core of the KBR API: roles and permissions, token handling and
//! request authentication, error classification, account rules, request
//! policies and the order of each request's checks, uploads, inventory
//! counts, row grouping, migration bookkeeping
//! and the deploy hook's decisions.

pub mod auth;
pub mod text;
pub mod error;
pub mod db;
pub mod deploy;
pub mod cors;
pub mod storage;
pub mod constants;
pub mod policy;
pub mod inventory;
pub mod accounts;
pub mod records;
pub mod grouping;
pub mod requests;
