//! Verified core of an authentication service: credential and token rules,
//! multi-factor enrolment and verification, account access policy and
//! notification dispatch decisions.
pub mod decimal;

pub mod text;
pub mod claims;
pub mod scopes;
pub mod error;
pub mod password;
pub mod mfa_crypto;
pub mod totp;
pub mod recovery;
pub mod jwt;
pub mod dto;
pub mod mfa;
pub mod session;
pub mod account;
pub mod notification;
pub mod cookie;
pub mod flow;
