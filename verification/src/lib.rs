//! Verification of bearer tokens and authorization by organization membership.
//!
//! A request presents a signed token. [`token::verify`] checks its framing, its
//! signature against a [`keys::SigningKeySet`] and its claims; the claims become an
//! [`identity::IdentityContext`], and [`authorizer::authorize`] decides whether that
//! identity may act within an organization.

pub mod text;
pub mod json;
pub mod claims;
pub mod identity;
pub mod authorizer;
pub mod keys;
pub mod cache;
pub mod token;
pub mod refresh;
pub mod middleware;
