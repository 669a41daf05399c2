//! Account endpoint payloads.

use vstd::prelude::*;
use crate::user::User;

verus! {

/// Request to create an account.
pub struct RegisterPayload {
    pub email: String,
    pub password: String,
    pub invite_code: Option<String>,
}

/// Request to sign in.
pub struct LoginPayload {
    pub email: String,
    pub password: String,
}

/// A signed-in account with its bearer token.
pub struct AuthResponse {
    pub token: String,
    pub user: User,
}

/// A fresh token pair.
pub struct TokenResponse {
    pub access_token: String,
    pub refresh_token: String,
}

/// Request to exchange a refresh token.
pub struct RefreshTokenPayload {
    pub refresh_token: String,
}

/// The access token a refresh produced.
pub struct RefreshTokenResponse {
    pub access_token: String,
}

/// Request to confirm an email verification code.
pub struct VerifyEmailPayload {
    pub id: String,
    pub code: String,
}

/// Outcome of an email verification.
pub struct VerifyEmailResponse {
    pub success: bool,
    pub message: String,
}

/// Outcome of a registration.
pub struct RegisterResponse {
    pub success: bool,
    pub message: String,
}

} // verus!
