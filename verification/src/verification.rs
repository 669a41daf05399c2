//! Email verification codes.

use vstd::prelude::*;
use crate::ids::{fresh_uuid, now_unix_timestamp};
use crate::textfmt::{digit_char, push_char, spec_digit};

verus! {

/// Seconds a verification code stays valid.
pub const VERIFICATION_LIFETIME_SECS: i64 = 900;

/// What a verification code proves.
#[derive(Debug, Clone, Copy)]
pub enum VerificationType {
    Registration,
    PasswordReset,
    EmailChange,
}

/// Relies on `rand::random::<u32>`: a random number. Nothing can be
/// promised of its value.
#[verifier::external_body]
fn random_u32() -> (r: u32) {
    rand::random::<u32>()
}

/// Whether `c` is a decimal digit.
pub open spec fn is_decimal_digit(c: char) -> bool {
    exists|d: int| 0 <= d < 10 && c == spec_digit(d)
}

/// The six decimal digits of `n`, most significant first, zero-padded.
pub open spec fn spec_six_digits(n: int) -> Seq<char> {
    seq![
        spec_digit(n / 100000 % 10),
        spec_digit(n / 10000 % 10),
        spec_digit(n / 1000 % 10),
        spec_digit(n / 100 % 10),
        spec_digit(n / 10 % 10),
        spec_digit(n % 10),
    ]
}

/// Renders `n` as exactly six zero-padded decimal digits.
fn six_digit_code(n: u32) -> (r: String)
    requires
        n < 1000000,
    ensures
        r@ == spec_six_digits(n as int),
{
    let mut r = String::new();
    let v = n as u64;
    push_char(&mut r, digit_char(v / 100000 % 10));
    push_char(&mut r, digit_char(v / 10000 % 10));
    push_char(&mut r, digit_char(v / 1000 % 10));
    push_char(&mut r, digit_char(v / 100 % 10));
    push_char(&mut r, digit_char(v / 10 % 10));
    push_char(&mut r, digit_char(v % 10));
    proof {
        assert(r@ =~= spec_six_digits(n as int));
    }
    r
}

/// A pending email verification.
#[derive(Debug, Clone)]
pub struct EmailVerification {
    pub id: String,
    pub email: String,
    pub code: String,
    pub verification_type: VerificationType,
    pub expires_at: i64,
    pub used: bool,
    pub created_at: i64,
}

impl EmailVerification {
    /// A fresh verification with a random six-digit code, valid for fifteen
    /// minutes (clamped at the largest representable timestamp).
    pub fn new(email: String, verification_type: VerificationType) -> (r: EmailVerification)
        ensures
            r.email == email,
            r.verification_type == verification_type,
            r.used == false,
            r.code@.len() == 6,
            forall|i: int| 0 <= i < 6 ==> is_decimal_digit(#[trigger] r.code@[i]),
            r.expires_at == if r.created_at + VERIFICATION_LIFETIME_SECS <= i64::MAX {
                r.created_at + VERIFICATION_LIFETIME_SECS
            } else {
                i64::MAX as int
            },
            r.id@.len() == 36,
    {
        let now = now_unix_timestamp();
        let n = random_u32() % 1000000;
        let code = six_digit_code(n);
        proof {
            assert forall|i: int| 0 <= i < 6 implies is_decimal_digit(#[trigger] code@[i]) by {
                let v = n as int;
                if i == 0 {
                    assert(code@[i] == spec_digit(v / 100000 % 10));
                } else if i == 1 {
                    assert(code@[i] == spec_digit(v / 10000 % 10));
                } else if i == 2 {
                    assert(code@[i] == spec_digit(v / 1000 % 10));
                } else if i == 3 {
                    assert(code@[i] == spec_digit(v / 100 % 10));
                } else if i == 4 {
                    assert(code@[i] == spec_digit(v / 10 % 10));
                } else {
                    assert(code@[i] == spec_digit(v % 10));
                }
            }
        }
        let expires_at = if now <= i64::MAX - VERIFICATION_LIFETIME_SECS {
            now + VERIFICATION_LIFETIME_SECS
        } else {
            i64::MAX
        };
        EmailVerification {
            id: fresh_uuid(),
            email,
            code,
            verification_type,
            expires_at,
            used: false,
            created_at: now,
        }
    }

    /// Whether the code is still usable at time `now`.
    pub fn is_valid_at(&self, now: i64) -> (r: bool)
        ensures
            r == (!self.used && now < self.expires_at),
    {
        !self.used && now < self.expires_at
    }

    /// Whether the code is still usable right now, against the wall clock.
    /// The clock's value cannot be pinned down, so only the time-independent
    /// part is stated; `is_valid_at` carries the exact contract.
    pub fn is_valid(&self) -> (r: bool)
        ensures
            self.used ==> !r,
    {
        let now = now_unix_timestamp();
        self.is_valid_at(now)
    }
}

} // verus!
