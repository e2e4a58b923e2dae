//! Signing in with a password: the policy checks that follow a correct
//! password (email confirmation, required two-factor authentication and its
//! grace period), and the second step with a two-factor method.
use vstd::prelude::*;
use crate::error::AppError;
use crate::oauth::opt_str_view;
use crate::text::{join2, owned, str_eq};
use vstd::string::StringSliceAdditionalSpecFns;

verus! {

/// Nanoseconds in a day.
pub const NANOS_PER_DAY: i128 = 86_400_000_000_000;

/// What is known of a user whose password was correct, and the policy in
/// force.
pub struct LoginFacts {
    /// The instance requires confirmed emails.
    pub require_email_confirmation: bool,
    pub email_confirmed: bool,
    /// The instance requires two-factor authentication of everyone.
    pub require_two_factor: bool,
    /// The instance requires two-factor authentication of administrators.
    pub require_two_factor_admin: bool,
    pub is_admin: bool,
    pub two_factor_enabled: bool,
    /// When the policy first applied to the user, in nanoseconds since the
    /// Unix epoch.
    pub two_factor_required_at: Option<i128>,
    /// Days a user may still sign in without two-factor authentication.
    pub grace_period_days: i64,
    /// The time of the attempt, in nanoseconds since the Unix epoch.
    pub now: i128,
    pub totp_enabled: bool,
    pub webauthn_credentials: i64,
}

/// How a sign-in with a correct password goes on.
pub enum LoginStep {
    /// The user is signed in.
    SignedIn {
        /// Record now as the time the policy first applied to the user.
        mark_required: bool,
    },
    /// A second factor is needed, by one of these methods.
    SecondFactor { methods: Vec<&'static str> },
}

/// The policy requires two-factor authentication of the user.
pub open spec fn two_factor_required(f: LoginFacts) -> bool {
    f.require_two_factor || (f.is_admin && f.require_two_factor_admin)
}

/// The grace period ended: the policy applied before it, and its days have
/// passed.
pub open spec fn grace_expired(f: LoginFacts) -> bool {
    match f.two_factor_required_at {
        Some(t) => f.now > t + f.grace_period_days * NANOS_PER_DAY,
        None => false,
    }
}

/// Why a sign-in with a correct password is refused.
pub open spec fn login_denial(f: LoginFacts) -> Option<Seq<char>> {
    if f.require_email_confirmation && !f.email_confirmed {
        Some("Please confirm your email address before logging in"@)
    } else if two_factor_required(f) && !f.two_factor_enabled && grace_expired(f) {
        Some("Two-factor authentication is required. Please contact your administrator."@)
    } else {
        None
    }
}

/// The second-factor methods a user has: TOTP when set up, WebAuthn with a
/// registered credential, recovery codes always.
pub open spec fn methods_of(totp_enabled: bool, webauthn_credentials: i64) -> Seq<Seq<char>> {
    let a = if totp_enabled {
        seq!["totp"@]
    } else {
        Seq::empty()
    };
    let b = if webauthn_credentials > 0 {
        a.push("webauthn"@)
    } else {
        a
    };
    b.push("recovery"@)
}

/// The texts of a list of string slices.
pub open spec fn static_views(v: Seq<&'static str>) -> Seq<Seq<char>> {
    v.map_values(|s: &'static str| s@)
}

/// The grace period can be computed without overflow.
pub open spec fn grace_in_range(f: LoginFacts) -> bool {
    match f.two_factor_required_at {
        Some(t) => i128::MIN <= f.grace_period_days * NANOS_PER_DAY <= i128::MAX && i128::MIN <= t
            + f.grace_period_days * NANOS_PER_DAY <= i128::MAX,
        None => true,
    }
}
/// What a sign-in with a correct password gives: the refusal when there
/// is one; else a second factor, by the user's methods, exactly when the
/// user turned two-factor authentication on; else the user is signed in,
/// and the first time the policy applies to them it is recorded.
pub open spec fn login_step_ok(f: LoginFacts, r: Result<LoginStep, AppError>) -> bool {
    match login_denial(f) {
        Some(m) => r matches Err(AppError::Unauthorized(msg)) && msg@ == m,
        None => match r {
            Ok(LoginStep::SecondFactor { methods }) => f.two_factor_enabled && static_views(methods@)
                == methods_of(f.totp_enabled, f.webauthn_credentials),
            Ok(LoginStep::SignedIn { mark_required }) => !f.two_factor_enabled && mark_required == (
            two_factor_required(f) && f.two_factor_required_at is None),
            Err(_) => false,
        },
    }
}

/// Decides how a sign-in with a correct password goes on.
pub fn login_step(f: &LoginFacts) -> (r: Result<LoginStep, AppError>)
    requires
        grace_in_range(*f),
    ensures
        match login_denial(*f) {
            Some(m) => r matches Err(AppError::Unauthorized(msg)) && msg@ == m,
            None => match r {
                Ok(LoginStep::SecondFactor { methods }) => f.two_factor_enabled && static_views(methods@)
                    == methods_of(f.totp_enabled, f.webauthn_credentials),
                Ok(LoginStep::SignedIn { mark_required }) => !f.two_factor_enabled && mark_required == (
                two_factor_required(*f) && f.two_factor_required_at is None),
                Err(_) => false,
            },
        },
{
    if f.require_email_confirmation && !f.email_confirmed {
        return Err(AppError::unauthorized("Please confirm your email address before logging in"));
    }
    let required = f.require_two_factor || (f.is_admin && f.require_two_factor_admin);
    let mut mark_required = false;
    if required && !f.two_factor_enabled {
        match f.two_factor_required_at {
            None => {
                mark_required = true;
            },
            Some(t) => {
                let end = t + (f.grace_period_days as i128) * NANOS_PER_DAY;
                if f.now > end {
                    return Err(
                        AppError::unauthorized(
                            "Two-factor authentication is required. Please contact your administrator.",
                        ),
                    );
                }
            },
        }
    }
    if f.two_factor_enabled {
        let mut methods: Vec<&'static str> = Vec::new();
        if f.totp_enabled {
            methods.push("totp");
        }
        if f.webauthn_credentials > 0 {
            methods.push("webauthn");
        }
        methods.push("recovery");
        assert(static_views(methods@) =~= methods_of(f.totp_enabled, f.webauthn_credentials));
        return Ok(LoginStep::SecondFactor { methods });
    }
    Ok(LoginStep::SignedIn { mark_required })
}

/// A user who turned on two-factor authentication is never signed in by a
/// password alone.
pub proof fn law_two_factor_users_need_second_factor(f: LoginFacts, r: Result<LoginStep, AppError>)
    requires
        f.two_factor_enabled,
        login_step_ok(f, r),
    ensures
        r matches Ok(step) ==> step is SecondFactor,
{
}

/// Once the grace period is over, a user the policy requires two-factor
/// authentication of, and who has not turned it on, cannot sign in.
pub proof fn law_grace_period_ends_password_logins(f: LoginFacts, r: Result<LoginStep, AppError>)
    requires
        two_factor_required(f),
        !f.two_factor_enabled,
        grace_expired(f),
        login_step_ok(f, r),
    ensures
        r is Err,
{
}

/// Recovery codes are offered to every user who must give a second factor.
pub proof fn law_recovery_always_offered(totp_enabled: bool, webauthn_credentials: i64)
    ensures
        methods_of(totp_enabled, webauthn_credentials).contains("recovery"@),
{
    let m = methods_of(totp_enabled, webauthn_credentials);
    assert(m[m.len() - 1] == "recovery"@);
}

/// A second factor as the user gives it.
pub enum SecondFactor {
    /// A code from an authenticator app.
    Totp(String),
    /// A recovery code.
    Recovery(String),
    /// A WebAuthn response, as sent.
    WebAuthn(String),
}

/// The second factor of a request, or why it is a bad request: the method
/// must be `totp` or `recovery` with a code, or `webauthn` with a response.
pub open spec fn second_factor_of(method: Seq<char>, code: Option<Seq<char>>, webauthn: Option<Seq<char>>) -> Result<
    (int, Seq<char>),
    Seq<char>,
> {
    if method == "totp"@ {
        match code {
            Some(c) => Ok((0, c)),
            None => Err("TOTP code required"@),
        }
    } else if method == "recovery"@ {
        match code {
            Some(c) => Ok((1, c)),
            None => Err("Recovery code required"@),
        }
    } else if method == "webauthn"@ {
        match webauthn {
            Some(w) => Ok((2, w)),
            None => Err("WebAuthn response required"@),
        }
    } else {
        Err("Invalid 2FA method"@)
    }
}

/// The kind and text of a second factor.
pub open spec fn factor_view(f: SecondFactor) -> (int, Seq<char>) {
    match f {
        SecondFactor::Totp(c) => (0, c@),
        SecondFactor::Recovery(c) => (1, c@),
        SecondFactor::WebAuthn(w) => (2, w@),
    }
}

/// Reads the second factor of a verification request.
pub fn second_factor(method: &str, code: Option<&str>, webauthn: Option<&str>) -> (r: Result<SecondFactor, AppError>)
    ensures
        match second_factor_of(method@, opt_str_view(code), opt_str_view(webauthn)) {
            Ok(v) => r matches Ok(f) && factor_view(f) == v,
            Err(m) => r matches Err(AppError::BadRequest(msg)) && msg@ == m,
        },
{
    if str_eq(method, "totp") {
        match code {
            Some(c) => Ok(SecondFactor::Totp(owned(c))),
            None => Err(AppError::bad_request("TOTP code required")),
        }
    } else if str_eq(method, "recovery") {
        match code {
            Some(c) => Ok(SecondFactor::Recovery(owned(c))),
            None => Err(AppError::bad_request("Recovery code required")),
        }
    } else if str_eq(method, "webauthn") {
        match webauthn {
            Some(w) => Ok(SecondFactor::WebAuthn(owned(w))),
            None => Err(AppError::bad_request("WebAuthn response required")),
        }
    } else {
        Err(AppError::bad_request("Invalid 2FA method"))
    }
}

/// The key under which a pending sign-in waits for its second factor.
pub fn two_factor_session_key(temporary_token: &str) -> (r: String)
    ensures
        r@ == "2fa:"@ + temporary_token@,
{
    join2("2fa:", temporary_token)
}

/// The outcome of a checked second factor: a wrong one is unauthorized.
pub fn second_factor_verdict(valid: bool) -> (r: Result<(), AppError>)
    ensures
        r is Ok <==> valid,
        r matches Err(e) ==> e matches AppError::Unauthorized(m) && m@ == "Invalid 2FA code"@,
{
    if valid {
        Ok(())
    } else {
        Err(AppError::unauthorized("Invalid 2FA code"))
    }
}

// ---------------------------------------------------------------------------
// Passwords
// ---------------------------------------------------------------------------

/// What `bcrypt::verify` gives for a password and a stored hash: whether
/// the password hashes to it under its salt and cost, or the text of the
/// error for a hash it cannot read.
pub uninterp spec fn bcrypt_verdict(password: Seq<char>, hash: Seq<char>) -> Result<bool, Seq<char>>;

/// Checks a password against a stored bcrypt hash (`bcrypt::verify`). The
/// outcome is named: the crate parses the hash and hashes the password with
/// its salt and cost.
#[verifier::external_body]
pub(crate) fn bcrypt_verify(password: &str, hash: &str) -> (r: Result<bool, String>)
    ensures
        match r {
            Ok(b) => bcrypt_verdict(password@, hash@) == Ok::<bool, Seq<char>>(b),
            Err(m) => bcrypt_verdict(password@, hash@) == Err::<bool, Seq<char>>(m@),
        },
{
    match bcrypt::verify(password, hash) {
        Ok(b) => Ok(b),
        Err(e) => Err(e.to_string()),
    }
}

/// Whether a password matches a stored hash; a hash that cannot be read
/// matches nothing.
pub open spec fn password_matches(password: Seq<char>, hash: Seq<char>) -> bool {
    bcrypt_verdict(password, hash) == Ok::<bool, Seq<char>>(true)
}

/// Whether a password matches a stored hash.
pub fn password_accepted(password: &str, hash: &str) -> (r: bool)
    ensures
        r == password_matches(password@, hash@),
{
    match bcrypt_verify(password, hash) {
        Ok(b) => b,
        Err(_) => false,
    }
}

/// Checks the password of a sign-in: a wrong password is unauthorized, a
/// hash that cannot be read an internal error.
pub fn check_password(password: &str, hash: &str) -> (r: Result<(), AppError>)
    ensures
        match bcrypt_verdict(password@, hash@) {
            Ok(true) => r is Ok,
            Ok(false) => r matches Err(AppError::Unauthorized(m)) && m@ == "Invalid credentials"@,
            Err(e) => r matches Err(AppError::InternalError(m)) && m@ == "Password verification failed: "@ + e,
        },
{
    match bcrypt_verify(password, hash) {
        Ok(true) => Ok(()),
        Ok(false) => Err(AppError::unauthorized("Invalid credentials")),
        Err(e) => Err(AppError::InternalError(join2("Password verification failed: ", e.as_str()))),
    }
}

/// Checks the length of a new password: at least 8 bytes.
pub fn check_new_password(password: &str) -> (r: Result<(), AppError>)
    ensures
        password.spec_bytes().len() >= 8 ==> r is Ok,
        password.spec_bytes().len() < 8 ==> (r matches Err(AppError::BadRequest(m))
            && m@ == "Password must be at least 8 characters"@),
{
    if password.as_bytes().len() < 8 {
        Err(AppError::bad_request("Password must be at least 8 characters"))
    } else {
        Ok(())
    }
}

/// How the password step of a sign-in refuses: `Some((false, m))` is an
/// unauthorized error, `Some((true, m))` an internal one. The stored hash
/// is `None` when no active user has the name.
pub open spec fn password_step_refusal(hash: Option<Seq<char>>, password: Seq<char>) -> Option<(bool, Seq<char>)> {
    match hash {
        None => Some((false, "Invalid credentials"@)),
        Some(h) => match bcrypt_verdict(password, h) {
            Ok(true) => None,
            Ok(false) => Some((false, "Invalid credentials"@)),
            Err(e) => Some((true, "Password verification failed: "@ + e)),
        },
    }
}

/// The password step of a sign-in, from the stored hash of the active user
/// with the name given (if any) and the password given.
pub fn check_sign_in(hash: Option<&str>, password: &str) -> (r: Result<(), AppError>)
    ensures
        match password_step_refusal(opt_str_view(hash), password@) {
            None => r is Ok,
            Some((false, m)) => r matches Err(AppError::Unauthorized(msg)) && msg@ == m,
            Some((true, m)) => r matches Err(AppError::InternalError(msg)) && msg@ == m,
        },
{
    match hash {
        None => Err(AppError::unauthorized("Invalid credentials")),
        Some(h) => check_password(password, h),
    }
}

/// A sign-in does not tell whether a user name exists: an unknown user gets
/// the same answer as a known one with a wrong password.
pub proof fn law_unknown_user_answers_like_wrong_password(password: Seq<char>, hash: Seq<char>)
    requires
        bcrypt_verdict(password, hash) == Ok::<bool, Seq<char>>(false),
    ensures
        password_step_refusal(None, password) == password_step_refusal(Some(hash), password),
{
}

// ---------------------------------------------------------------------------
// The second-factor step
// ---------------------------------------------------------------------------

/// What the server keeps of a pending second-factor step.
pub struct TwoFactorState {
    /// The user the temporary token stands for, while the token is valid.
    pub pending_user: Option<i64>,
    /// The failed attempts recorded for the user.
    pub failures: u64,
}

/// How a second-factor attempt ends, as the contracts see it.
pub enum TwoFactorAnswer {
    /// Signed in as this user.
    SignedIn(int),
    /// "Invalid or expired 2FA token": no pending step for the token.
    NoSession,
    /// The account is locked after too many failures.
    Locked,
    /// The request named no usable method; answered with that error.
    BadMethod,
    /// "Invalid 2FA code".
    Rejected,
}

/// A second-factor attempt: with no pending step it is refused; a locked
/// account is refused; a bad method is answered with its error; a rejected
/// factor counts one more failure and keeps the step; an accepted one
/// signs the user in, clears the failures and ends the step.
/// `factor` is `None` for a bad method, else whether the factor checked.
pub open spec fn two_factor_outcome(st: TwoFactorState, locked: bool, factor: Option<bool>) -> (TwoFactorAnswer, TwoFactorState) {
    match st.pending_user {
        None => (TwoFactorAnswer::NoSession, st),
        Some(u) => if locked {
            (TwoFactorAnswer::Locked, st)
        } else {
            match factor {
                None => (TwoFactorAnswer::BadMethod, st),
                Some(false) => (TwoFactorAnswer::Rejected, TwoFactorState { failures: (st.failures + 1) as u64, ..st }),
                Some(true) => (TwoFactorAnswer::SignedIn(u as int), TwoFactorState { pending_user: None, failures: 0 }),
            }
        },
    }
}

/// The message of a locked account.
pub open spec fn locked_message() -> Seq<char> {
    "Account temporarily locked due to too many failed 2FA attempts. Please try again in 30 minutes."@
}

/// Takes a second-factor attempt: whether the account is locked, and the
/// factor's check (an error for a bad method, else whether it holds).
pub fn two_factor_step(st: &mut TwoFactorState, locked: bool, factor: Result<bool, AppError>) -> (r: Result<i64, AppError>)
    requires
        old(st).failures < u64::MAX,
    ensures
        ({
            let o = two_factor_outcome(*old(st), locked, match factor {
                Ok(b) => Some(b),
                Err(_) => None,
            });
            &&& *final(st) == o.1
            &&& match o.0 {
                TwoFactorAnswer::SignedIn(u) => r matches Ok(id) && id == u,
                TwoFactorAnswer::NoSession => r matches Err(AppError::Unauthorized(m)) && m@ == "Invalid or expired 2FA token"@,
                TwoFactorAnswer::Locked => r matches Err(AppError::TooManyRequests(m)) && m@ == locked_message(),
                TwoFactorAnswer::BadMethod => factor matches Err(e) && r == Err::<i64, AppError>(e),
                TwoFactorAnswer::Rejected => r matches Err(AppError::Unauthorized(m)) && m@ == "Invalid 2FA code"@,
            }
        }),
{
    let u = match st.pending_user {
        None => {
            return Err(AppError::unauthorized("Invalid or expired 2FA token"));
        },
        Some(u) => u,
    };
    if locked {
        return Err(AppError::TooManyRequests(owned(
            "Account temporarily locked due to too many failed 2FA attempts. Please try again in 30 minutes.",
        )));
    }
    match factor {
        Err(e) => Err(e),
        Ok(false) => {
            st.failures = st.failures + 1;
            Err(AppError::unauthorized("Invalid 2FA code"))
        },
        Ok(true) => {
            st.pending_user = None;
            st.failures = 0;
            Ok(u)
        },
    }
}

/// A temporary token signs in once: after an accepted second factor, any
/// later attempt with it is refused as an invalid or expired token; a
/// rejected factor counts one failure and keeps the step open.
pub proof fn law_two_factor_token_used_once(st: TwoFactorState, locked: bool, later_locked: bool, later: Option<bool>)
    ensures
        two_factor_outcome(st, locked, Some(true)).0 is SignedIn ==> two_factor_outcome(
            two_factor_outcome(st, locked, Some(true)).1,
            later_locked,
            later,
        ).0 is NoSession,
        two_factor_outcome(st, locked, Some(false)).0 is Rejected ==> two_factor_outcome(st, locked, Some(false)).1
            == (TwoFactorState { failures: (st.failures + 1) as u64, ..st }),
{
}

} // verus!
