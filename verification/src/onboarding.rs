//! Onboarding a customer: the checks on the request, the service period,
//! the links handed to the customer, and the administrator's bearer token.
use vstd::prelude::*;

use crate::control_plane::AllocationError;
use crate::enrollment::{DispatchLoginResult, EnrollmentError};
use crate::http_status;
use crate::public_portal::PublicPortalError;
use crate::text::{has_text, has_text_seq, starts_with_seq, str_eq, strip_prefix};
use crate::time::{instant_ok, MS_PER_DAY};

verus! {

#[derive(Debug, Clone, PartialEq, Eq)]
pub enum OnboardingError {
    Database(String),
    Enrollment(EnrollmentError),
    Portal(PublicPortalError),
    UnknownPlan,
    InvalidServiceDays,
    InvalidLoginTtl,
    NoCapacity,
}

#[derive(Debug, Clone)]
pub struct OnboardCustomerRequest {
    pub customer_id: i64,
    pub plan_code: String,
    pub service_days: i32,
    pub login_ttl_minutes: i32,
}

#[derive(Debug, Clone)]
pub struct OnboardCustomerResult {
    pub subscription_no: String,
    pub login_url: String,
    pub service_url: String,
    pub login_dispatch_status: String,
}

/// The bearer token that administration requests must carry; without one
/// the administration is closed.
#[derive(Debug, Clone)]
pub struct AdminAuthConfig {
    pub token: Option<String>,
}

#[derive(Debug, Clone)]
pub struct AdminOnboardRequest {
    pub customer_id: i64,
    pub plan_code: String,
    pub service_days: i32,
    pub login_ttl_minutes: i32,
}

/// An active foster plan.
#[derive(Debug, Clone)]
pub struct OnboardingPlanRow {
    pub id: i64,
    pub plan_code: String,
    pub plan_name: String,
    pub daily_target_runs: i32,
    pub interval_minutes: i32,
    pub resource_mode: String,
    pub resource_type: Option<String>,
    pub status: String,
}

/// The longest time a login link stays valid, in minutes.
pub const MAX_LOGIN_TTL_MINUTES: i32 = 1440;

/// The login dispatch status of a fresh onboarding: the customer still has
/// to enter the login target.
pub const AWAITING_USER_INPUT: &'static str = "AWAITING_USER_INPUT";

/// The first error of an onboarding request: a service of no days, or a
/// login time to live outside 1 to 1440 minutes.
pub fn check_onboard_request(request: &OnboardCustomerRequest) -> (r: Result<(), OnboardingError>)
    ensures
        request.service_days <= 0 ==> r == Err::<(), OnboardingError>(
            OnboardingError::InvalidServiceDays,
        ),
        request.service_days > 0 && !(1 <= request.login_ttl_minutes <= MAX_LOGIN_TTL_MINUTES)
            ==> r == Err::<(), OnboardingError>(OnboardingError::InvalidLoginTtl),
        request.service_days > 0 && 1 <= request.login_ttl_minutes <= MAX_LOGIN_TTL_MINUTES ==> r
            is Ok,
{
    if request.service_days <= 0 {
        return Err(OnboardingError::InvalidServiceDays);
    }
    if !(1 <= request.login_ttl_minutes && request.login_ttl_minutes <= MAX_LOGIN_TTL_MINUTES) {
        return Err(OnboardingError::InvalidLoginTtl);
    }
    Ok(())
}

/// When a service that starts at `now_ms` and lasts `service_days` ends.
pub fn service_end_at(now_ms: i64, service_days: i32) -> (r: i64)
    requires
        instant_ok(now_ms as int),
        instant_ok(now_ms + service_days * MS_PER_DAY),
    ensures
        r == now_ms + service_days * MS_PER_DAY,
{
    now_ms + (service_days as i64) * MS_PER_DAY
}

/// The login link's time to live, in seconds.
pub fn login_ttl_secs(login_ttl_minutes: i32) -> (r: u64)
    requires
        1 <= login_ttl_minutes <= MAX_LOGIN_TTL_MINUTES,
    ensures
        r == login_ttl_minutes * 60,
{
    (login_ttl_minutes as u64) * 60
}

/// The onboarding error for a failed login session: no emulator capacity
/// is its own error, everything else is passed on.
pub fn map_enrollment_error(error: EnrollmentError) -> (r: OnboardingError)
    ensures
        error == EnrollmentError::Allocation(AllocationError::NoCapacity) ==> r
            == OnboardingError::NoCapacity,
        error != EnrollmentError::Allocation(AllocationError::NoCapacity) ==> r
            == OnboardingError::Enrollment(error),
{
    match error {
        EnrollmentError::Allocation(AllocationError::NoCapacity) => OnboardingError::NoCapacity,
        other => OnboardingError::Enrollment(other),
    }
}

pub open spec fn dispatch_status_name_of(status: DispatchLoginResult) -> Seq<char> {
    match status {
        DispatchLoginResult::Dispatched => "DISPATCHED"@,
        DispatchLoginResult::WaitingEmulator => "WAITING_EMULATOR"@,
        DispatchLoginResult::AlreadyDispatched => "ALREADY_DISPATCHED"@,
    }
}

pub fn dispatch_status_name(status: DispatchLoginResult) -> (r: &'static str)
    ensures
        r@ == dispatch_status_name_of(status),
{
    match status {
        DispatchLoginResult::Dispatched => "DISPATCHED",
        DispatchLoginResult::WaitingEmulator => "WAITING_EMULATOR",
        DispatchLoginResult::AlreadyDispatched => "ALREADY_DISPATCHED",
    }
}

/// A link to a page with its public token in the path and its control
/// token in the fragment: `{page}{public}#control={control}`.
pub open spec fn page_link(page: Seq<char>, public_token: Seq<char>, control_token: Seq<char>) -> Seq<
    char,
> {
    page + public_token + "#control="@ + control_token
}

fn link(page: &str, public_token: &str, control_token: &str) -> (r: String)
    ensures
        r@ == page_link(page@, public_token@, control_token@),
{
    let mut r = String::from_str(page);
    r.append(public_token);
    r.append("#control=");
    r.append(control_token);
    r
}

/// What an onboarding hands back: the subscription number, the login link
/// and the service link, and that the login waits for the customer.
pub fn onboarding_result(
    subscription_no: &str,
    login_public_token: &str,
    login_control_token: &str,
    share_public_token: &str,
    share_control_token: &str,
) -> (r: OnboardCustomerResult)
    ensures
        r.subscription_no@ == subscription_no@,
        r.login_url@ == page_link("/login/"@, login_public_token@, login_control_token@),
        r.service_url@ == page_link("/service/"@, share_public_token@, share_control_token@),
        r.login_dispatch_status@ == AWAITING_USER_INPUT@,
{
    OnboardCustomerResult {
        subscription_no: subscription_no.to_owned(),
        login_url: link("/login/", login_public_token, login_control_token),
        service_url: link("/service/", share_public_token, share_control_token),
        login_dispatch_status: AWAITING_USER_INPUT.to_owned(),
    }
}

/// The decision on an administration request: with no configured token the
/// administration is unavailable (503); else the `Authorization` header must
/// be `Bearer ` followed by exactly the token (else 401).
pub open spec fn admin_auth_of(token: Option<Seq<char>>, authorization: Option<Seq<char>>) -> Option<
    u16,
> {
    match token {
        Some(t) if t.len() > 0 => match authorization {
            Some(h) => if starts_with_seq(h, "Bearer "@) && h.subrange(7, h.len() as int) == t {
                None
            } else {
                Some(http_status::UNAUTHORIZED)
            },
            None => Some(http_status::UNAUTHORIZED),
        },
        _ => Some(http_status::SERVICE_UNAVAILABLE),
    }
}

/// Checks an administration request's `Authorization` header (`None` when
/// the header is missing or not valid text).
pub fn authorize_admin(config: &AdminAuthConfig, authorization: Option<&str>) -> (r: Result<(), u16>)
    ensures
        match admin_auth_of(
            config.token.deep_view(),
            match authorization {
                Some(h) => Some(h@),
                None => None,
            },
        ) {
            Some(code) => r == Err::<(), u16>(code),
            None => r is Ok,
        },
{
    let expected = match &config.token {
        Some(t) => if t.as_str().unicode_len() > 0 {
            t
        } else {
            return Err(http_status::SERVICE_UNAVAILABLE);
        },
        None => {
            return Err(http_status::SERVICE_UNAVAILABLE);
        },
    };
    let header = match authorization {
        Some(h) => h,
        None => {
            return Err(http_status::UNAUTHORIZED);
        },
    };
    proof {
        reveal_strlit("Bearer ");
    }
    match strip_prefix(header, "Bearer ") {
        Some(actual) => if str_eq(actual, expected.as_str()) {
            Ok(())
        } else {
            Err(http_status::UNAUTHORIZED)
        },
        None => Err(http_status::UNAUTHORIZED),
    }
}

/// The HTTP status that answers an onboarding error.
pub open spec fn onboarding_status_of(error: OnboardingError) -> u16 {
    match error {
        OnboardingError::UnknownPlan
        | OnboardingError::InvalidServiceDays
        | OnboardingError::InvalidLoginTtl => http_status::BAD_REQUEST,
        OnboardingError::NoCapacity => http_status::CONFLICT,
        OnboardingError::Enrollment(e) => crate::enrollment::activation_status_of(e),
        OnboardingError::Portal(_) | OnboardingError::Database(_) =>
            http_status::INTERNAL_SERVER_ERROR,
    }
}

pub fn onboarding_status_code(error: &OnboardingError) -> (r: u16)
    ensures
        r == onboarding_status_of(*error),
{
    match error {
        OnboardingError::UnknownPlan
        | OnboardingError::InvalidServiceDays
        | OnboardingError::InvalidLoginTtl => http_status::BAD_REQUEST,
        OnboardingError::NoCapacity => http_status::CONFLICT,
        OnboardingError::Enrollment(e) => crate::enrollment::activation_status(e),
        OnboardingError::Portal(_) | OnboardingError::Database(_) =>
            http_status::INTERNAL_SERVER_ERROR,
    }
}

} // verus!
