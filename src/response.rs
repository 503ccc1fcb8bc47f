//! Records that the service returns, and the error vocabulary that every
//! endpoint shares.
use vstd::prelude::*;

use crate::request::{AdminshipKind, CourseMembershipKind, EncounterKind, SubscriptionKind};
use either::Either;

verus! {

/// The one error vocabulary of the service, shared by every endpoint. `Success` is
/// the sentinel that reports success; every other variant names a failure.
#[derive(Clone, Copy, Debug, PartialEq, Eq, Structural, Hash)]
pub enum InnexgoHoursError {
    Success,
    NotFound,
    DecodeError,
    MethodNotAllowed,
    NoCapability,
    ApiKeyUnauthorized,
    PasswordIncorrect,
    PasswordInsecure,
    PasswordCannotCreateForOthers,
    UserNonexistent,
    ApiKeyNonexistent,
    UserExistent,
    UserNameEmpty,
    UserEmailEmpty,
    UserEmailInvalidated,
    UserKindInvalid,
    SubscriptionNonexistent,
    SubscriptionExpired,
    SubscriptionUnauthorized,
    SubscriptionLimited,
    SchoolNonexistent,
    SchoolArchived,
    SchoolKeyNonexistent,
    SchoolKeyExpired,
    SchoolKeyUsed,
    SchoolDurationNonexistent,
    SchoolDurationDayInvalid,
    SchoolDurationMinuteInvalid,
    SchoolDurationDataNonexistent,
    AdminshipCannotLeaveEmpty,
    SessionRequestNonexistent,
    SessionRequestResponseExistent,
    SessionRequestResponseCannotCancelStudent,
    SessionNotRelevant,
    SessionNonexistent,
    CommittmentExistent,
    CommittmentNonexistent,
    CommittmentCannotCreateForOthersStudent,
    CommittmentCannotCreateHiddenStudent,
    CommittmentCannotCreateUncancellableStudent,
    CourseNonexistent,
    CourseArchived,
    CourseKeyNonexistent,
    CourseKeyExpired,
    CourseKeyUsed,
    CourseMembershipNonexistent,
    CourseMembershipCannotLeaveEmpty,
    LocationNonexistent,
    NegativeDuration,
    CannotAlterPast,
    VerificationChallengeNonexistent,
    VerificationChallengeTimedOut,
    PasswordResetNonexistent,
    PasswordExistent,
    PasswordResetTimedOut,
    EmailRatelimit,
    EmailBlacklisted,
    Unknown,
    InternalServerError,
    AuthInternalServerError,
    AuthBadRequest,
    AuthNetworkError,
    AuthOther,
    Network,
}

impl InnexgoHoursError {
    /// Whether this value reports a failure: true of every variant but `Success`.
    pub fn is_error(&self) -> (r: bool)
        ensures
            r == !(*self is Success),
    {
        !matches!(self, InnexgoHoursError::Success)
    }
}

#[verifier::external_type_specification]
#[verifier::external_body]
#[verifier::reject_recursive_types(L)]
#[verifier::reject_recursive_types(R)]
pub struct ExEither<L, R>(Either<L, R>);

/// Relies on `Either`'s `Clone`, which clones the side that is present; the
/// copy is only carried, so nothing is claimed of it.
pub assume_specification<L: Clone, R: Clone>[ <Either<L, R> as Clone>::clone ](
    e: &Either<L, R>,
) -> Either<L, R>;

/// A school record as the service returns it.
#[derive(Clone, Debug, PartialEq, Eq)]
pub struct School {
    pub school_id: i64,
    pub creator_user_id: i64,
    pub creation_time: i64,
    pub whole: bool,
}

/// A school data record as the service returns it.
#[derive(Clone, Debug, PartialEq, Eq)]
pub struct SchoolData {
    pub school_data_id: i64,
    pub creator_user_id: i64,
    pub creation_time: i64,
    pub school: School,
    pub name: String,
    pub description: String,
    pub active: bool,
}

/// A subscription record as the service returns it.
#[derive(Clone, Debug, PartialEq, Eq)]
pub struct Subscription {
    pub subscription_id: i64,
    pub creation_time: i64,
    pub creator_user_id: i64,
    pub subscription_kind: SubscriptionKind,
    pub max_uses: i64,
}

/// A school duration record as the service returns it.
#[derive(Clone, Debug, PartialEq, Eq)]
pub struct SchoolDuration {
    pub school_duration_id: i64,
    pub creation_time: i64,
    pub creator_user_id: i64,
    pub school: School,
}

/// A school duration data record as the service returns it.
#[derive(Clone, Debug, PartialEq, Eq)]
pub struct SchoolDurationData {
    pub school_duration_data_id: i64,
    pub creation_time: i64,
    pub creator_user_id: i64,
    pub school_duration: SchoolDuration,
    pub day: i64,
    pub minute_start: i64,
    pub minute_end: i64,
    pub active: bool,
}

/// A school key record as the service returns it.
#[derive(Clone, Debug, PartialEq, Eq)]
pub struct SchoolKey {
    pub school_key_key: String,
    pub creation_time: i64,
    pub creator_user_id: i64,
    pub school: School,
    pub start_time: i64,
    pub end_time: i64,
}

/// A school key data record as the service returns it.
#[derive(Clone, Debug, PartialEq, Eq)]
pub struct SchoolKeyData {
    pub school_key_data_id: i64,
    pub creation_time: i64,
    pub creator_user_id: i64,
    pub school_key: SchoolKey,
    pub active: bool,
}

/// A adminship record as the service returns it.
#[derive(Clone, Debug, PartialEq, Eq)]
pub struct Adminship {
    pub adminship_id: i64,
    pub creation_time: i64,
    pub creator_user_id: i64,
    pub user_id: i64,
    pub school: School,
    pub adminship_kind: AdminshipKind,
    pub school_key: Option<SchoolKey>,
}

/// A location record as the service returns it.
#[derive(Clone, Debug, PartialEq, Eq)]
pub struct Location {
    pub location_id: i64,
    pub creation_time: i64,
    pub creator_user_id: i64,
    pub school: School,
}

/// A location data record as the service returns it.
#[derive(Clone, Debug, PartialEq, Eq)]
pub struct LocationData {
    pub location_data_id: i64,
    pub creation_time: i64,
    pub creator_user_id: i64,
    pub location: Location,
    pub name: String,
    pub address: String,
    pub phone: String,
    pub active: bool,
}

/// A course record as the service returns it.
#[derive(Clone, Debug, PartialEq, Eq)]
pub struct Course {
    pub course_id: i64,
    pub creator_user_id: i64,
    pub creation_time: i64,
    pub school: School,
}

/// A course data record as the service returns it.
#[derive(Clone, Debug, PartialEq, Eq)]
pub struct CourseData {
    pub course_data_id: i64,
    pub creation_time: i64,
    pub creator_user_id: i64,
    pub course: Course,
    pub name: String,
    pub description: String,
    pub homeroom: bool,
    pub active: bool,
}

/// A course key record as the service returns it.
#[derive(Clone, Debug, PartialEq, Eq)]
pub struct CourseKey {
    pub course_key_key: String,
    pub creation_time: i64,
    pub creator_user_id: i64,
    pub course: Course,
    pub max_uses: i64,
    pub course_membership_kind: CourseMembershipKind,
    pub start_time: i64,
    pub end_time: i64,
}

/// A course key data record as the service returns it.
#[derive(Clone, Debug, PartialEq, Eq)]
pub struct CourseKeyData {
    pub course_key_data_id: i64,
    pub creation_time: i64,
    pub creator_user_id: i64,
    pub course_key: CourseKey,
    pub active: bool,
}

/// A course membership record as the service returns it.
#[derive(Clone, Debug, PartialEq, Eq)]
pub struct CourseMembership {
    pub course_membership_id: i64,
    pub creation_time: i64,
    pub creator_user_id: i64,
    pub user_id: i64,
    pub course: Course,
    pub course_membership_kind: CourseMembershipKind,
    pub course_key: Option<CourseKey>,
}

/// A session record as the service returns it.
#[derive(Clone, Debug, PartialEq, Eq)]
pub struct Session {
    pub session_id: i64,
    pub creation_time: i64,
    pub creator_user_id: i64,
    pub course: Course,
}

/// A session data record as the service returns it.
#[derive(Clone, Debug, PartialEq, Eq)]
pub struct SessionData {
    pub session_data_id: i64,
    pub creation_time: i64,
    pub creator_user_id: i64,
    pub session: Session,
    pub name: String,
    pub start_time: i64,
    pub end_time: i64,
    pub active: bool,
}

/// A session request record as the service returns it.
#[derive(Clone, Debug, PartialEq, Eq)]
pub struct SessionRequest {
    pub session_request_id: i64,
    pub creation_time: i64,
    pub creator_user_id: i64,
    pub course: Course,
    pub message: String,
    pub start_time: i64,
    pub end_time: i64,
}

/// A session request response record as the service returns it.
#[derive(Clone, Debug, PartialEq, Eq)]
pub struct SessionRequestResponse {
    pub session_request: SessionRequest,
    pub creation_time: i64,
    pub creator_user_id: i64,
    pub message: String,
    pub commitment: Option<Committment>,
}

/// A committment record as the service returns it.
#[derive(Clone, Debug, PartialEq, Eq)]
pub struct Committment {
    pub commitment_id: i64,
    pub creation_time: i64,
    pub creator_user_id: i64,
    pub attendee_user_id: i64,
    pub session: Session,
    pub active: bool,
}

/// A encounter record as the service returns it.
#[derive(Clone, Debug, PartialEq, Eq)]
pub struct Encounter {
    pub encounter_id: i64,
    pub creation_time: i64,
    pub creator_user_id: i64,
    pub location: Location,
    pub user_id: i64,
    pub encounter_kind: EncounterKind,
}

/// A stay record as the service returns it.
#[derive(Clone, Debug, PartialEq, Eq)]
pub struct Stay {
    pub stay_id: i64,
    pub creation_time: i64,
    pub creator_user_id: i64,
    pub attendee_user_id: i64,
}

/// A stay data record as the service returns it.
#[derive(Clone, Debug, PartialEq, Eq)]
pub struct StayData {
    pub stay_data_id: i64,
    pub creation_time: i64,
    pub creator_user_id: i64,
    pub stay: Stay,
    /// Where the stay begins: the encounter itself, or its id.
    pub fst: Either<Encounter, i64>,
    /// Where the stay ends: the encounter itself, or its id.
    pub snd: Either<Encounter, i64>,
    pub active: bool,
}

} // verus!
