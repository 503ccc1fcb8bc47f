//! Parameters that a caller builds for the service, and the kinds that they
//! share with the responses.
use vstd::prelude::*;

verus! {

/// Whether a subscription is in force or has been cancelled.
#[derive(Clone, Copy, Debug, PartialEq, Eq, Structural, Hash)]
pub enum SubscriptionKind {
    Valid,
    Cancel,
}

impl SubscriptionKind {
    /// The numeric discriminant of the variant: its position in the declaration.
    pub open spec fn discriminant(self) -> u8 {
        match self {
            SubscriptionKind::Valid => 0,
            SubscriptionKind::Cancel => 1,
        }
    }

    /// The conversion from a number: a discriminant names its variant, and any
    /// other value comes back as the error.
    pub open spec fn from_discriminant(val: u8) -> Result<SubscriptionKind, u8> {
        if val == 0 {
            Ok(SubscriptionKind::Valid)
        } else if val == 1 {
            Ok(SubscriptionKind::Cancel)
        } else {
            Err(val)
        }
    }
}

impl TryFrom<u8> for SubscriptionKind {
    type Error = u8;

    fn try_from(val: u8) -> (r: Result<SubscriptionKind, u8>)
        ensures
            r == SubscriptionKind::from_discriminant(val),
    {
        match val {
            0 => Ok(SubscriptionKind::Valid),
            1 => Ok(SubscriptionKind::Cancel),
            x => Err(x),
        }
    }
}

impl vstd::std_specs::convert::TryFromSpecImpl<u8> for SubscriptionKind {
    open spec fn obeys_try_from_spec() -> bool {
        true
    }

    open spec fn try_from_spec(val: u8) -> Result<SubscriptionKind, u8> {
        SubscriptionKind::from_discriminant(val)
    }
}

/// Every variant comes back from its own discriminant; a number converts to a
/// variant exactly when it is below the number of variants, and then to
/// the variant that has it as discriminant; any other number is refused and
/// carried in the error unchanged.
pub proof fn subscription_kind_discriminant_round_trip(kind: SubscriptionKind, val: u8)
    ensures
        SubscriptionKind::from_discriminant(kind.discriminant()) == Ok::<SubscriptionKind, u8>(kind),
        SubscriptionKind::from_discriminant(val) is Ok <==> val < 2,
        SubscriptionKind::from_discriminant(val) is Ok ==> SubscriptionKind::from_discriminant(val)->Ok_0.discriminant() == val,
        val >= 2 ==> SubscriptionKind::from_discriminant(val) == Err::<SubscriptionKind, u8>(val),
{
}

/// What an adminship grants: administration of a school, or its cancellation.
#[derive(Clone, Copy, Debug, PartialEq, Eq, Structural, Hash)]
pub enum AdminshipKind {
    Admin,
    Cancel,
}

impl AdminshipKind {
    /// The numeric discriminant of the variant: its position in the declaration.
    pub open spec fn discriminant(self) -> u8 {
        match self {
            AdminshipKind::Admin => 0,
            AdminshipKind::Cancel => 1,
        }
    }

    /// The conversion from a number: a discriminant names its variant, and any
    /// other value comes back as the error.
    pub open spec fn from_discriminant(val: u8) -> Result<AdminshipKind, u8> {
        if val == 0 {
            Ok(AdminshipKind::Admin)
        } else if val == 1 {
            Ok(AdminshipKind::Cancel)
        } else {
            Err(val)
        }
    }
}

impl TryFrom<u8> for AdminshipKind {
    type Error = u8;

    fn try_from(val: u8) -> (r: Result<AdminshipKind, u8>)
        ensures
            r == AdminshipKind::from_discriminant(val),
    {
        match val {
            0 => Ok(AdminshipKind::Admin),
            1 => Ok(AdminshipKind::Cancel),
            x => Err(x),
        }
    }
}

impl vstd::std_specs::convert::TryFromSpecImpl<u8> for AdminshipKind {
    open spec fn obeys_try_from_spec() -> bool {
        true
    }

    open spec fn try_from_spec(val: u8) -> Result<AdminshipKind, u8> {
        AdminshipKind::from_discriminant(val)
    }
}

/// Every variant comes back from its own discriminant; a number converts to a
/// variant exactly when it is below the number of variants, and then to
/// the variant that has it as discriminant; any other number is refused and
/// carried in the error unchanged.
pub proof fn adminship_kind_discriminant_round_trip(kind: AdminshipKind, val: u8)
    ensures
        AdminshipKind::from_discriminant(kind.discriminant()) == Ok::<AdminshipKind, u8>(kind),
        AdminshipKind::from_discriminant(val) is Ok <==> val < 2,
        AdminshipKind::from_discriminant(val) is Ok ==> AdminshipKind::from_discriminant(val)->Ok_0.discriminant() == val,
        val >= 2 ==> AdminshipKind::from_discriminant(val) == Err::<AdminshipKind, u8>(val),
{
}

/// The role that a course membership gives its user, or its cancellation.
#[derive(Clone, Copy, Debug, PartialEq, Eq, Structural, Hash)]
pub enum CourseMembershipKind {
    Student,
    Instructor,
    Cancel,
}

impl CourseMembershipKind {
    /// The numeric discriminant of the variant: its position in the declaration.
    pub open spec fn discriminant(self) -> u8 {
        match self {
            CourseMembershipKind::Student => 0,
            CourseMembershipKind::Instructor => 1,
            CourseMembershipKind::Cancel => 2,
        }
    }

    /// The conversion from a number: a discriminant names its variant, and any
    /// other value comes back as the error.
    pub open spec fn from_discriminant(val: u8) -> Result<CourseMembershipKind, u8> {
        if val == 0 {
            Ok(CourseMembershipKind::Student)
        } else if val == 1 {
            Ok(CourseMembershipKind::Instructor)
        } else if val == 2 {
            Ok(CourseMembershipKind::Cancel)
        } else {
            Err(val)
        }
    }
}

impl TryFrom<u8> for CourseMembershipKind {
    type Error = u8;

    fn try_from(val: u8) -> (r: Result<CourseMembershipKind, u8>)
        ensures
            r == CourseMembershipKind::from_discriminant(val),
    {
        match val {
            0 => Ok(CourseMembershipKind::Student),
            1 => Ok(CourseMembershipKind::Instructor),
            2 => Ok(CourseMembershipKind::Cancel),
            x => Err(x),
        }
    }
}

impl vstd::std_specs::convert::TryFromSpecImpl<u8> for CourseMembershipKind {
    open spec fn obeys_try_from_spec() -> bool {
        true
    }

    open spec fn try_from_spec(val: u8) -> Result<CourseMembershipKind, u8> {
        CourseMembershipKind::from_discriminant(val)
    }
}

/// Every variant comes back from its own discriminant; a number converts to a
/// variant exactly when it is below the number of variants, and then to
/// the variant that has it as discriminant; any other number is refused and
/// carried in the error unchanged.
pub proof fn course_membership_kind_discriminant_round_trip(kind: CourseMembershipKind, val: u8)
    ensures
        CourseMembershipKind::from_discriminant(kind.discriminant()) == Ok::<CourseMembershipKind, u8>(kind),
        CourseMembershipKind::from_discriminant(val) is Ok <==> val < 3,
        CourseMembershipKind::from_discriminant(val) is Ok ==> CourseMembershipKind::from_discriminant(val)->Ok_0.discriminant() == val,
        val >= 3 ==> CourseMembershipKind::from_discriminant(val) == Err::<CourseMembershipKind, u8>(val),
{
}

/// How an encounter was recorded: entered by hand, or by a reader.
#[derive(Clone, Copy, Debug, PartialEq, Eq, Structural, Hash)]
pub enum EncounterKind {
    Manual,
    Hardware,
}

impl EncounterKind {
    /// The numeric discriminant of the variant: its position in the declaration.
    pub open spec fn discriminant(self) -> u8 {
        match self {
            EncounterKind::Manual => 0,
            EncounterKind::Hardware => 1,
        }
    }

    /// The conversion from a number: a discriminant names its variant, and any
    /// other value comes back as the error.
    pub open spec fn from_discriminant(val: u8) -> Result<EncounterKind, u8> {
        if val == 0 {
            Ok(EncounterKind::Manual)
        } else if val == 1 {
            Ok(EncounterKind::Hardware)
        } else {
            Err(val)
        }
    }
}

impl TryFrom<u8> for EncounterKind {
    type Error = u8;

    fn try_from(val: u8) -> (r: Result<EncounterKind, u8>)
        ensures
            r == EncounterKind::from_discriminant(val),
    {
        match val {
            0 => Ok(EncounterKind::Manual),
            1 => Ok(EncounterKind::Hardware),
            x => Err(x),
        }
    }
}

impl vstd::std_specs::convert::TryFromSpecImpl<u8> for EncounterKind {
    open spec fn obeys_try_from_spec() -> bool {
        true
    }

    open spec fn try_from_spec(val: u8) -> Result<EncounterKind, u8> {
        EncounterKind::from_discriminant(val)
    }
}

/// Every variant comes back from its own discriminant; a number converts to a
/// variant exactly when it is below the number of variants, and then to
/// the variant that has it as discriminant; any other number is refused and
/// carried in the error unchanged.
pub proof fn encounter_kind_discriminant_round_trip(kind: EncounterKind, val: u8)
    ensures
        EncounterKind::from_discriminant(kind.discriminant()) == Ok::<EncounterKind, u8>(kind),
        EncounterKind::from_discriminant(val) is Ok <==> val < 2,
        EncounterKind::from_discriminant(val) is Ok ==> EncounterKind::from_discriminant(val)->Ok_0.discriminant() == val,
        val >= 2 ==> EncounterKind::from_discriminant(val) == Err::<EncounterKind, u8>(val),
{
}

/// The ways in which attendance of a session can be irregular.
#[derive(Clone, Copy, Debug, PartialEq, Eq, Structural, Hash)]
pub enum IrregularityKind {
    Absent,
    Tardy,
    LeaveNoreturn,
    LeaveReturn,
}

impl IrregularityKind {
    /// The numeric discriminant of the variant: its position in the declaration.
    pub open spec fn discriminant(self) -> u8 {
        match self {
            IrregularityKind::Absent => 0,
            IrregularityKind::Tardy => 1,
            IrregularityKind::LeaveNoreturn => 2,
            IrregularityKind::LeaveReturn => 3,
        }
    }

    /// The conversion from a number: a discriminant names its variant, and any
    /// other value comes back as the error.
    pub open spec fn from_discriminant(val: u8) -> Result<IrregularityKind, u8> {
        if val == 0 {
            Ok(IrregularityKind::Absent)
        } else if val == 1 {
            Ok(IrregularityKind::Tardy)
        } else if val == 2 {
            Ok(IrregularityKind::LeaveNoreturn)
        } else if val == 3 {
            Ok(IrregularityKind::LeaveReturn)
        } else {
            Err(val)
        }
    }
}

impl TryFrom<u8> for IrregularityKind {
    type Error = u8;

    fn try_from(val: u8) -> (r: Result<IrregularityKind, u8>)
        ensures
            r == IrregularityKind::from_discriminant(val),
    {
        match val {
            0 => Ok(IrregularityKind::Absent),
            1 => Ok(IrregularityKind::Tardy),
            2 => Ok(IrregularityKind::LeaveNoreturn),
            3 => Ok(IrregularityKind::LeaveReturn),
            x => Err(x),
        }
    }
}

impl vstd::std_specs::convert::TryFromSpecImpl<u8> for IrregularityKind {
    open spec fn obeys_try_from_spec() -> bool {
        true
    }

    open spec fn try_from_spec(val: u8) -> Result<IrregularityKind, u8> {
        IrregularityKind::from_discriminant(val)
    }
}

/// Every variant comes back from its own discriminant; a number converts to a
/// variant exactly when it is below the number of variants, and then to
/// the variant that has it as discriminant; any other number is refused and
/// carried in the error unchanged.
pub proof fn irregularity_kind_discriminant_round_trip(kind: IrregularityKind, val: u8)
    ensures
        IrregularityKind::from_discriminant(kind.discriminant()) == Ok::<IrregularityKind, u8>(kind),
        IrregularityKind::from_discriminant(val) is Ok <==> val < 4,
        IrregularityKind::from_discriminant(val) is Ok ==> IrregularityKind::from_discriminant(val)->Ok_0.discriminant() == val,
        val >= 4 ==> IrregularityKind::from_discriminant(val) == Err::<IrregularityKind, u8>(val),
{
}

/// Parameters of a request that creates a subscription record.
#[derive(Clone, Debug, PartialEq, Eq)]
pub struct SubscriptionNewProps {
    pub subscription_kind: SubscriptionKind,
    pub api_key: String,
}

/// Parameters of a request that creates a school record.
#[derive(Clone, Debug, PartialEq, Eq)]
pub struct SchoolNewProps {
    pub name: String,
    pub description: String,
    pub whole: bool,
    pub api_key: String,
}

/// Parameters of a request that creates a school data record.
#[derive(Clone, Debug, PartialEq, Eq)]
pub struct SchoolDataNewProps {
    pub school_id: i64,
    pub name: String,
    pub description: String,
    pub active: bool,
    pub api_key: String,
}

/// Parameters of a request that creates a school duration record.
#[derive(Clone, Debug, PartialEq, Eq)]
pub struct SchoolDurationNewProps {
    pub school_id: i64,
    pub day: i64,
    pub minute_start: i64,
    pub minute_end: i64,
    pub api_key: String,
}

/// Parameters of a request that creates a school duration data record.
#[derive(Clone, Debug, PartialEq, Eq)]
pub struct SchoolDurationDataNewProps {
    pub school_duration_id: i64,
    pub day: i64,
    pub minute_start: i64,
    pub minute_end: i64,
    pub active: bool,
    pub api_key: String,
}

/// Parameters of a request that creates a school key record.
#[derive(Clone, Debug, PartialEq, Eq)]
pub struct SchoolKeyNewProps {
    pub school_id: i64,
    pub start_time: i64,
    pub end_time: i64,
    pub api_key: String,
}

/// Parameters of a request that creates a school key data record.
#[derive(Clone, Debug, PartialEq, Eq)]
pub struct SchoolKeyDataNewProps {
    pub school_key_key: String,
    pub active: bool,
    pub api_key: String,
}

/// Parameters of a request that cancels an adminship.
#[derive(Clone, Debug, PartialEq, Eq)]
pub struct AdminshipNewCancelProps {
    pub user_id: i64,
    pub school_id: i64,
    pub api_key: String,
}

/// Parameters of a request that redeems a key for an adminship.
#[derive(Clone, Debug, PartialEq, Eq)]
pub struct AdminshipNewKeyProps {
    pub school_key_key: String,
    pub api_key: String,
}

/// Parameters of a request that creates a location record.
#[derive(Clone, Debug, PartialEq, Eq)]
pub struct LocationNewProps {
    pub school_id: i64,
    pub name: String,
    pub address: String,
    pub phone: String,
    pub api_key: String,
}

/// Parameters of a request that creates a location data record.
#[derive(Clone, Debug, PartialEq, Eq)]
pub struct LocationDataNewProps {
    pub location_id: i64,
    pub name: String,
    pub address: String,
    pub phone: String,
    pub active: bool,
    pub api_key: String,
}

/// Parameters of a request that creates a course record.
#[derive(Clone, Debug, PartialEq, Eq)]
pub struct CourseNewProps {
    pub school_id: i64,
    pub location_id: i64,
    pub name: String,
    pub description: String,
    pub homeroom: bool,
    pub api_key: String,
}

/// Parameters of a request that creates a course data record.
#[derive(Clone, Debug, PartialEq, Eq)]
pub struct CourseDataNewProps {
    pub course_id: i64,
    pub location_id: i64,
    pub name: String,
    pub description: String,
    pub homeroom: bool,
    pub active: bool,
    pub api_key: String,
}

/// Parameters of a request that creates a course key record.
#[derive(Clone, Debug, PartialEq, Eq)]
pub struct CourseKeyNewProps {
    pub course_id: i64,
    pub course_membership_kind: CourseMembershipKind,
    pub max_uses: i64,
    pub start_time: i64,
    pub end_time: i64,
    pub api_key: String,
}

/// Parameters of a request that creates a course key data record.
#[derive(Clone, Debug, PartialEq, Eq)]
pub struct CourseKeyDataNewProps {
    pub course_key_key: String,
    pub active: bool,
    pub api_key: String,
}

/// Parameters of a request that cancels a course membership.
#[derive(Clone, Debug, PartialEq, Eq)]
pub struct CourseMembershipNewCancelProps {
    pub user_id: i64,
    pub course_id: i64,
    pub api_key: String,
}

/// Parameters of a request that redeems a key for a course membership.
#[derive(Clone, Debug, PartialEq, Eq)]
pub struct CourseMembershipNewKeyProps {
    pub course_key_key: String,
    pub api_key: String,
}

/// Parameters of a request that creates a session record.
#[derive(Clone, Debug, PartialEq, Eq)]
pub struct SessionNewProps {
    pub name: String,
    pub course_id: i64,
    pub start_time: i64,
    pub end_time: i64,
    /// Each of these users gets a commitment to the new session; more can be
    /// added later.
    pub attendee_user_ids: Vec<i64>,
    pub api_key: String,
}

/// Parameters of a request that creates a session data record.
#[derive(Clone, Debug, PartialEq, Eq)]
pub struct SessionDataNewProps {
    pub session_id: i64,
    pub name: String,
    pub active: bool,
    pub start_time: i64,
    pub end_time: i64,
    pub api_key: String,
}

/// Parameters of a request that creates a session request record.
#[derive(Clone, Debug, PartialEq, Eq)]
pub struct SessionRequestNewProps {
    pub course_id: i64,
    pub message: String,
    pub start_time: i64,
    pub end_time: i64,
    pub api_key: String,
}

/// Parameters of a request that creates a session request response record.
#[derive(Clone, Debug, PartialEq, Eq)]
pub struct SessionRequestResponseNewProps {
    pub session_request_id: i64,
    pub message: String,
    pub session_id: Option<i64>,
    pub api_key: String,
}

/// Parameters of a request that creates a commitment record.
#[derive(Clone, Debug, PartialEq, Eq)]
pub struct CommitmentNewProps {
    pub attendee_user_id: i64,
    pub session_id: i64,
    pub api_key: String,
    pub active: bool,
}

/// Parameters of a request that creates an encounter record.
#[derive(Clone, Debug, PartialEq, Eq)]
pub struct EncounterNewProps {
    pub attendee_user_id: i64,
    pub location_id: i64,
    pub api_key: String,
}

/// Parameters of a request that records that an user attended, as an encounter.
#[derive(Clone, Debug, PartialEq, Eq)]
pub struct EncounterNewAttendsProps {
    pub attendee_user_id: i64,
    pub location_id: i64,
    pub api_key: String,
}

/// Parameters of a request that creates a stay record.
#[derive(Clone, Debug, PartialEq, Eq)]
pub struct StayNewProps {
    pub attendee_user_id: i64,
    pub location_id: i64,
    pub fst_time: Option<i64>,
    pub fst_encounter_id: Option<i64>,
    pub snd_time: Option<i64>,
    pub snd_encounter_id: Option<i64>,
    pub api_key: String,
}

/// Parameters of a request that creates a stay data record.
#[derive(Clone, Debug, PartialEq, Eq)]
pub struct StayDataNewProps {
    pub stay_id: i64,
    pub fst_time: Option<i64>,
    pub fst_encounter_id: Option<i64>,
    pub snd_time: Option<i64>,
    pub snd_encounter_id: Option<i64>,
    pub active: bool,
    pub api_key: String,
}

/// Filter of a request that lists subscription records: each optional field that is
/// present constrains the result, an absent one does not.
#[derive(Clone, Debug, PartialEq, Eq)]
pub struct SubscriptionViewProps {
    pub subscription_id: Option<Vec<i64>>,
    pub min_creation_time: Option<i64>,
    pub max_creation_time: Option<i64>,
    pub creator_user_id: Option<Vec<i64>>,
    pub subscription_kind: Option<Vec<SubscriptionKind>>,
    /// Keep only the current revision of each entity, as
    /// `revision::current_revisions` picks it, rather than the whole history.
    pub only_recent: bool,
    pub api_key: String,
}

/// Filter of a request that lists school records: each optional field that is
/// present constrains the result, an absent one does not.
#[derive(Clone, Debug, PartialEq, Eq)]
pub struct SchoolViewProps {
    pub school_id: Option<Vec<i64>>,
    pub min_creation_time: Option<i64>,
    pub max_creation_time: Option<i64>,
    pub creator_user_id: Option<Vec<i64>>,
    pub whole: Option<bool>,
    pub api_key: String,
}

/// Filter of a request that lists school data records: each optional field that is
/// present constrains the result, an absent one does not.
#[derive(Clone, Debug, PartialEq, Eq)]
pub struct SchoolDataViewProps {
    pub school_data_id: Option<Vec<i64>>,
    pub min_creation_time: Option<i64>,
    pub max_creation_time: Option<i64>,
    pub creator_user_id: Option<Vec<i64>>,
    pub school_id: Option<Vec<i64>>,
    pub name: Option<Vec<String>>,
    pub partial_name: Option<String>,
    pub description: Option<Vec<String>>,
    pub partial_description: Option<String>,
    pub active: Option<bool>,
    /// Keep only the current revision of each entity, as
    /// `revision::current_revisions` picks it, rather than the whole history.
    pub only_recent: bool,
    pub api_key: String,
}

/// Filter of a request that lists school duration records: each optional field that is
/// present constrains the result, an absent one does not.
#[derive(Clone, Debug, PartialEq, Eq)]
pub struct SchoolDurationViewProps {
    pub school_duration_id: Option<Vec<i64>>,
    pub min_creation_time: Option<i64>,
    pub max_creation_time: Option<i64>,
    pub creator_user_id: Option<Vec<i64>>,
    pub school_id: Option<Vec<i64>>,
    pub api_key: String,
}

/// Filter of a request that lists school duration data records: each optional field that is
/// present constrains the result, an absent one does not.
#[derive(Clone, Debug, PartialEq, Eq)]
pub struct SchoolDurationDataViewProps {
    pub school_duration_data_id: Option<Vec<i64>>,
    pub min_creation_time: Option<i64>,
    pub max_creation_time: Option<i64>,
    pub creator_user_id: Option<Vec<i64>>,
    pub school_duration_id: Option<Vec<i64>>,
    pub day: Option<Vec<i64>>,
    pub min_minute_start: Option<i64>,
    pub max_minute_start: Option<i64>,
    pub min_minute_end: Option<i64>,
    pub max_minute_end: Option<i64>,
    pub active: Option<bool>,
    /// Keep only the current revision of each entity, as
    /// `revision::current_revisions` picks it, rather than the whole history.
    pub only_recent: bool,
    pub school_id: Option<Vec<i64>>,
    pub api_key: String,
}

/// Filter of a request that lists school key records: each optional field that is
/// present constrains the result, an absent one does not.
#[derive(Clone, Debug, PartialEq, Eq)]
pub struct SchoolKeyViewProps {
    pub school_key_key: Option<Vec<String>>,
    pub min_creation_time: Option<i64>,
    pub max_creation_time: Option<i64>,
    pub creator_user_id: Option<Vec<i64>>,
    pub school_id: Option<Vec<i64>>,
    pub min_start_time: Option<i64>,
    pub max_start_time: Option<i64>,
    pub min_end_time: Option<i64>,
    pub max_end_time: Option<i64>,
    pub api_key: String,
}

/// Filter of a request that lists school key data records: each optional field that is
/// present constrains the result, an absent one does not.
#[derive(Clone, Debug, PartialEq, Eq)]
pub struct SchoolKeyDataViewProps {
    pub school_key_data_id: Option<Vec<i64>>,
    pub min_creation_time: Option<i64>,
    pub max_creation_time: Option<i64>,
    pub creator_user_id: Option<Vec<i64>>,
    pub school_key_key: Option<Vec<String>>,
    pub active: Option<bool>,
    pub school_id: Option<Vec<i64>>,
    pub min_start_time: Option<i64>,
    pub max_start_time: Option<i64>,
    pub min_end_time: Option<i64>,
    pub max_end_time: Option<i64>,
    /// Keep only the current revision of each entity, as
    /// `revision::current_revisions` picks it, rather than the whole history.
    pub only_recent: bool,
    pub api_key: String,
}

/// Filter of a request that lists adminship records: each optional field that is
/// present constrains the result, an absent one does not.
#[derive(Clone, Debug, PartialEq, Eq)]
pub struct AdminshipViewProps {
    pub adminship_id: Option<Vec<i64>>,
    pub min_creation_time: Option<i64>,
    pub max_creation_time: Option<i64>,
    pub creator_user_id: Option<Vec<i64>>,
    pub user_id: Option<Vec<i64>>,
    pub school_id: Option<Vec<i64>>,
    pub adminship_kind: Option<Vec<AdminshipKind>>,
    pub adminship_has_source: Option<bool>,
    pub school_key_key: Option<Vec<String>>,
    /// Keep only the current revision of each entity, as
    /// `revision::current_revisions` picks it, rather than the whole history.
    pub only_recent: bool,
    pub api_key: String,
}

/// Filter of a request that lists location records: each optional field that is
/// present constrains the result, an absent one does not.
#[derive(Clone, Debug, PartialEq, Eq)]
pub struct LocationViewProps {
    pub location_id: Option<Vec<i64>>,
    pub min_creation_time: Option<i64>,
    pub max_creation_time: Option<i64>,
    pub creator_user_id: Option<Vec<i64>>,
    pub school_id: Option<Vec<i64>>,
    pub api_key: String,
}

/// Filter of a request that lists location data records: each optional field that is
/// present constrains the result, an absent one does not.
#[derive(Clone, Debug, PartialEq, Eq)]
pub struct LocationDataViewProps {
    pub location_data_id: Option<Vec<i64>>,
    pub min_creation_time: Option<i64>,
    pub max_creation_time: Option<i64>,
    pub creator_user_id: Option<Vec<i64>>,
    pub location_id: Option<Vec<i64>>,
    pub name: Option<Vec<String>>,
    pub partial_name: Option<String>,
    pub address: Option<Vec<String>>,
    pub partial_address: Option<String>,
    pub phone: Option<Vec<String>>,
    pub active: Option<bool>,
    /// Keep only the current revision of each entity, as
    /// `revision::current_revisions` picks it, rather than the whole history.
    pub only_recent: bool,
    pub school_id: Option<Vec<i64>>,
    pub api_key: String,
}

/// Filter of a request that lists course records: each optional field that is
/// present constrains the result, an absent one does not.
#[derive(Clone, Debug, PartialEq, Eq)]
pub struct CourseViewProps {
    pub course_id: Option<Vec<i64>>,
    pub min_creation_time: Option<i64>,
    pub max_creation_time: Option<i64>,
    pub creator_user_id: Option<Vec<i64>>,
    pub school_id: Option<Vec<i64>>,
    pub api_key: String,
}

/// Filter of a request that lists course data records: each optional field that is
/// present constrains the result, an absent one does not.
#[derive(Clone, Debug, PartialEq, Eq)]
pub struct CourseDataViewProps {
    pub course_data_id: Option<Vec<i64>>,
    pub min_creation_time: Option<i64>,
    pub max_creation_time: Option<i64>,
    pub creator_user_id: Option<Vec<i64>>,
    pub course_id: Option<Vec<i64>>,
    pub location_id: Option<Vec<i64>>,
    pub name: Option<Vec<String>>,
    pub partial_name: Option<String>,
    pub description: Option<Vec<String>>,
    pub partial_description: Option<String>,
    pub homeroom: Option<bool>,
    pub active: Option<bool>,
    /// Keep only the current revision of each entity, as
    /// `revision::current_revisions` picks it, rather than the whole history.
    pub only_recent: bool,
    pub school_id: Option<Vec<i64>>,
    pub api_key: String,
}

/// Filter of a request that lists course key records: each optional field that is
/// present constrains the result, an absent one does not.
#[derive(Clone, Debug, PartialEq, Eq)]
pub struct CourseKeyViewProps {
    pub course_key_key: Option<Vec<String>>,
    pub min_creation_time: Option<i64>,
    pub max_creation_time: Option<i64>,
    pub creator_user_id: Option<Vec<i64>>,
    pub course_id: Option<Vec<i64>>,
    pub max_uses: Option<Vec<i64>>,
    pub course_membership_kind: Option<Vec<CourseMembershipKind>>,
    pub min_start_time: Option<i64>,
    pub max_start_time: Option<i64>,
    pub min_end_time: Option<i64>,
    pub max_end_time: Option<i64>,
    pub api_key: String,
}

/// Filter of a request that lists course key data records: each optional field that is
/// present constrains the result, an absent one does not.
#[derive(Clone, Debug, PartialEq, Eq)]
pub struct CourseKeyDataViewProps {
    pub course_key_data_id: Option<Vec<i64>>,
    pub min_creation_time: Option<i64>,
    pub max_creation_time: Option<i64>,
    pub creator_user_id: Option<Vec<i64>>,
    pub course_key_key: Option<Vec<String>>,
    pub active: Option<bool>,
    pub course_id: Option<Vec<i64>>,
    pub max_uses: Option<Vec<i64>>,
    pub course_membership_kind: Option<Vec<CourseMembershipKind>>,
    pub min_start_time: Option<i64>,
    pub max_start_time: Option<i64>,
    pub min_end_time: Option<i64>,
    pub max_end_time: Option<i64>,
    /// Keep only the current revision of each entity, as
    /// `revision::current_revisions` picks it, rather than the whole history.
    pub only_recent: bool,
    pub api_key: String,
}

/// Filter of a request that lists course membership records: each optional field that is
/// present constrains the result, an absent one does not.
#[derive(Clone, Debug, PartialEq, Eq)]
pub struct CourseMembershipViewProps {
    pub course_membership_id: Option<Vec<i64>>,
    pub min_creation_time: Option<i64>,
    pub max_creation_time: Option<i64>,
    pub creator_user_id: Option<Vec<i64>>,
    pub user_id: Option<Vec<i64>>,
    pub course_id: Option<Vec<i64>>,
    pub course_membership_kind: Option<Vec<CourseMembershipKind>>,
    pub course_membership_from_key: Option<bool>,
    pub course_key_key: Option<Vec<String>>,
    /// Keep only the current revision of each entity, as
    /// `revision::current_revisions` picks it, rather than the whole history.
    pub only_recent: bool,
    pub api_key: String,
}

/// Filter of a request that lists session records: each optional field that is
/// present constrains the result, an absent one does not.
#[derive(Clone, Debug, PartialEq, Eq)]
pub struct SessionViewProps {
    pub session_id: Option<Vec<i64>>,
    pub min_creation_time: Option<i64>,
    pub max_creation_time: Option<i64>,
    pub creator_user_id: Option<Vec<i64>>,
    pub course_id: Option<Vec<i64>>,
    pub api_key: String,
}

/// Filter of a request that lists session data records: each optional field that is
/// present constrains the result, an absent one does not.
#[derive(Clone, Debug, PartialEq, Eq)]
pub struct SessionDataViewProps {
    pub session_data_id: Option<Vec<i64>>,
    pub min_creation_time: Option<i64>,
    pub max_creation_time: Option<i64>,
    pub creator_user_id: Option<Vec<i64>>,
    pub session_id: Option<Vec<i64>>,
    pub name: Option<Vec<String>>,
    pub partial_name: Option<String>,
    pub min_start_time: Option<i64>,
    pub max_start_time: Option<i64>,
    pub min_end_time: Option<i64>,
    pub max_end_time: Option<i64>,
    pub active: Option<bool>,
    pub course_id: Option<Vec<i64>>,
    /// Keep only the current revision of each entity, as
    /// `revision::current_revisions` picks it, rather than the whole history.
    pub only_recent: bool,
    pub api_key: String,
}

/// Filter of a request that lists session request records: each optional field that is
/// present constrains the result, an absent one does not.
#[derive(Clone, Debug, PartialEq, Eq)]
pub struct SessionRequestViewProps {
    pub session_request_id: Option<Vec<i64>>,
    pub min_creation_time: Option<i64>,
    pub max_creation_time: Option<i64>,
    pub creator_user_id: Option<Vec<i64>>,
    pub course_id: Option<Vec<i64>>,
    pub message: Option<Vec<String>>,
    pub partial_message: Option<String>,
    pub min_start_time: Option<i64>,
    pub max_start_time: Option<i64>,
    pub min_end_time: Option<i64>,
    pub max_end_time: Option<i64>,
    pub responded: Option<bool>,
    pub api_key: String,
}

/// Filter of a request that lists session request response records: each optional field that is
/// present constrains the result, an absent one does not.
#[derive(Clone, Debug, PartialEq, Eq)]
pub struct SessionRequestResponseViewProps {
    pub session_request_id: Option<Vec<i64>>,
    pub min_creation_time: Option<i64>,
    pub max_creation_time: Option<i64>,
    pub creator_user_id: Option<Vec<i64>>,
    pub message: Option<Vec<String>>,
    pub partial_message: Option<String>,
    pub accepted: Option<bool>,
    pub commitment_id: Option<Vec<i64>>,
    pub attendee_user_id: Option<Vec<i64>>,
    pub course_id: Option<Vec<i64>>,
    pub min_start_time: Option<i64>,
    pub max_start_time: Option<i64>,
    pub min_end_time: Option<i64>,
    pub max_end_time: Option<i64>,
    pub session_id: Option<Vec<i64>>,
    pub api_key: String,
}

/// Filter of a request that lists commitment records: each optional field that is
/// present constrains the result, an absent one does not.
#[derive(Clone, Debug, PartialEq, Eq)]
pub struct CommitmentViewProps {
    pub commitment_id: Option<Vec<i64>>,
    pub min_creation_time: Option<i64>,
    pub max_creation_time: Option<i64>,
    pub creator_user_id: Option<Vec<i64>>,
    pub attendee_user_id: Option<Vec<i64>>,
    pub session_id: Option<Vec<i64>>,
    pub course_id: Option<Vec<i64>>,
    pub min_start_time: Option<i64>,
    pub max_start_time: Option<i64>,
    pub min_end_time: Option<i64>,
    pub max_end_time: Option<i64>,
    pub active: Option<bool>,
    pub from_request_response: Option<bool>,
    /// Keep only the current revision of each entity, as
    /// `revision::current_revisions` picks it, rather than the whole history.
    pub only_recent: bool,
    pub api_key: String,
}

/// Filter of a request that lists encounter records: each optional field that is
/// present constrains the result, an absent one does not.
#[derive(Clone, Debug, PartialEq, Eq)]
pub struct EncounterViewProps {
    pub encounter_id: Option<Vec<i64>>,
    pub min_creation_time: Option<i64>,
    pub max_creation_time: Option<i64>,
    pub creator_user_id: Option<Vec<i64>>,
    pub attendee_user_id: Option<Vec<i64>>,
    pub location_id: Option<Vec<i64>>,
    pub api_key: String,
}

/// Filter of a request that lists stay records: each optional field that is
/// present constrains the result, an absent one does not.
#[derive(Clone, Debug, PartialEq, Eq)]
pub struct StayViewProps {
    pub stay_id: Option<Vec<i64>>,
    pub min_creation_time: Option<i64>,
    pub max_creation_time: Option<i64>,
    pub creator_user_id: Option<Vec<i64>>,
    pub attendee_user_id: Option<Vec<i64>>,
    pub location_id: Option<Vec<i64>>,
    pub api_key: String,
}

/// Filter of a request that lists stay data records: each optional field that is
/// present constrains the result, an absent one does not.
#[derive(Clone, Debug, PartialEq, Eq)]
pub struct StayDataViewProps {
    pub stay_data_id: Option<Vec<i64>>,
    pub min_creation_time: Option<i64>,
    pub max_creation_time: Option<i64>,
    pub creator_user_id: Option<Vec<i64>>,
    pub stay_id: Option<Vec<i64>>,
    pub fst_encounter_id: Option<Vec<i64>>,
    pub snd_encounter_id: Option<Vec<i64>>,
    pub min_start_time: Option<i64>,
    pub max_start_time: Option<i64>,
    pub min_end_time: Option<i64>,
    pub max_end_time: Option<i64>,
    pub active: bool,
    /// Keep only the current revision of each entity, as
    /// `revision::current_revisions` picks it, rather than the whole history.
    pub only_recent: bool,
    pub attendee_user_id: Option<Vec<i64>>,
    pub location_id: Option<Vec<i64>>,
    pub api_key: String,
}

} // verus!
