use innexgo_hours_api::request::{
    SubscriptionViewProps, SchoolViewProps, SchoolDataViewProps, SchoolDurationViewProps, SchoolDurationDataViewProps, SchoolKeyViewProps, SchoolKeyDataViewProps, AdminshipViewProps, LocationViewProps, LocationDataViewProps, CourseViewProps, CourseDataViewProps, CourseKeyViewProps, CourseKeyDataViewProps, CourseMembershipViewProps, SessionViewProps, SessionDataViewProps, SessionRequestViewProps, SessionRequestResponseViewProps, CommitmentViewProps, EncounterViewProps, StayViewProps, StayDataViewProps,
};

#[test]
fn subscription_view_props_without_filters() {
    let props = SubscriptionViewProps {
        subscription_id: None,
        min_creation_time: None,
        max_creation_time: None,
        creator_user_id: None,
        subscription_kind: None,
        only_recent: false,
        api_key: "key".to_string(),
    };
    assert!(props.subscription_id.is_none() && props.min_creation_time.is_none() && props.max_creation_time.is_none() && props.creator_user_id.is_none() && props.subscription_kind.is_none());
    assert_eq!(props.clone(), props);
}

#[test]
fn school_view_props_without_filters() {
    let props = SchoolViewProps {
        school_id: None,
        min_creation_time: None,
        max_creation_time: None,
        creator_user_id: None,
        whole: None,
        api_key: "key".to_string(),
    };
    assert!(props.school_id.is_none() && props.min_creation_time.is_none() && props.max_creation_time.is_none() && props.creator_user_id.is_none() && props.whole.is_none());
    assert_eq!(props.clone(), props);
}

#[test]
fn school_data_view_props_without_filters() {
    let props = SchoolDataViewProps {
        school_data_id: None,
        min_creation_time: None,
        max_creation_time: None,
        creator_user_id: None,
        school_id: None,
        name: None,
        partial_name: None,
        description: None,
        partial_description: None,
        active: None,
        only_recent: false,
        api_key: "key".to_string(),
    };
    assert!(props.school_data_id.is_none() && props.min_creation_time.is_none() && props.max_creation_time.is_none() && props.creator_user_id.is_none() && props.school_id.is_none() && props.name.is_none() && props.partial_name.is_none() && props.description.is_none() && props.partial_description.is_none() && props.active.is_none());
    assert_eq!(props.clone(), props);
}

#[test]
fn school_duration_view_props_without_filters() {
    let props = SchoolDurationViewProps {
        school_duration_id: None,
        min_creation_time: None,
        max_creation_time: None,
        creator_user_id: None,
        school_id: None,
        api_key: "key".to_string(),
    };
    assert!(props.school_duration_id.is_none() && props.min_creation_time.is_none() && props.max_creation_time.is_none() && props.creator_user_id.is_none() && props.school_id.is_none());
    assert_eq!(props.clone(), props);
}

#[test]
fn school_duration_data_view_props_without_filters() {
    let props = SchoolDurationDataViewProps {
        school_duration_data_id: None,
        min_creation_time: None,
        max_creation_time: None,
        creator_user_id: None,
        school_duration_id: None,
        day: None,
        min_minute_start: None,
        max_minute_start: None,
        min_minute_end: None,
        max_minute_end: None,
        active: None,
        only_recent: false,
        school_id: None,
        api_key: "key".to_string(),
    };
    assert!(props.school_duration_data_id.is_none() && props.min_creation_time.is_none() && props.max_creation_time.is_none() && props.creator_user_id.is_none() && props.school_duration_id.is_none() && props.day.is_none() && props.min_minute_start.is_none() && props.max_minute_start.is_none() && props.min_minute_end.is_none() && props.max_minute_end.is_none() && props.active.is_none() && props.school_id.is_none());
    assert_eq!(props.clone(), props);
}

#[test]
fn school_key_view_props_without_filters() {
    let props = SchoolKeyViewProps {
        school_key_key: None,
        min_creation_time: None,
        max_creation_time: None,
        creator_user_id: None,
        school_id: None,
        min_start_time: None,
        max_start_time: None,
        min_end_time: None,
        max_end_time: None,
        api_key: "key".to_string(),
    };
    assert!(props.school_key_key.is_none() && props.min_creation_time.is_none() && props.max_creation_time.is_none() && props.creator_user_id.is_none() && props.school_id.is_none() && props.min_start_time.is_none() && props.max_start_time.is_none() && props.min_end_time.is_none() && props.max_end_time.is_none());
    assert_eq!(props.clone(), props);
}

#[test]
fn school_key_data_view_props_without_filters() {
    let props = SchoolKeyDataViewProps {
        school_key_data_id: None,
        min_creation_time: None,
        max_creation_time: None,
        creator_user_id: None,
        school_key_key: None,
        active: None,
        school_id: None,
        min_start_time: None,
        max_start_time: None,
        min_end_time: None,
        max_end_time: None,
        only_recent: false,
        api_key: "key".to_string(),
    };
    assert!(props.school_key_data_id.is_none() && props.min_creation_time.is_none() && props.max_creation_time.is_none() && props.creator_user_id.is_none() && props.school_key_key.is_none() && props.active.is_none() && props.school_id.is_none() && props.min_start_time.is_none() && props.max_start_time.is_none() && props.min_end_time.is_none() && props.max_end_time.is_none());
    assert_eq!(props.clone(), props);
}

#[test]
fn adminship_view_props_without_filters() {
    let props = AdminshipViewProps {
        adminship_id: None,
        min_creation_time: None,
        max_creation_time: None,
        creator_user_id: None,
        user_id: None,
        school_id: None,
        adminship_kind: None,
        adminship_has_source: None,
        school_key_key: None,
        only_recent: false,
        api_key: "key".to_string(),
    };
    assert!(props.adminship_id.is_none() && props.min_creation_time.is_none() && props.max_creation_time.is_none() && props.creator_user_id.is_none() && props.user_id.is_none() && props.school_id.is_none() && props.adminship_kind.is_none() && props.adminship_has_source.is_none() && props.school_key_key.is_none());
    assert_eq!(props.clone(), props);
}

#[test]
fn location_view_props_without_filters() {
    let props = LocationViewProps {
        location_id: None,
        min_creation_time: None,
        max_creation_time: None,
        creator_user_id: None,
        school_id: None,
        api_key: "key".to_string(),
    };
    assert!(props.location_id.is_none() && props.min_creation_time.is_none() && props.max_creation_time.is_none() && props.creator_user_id.is_none() && props.school_id.is_none());
    assert_eq!(props.clone(), props);
}

#[test]
fn location_data_view_props_without_filters() {
    let props = LocationDataViewProps {
        location_data_id: None,
        min_creation_time: None,
        max_creation_time: None,
        creator_user_id: None,
        location_id: None,
        name: None,
        partial_name: None,
        address: None,
        partial_address: None,
        phone: None,
        active: None,
        only_recent: false,
        school_id: None,
        api_key: "key".to_string(),
    };
    assert!(props.location_data_id.is_none() && props.min_creation_time.is_none() && props.max_creation_time.is_none() && props.creator_user_id.is_none() && props.location_id.is_none() && props.name.is_none() && props.partial_name.is_none() && props.address.is_none() && props.partial_address.is_none() && props.phone.is_none() && props.active.is_none() && props.school_id.is_none());
    assert_eq!(props.clone(), props);
}

#[test]
fn course_view_props_without_filters() {
    let props = CourseViewProps {
        course_id: None,
        min_creation_time: None,
        max_creation_time: None,
        creator_user_id: None,
        school_id: None,
        api_key: "key".to_string(),
    };
    assert!(props.course_id.is_none() && props.min_creation_time.is_none() && props.max_creation_time.is_none() && props.creator_user_id.is_none() && props.school_id.is_none());
    assert_eq!(props.clone(), props);
}

#[test]
fn course_data_view_props_without_filters() {
    let props = CourseDataViewProps {
        course_data_id: None,
        min_creation_time: None,
        max_creation_time: None,
        creator_user_id: None,
        course_id: None,
        location_id: None,
        name: None,
        partial_name: None,
        description: None,
        partial_description: None,
        homeroom: None,
        active: None,
        only_recent: false,
        school_id: None,
        api_key: "key".to_string(),
    };
    assert!(props.course_data_id.is_none() && props.min_creation_time.is_none() && props.max_creation_time.is_none() && props.creator_user_id.is_none() && props.course_id.is_none() && props.location_id.is_none() && props.name.is_none() && props.partial_name.is_none() && props.description.is_none() && props.partial_description.is_none() && props.homeroom.is_none() && props.active.is_none() && props.school_id.is_none());
    assert_eq!(props.clone(), props);
}

#[test]
fn course_key_view_props_without_filters() {
    let props = CourseKeyViewProps {
        course_key_key: None,
        min_creation_time: None,
        max_creation_time: None,
        creator_user_id: None,
        course_id: None,
        max_uses: None,
        course_membership_kind: None,
        min_start_time: None,
        max_start_time: None,
        min_end_time: None,
        max_end_time: None,
        api_key: "key".to_string(),
    };
    assert!(props.course_key_key.is_none() && props.min_creation_time.is_none() && props.max_creation_time.is_none() && props.creator_user_id.is_none() && props.course_id.is_none() && props.max_uses.is_none() && props.course_membership_kind.is_none() && props.min_start_time.is_none() && props.max_start_time.is_none() && props.min_end_time.is_none() && props.max_end_time.is_none());
    assert_eq!(props.clone(), props);
}

#[test]
fn course_key_data_view_props_without_filters() {
    let props = CourseKeyDataViewProps {
        course_key_data_id: None,
        min_creation_time: None,
        max_creation_time: None,
        creator_user_id: None,
        course_key_key: None,
        active: None,
        course_id: None,
        max_uses: None,
        course_membership_kind: None,
        min_start_time: None,
        max_start_time: None,
        min_end_time: None,
        max_end_time: None,
        only_recent: false,
        api_key: "key".to_string(),
    };
    assert!(props.course_key_data_id.is_none() && props.min_creation_time.is_none() && props.max_creation_time.is_none() && props.creator_user_id.is_none() && props.course_key_key.is_none() && props.active.is_none() && props.course_id.is_none() && props.max_uses.is_none() && props.course_membership_kind.is_none() && props.min_start_time.is_none() && props.max_start_time.is_none() && props.min_end_time.is_none() && props.max_end_time.is_none());
    assert_eq!(props.clone(), props);
}

#[test]
fn course_membership_view_props_without_filters() {
    let props = CourseMembershipViewProps {
        course_membership_id: None,
        min_creation_time: None,
        max_creation_time: None,
        creator_user_id: None,
        user_id: None,
        course_id: None,
        course_membership_kind: None,
        course_membership_from_key: None,
        course_key_key: None,
        only_recent: false,
        api_key: "key".to_string(),
    };
    assert!(props.course_membership_id.is_none() && props.min_creation_time.is_none() && props.max_creation_time.is_none() && props.creator_user_id.is_none() && props.user_id.is_none() && props.course_id.is_none() && props.course_membership_kind.is_none() && props.course_membership_from_key.is_none() && props.course_key_key.is_none());
    assert_eq!(props.clone(), props);
}

#[test]
fn session_view_props_without_filters() {
    let props = SessionViewProps {
        session_id: None,
        min_creation_time: None,
        max_creation_time: None,
        creator_user_id: None,
        course_id: None,
        api_key: "key".to_string(),
    };
    assert!(props.session_id.is_none() && props.min_creation_time.is_none() && props.max_creation_time.is_none() && props.creator_user_id.is_none() && props.course_id.is_none());
    assert_eq!(props.clone(), props);
}

#[test]
fn session_data_view_props_without_filters() {
    let props = SessionDataViewProps {
        session_data_id: None,
        min_creation_time: None,
        max_creation_time: None,
        creator_user_id: None,
        session_id: None,
        name: None,
        partial_name: None,
        min_start_time: None,
        max_start_time: None,
        min_end_time: None,
        max_end_time: None,
        active: None,
        course_id: None,
        only_recent: false,
        api_key: "key".to_string(),
    };
    assert!(props.session_data_id.is_none() && props.min_creation_time.is_none() && props.max_creation_time.is_none() && props.creator_user_id.is_none() && props.session_id.is_none() && props.name.is_none() && props.partial_name.is_none() && props.min_start_time.is_none() && props.max_start_time.is_none() && props.min_end_time.is_none() && props.max_end_time.is_none() && props.active.is_none() && props.course_id.is_none());
    assert_eq!(props.clone(), props);
}

#[test]
fn session_request_view_props_without_filters() {
    let props = SessionRequestViewProps {
        session_request_id: None,
        min_creation_time: None,
        max_creation_time: None,
        creator_user_id: None,
        course_id: None,
        message: None,
        partial_message: None,
        min_start_time: None,
        max_start_time: None,
        min_end_time: None,
        max_end_time: None,
        responded: None,
        api_key: "key".to_string(),
    };
    assert!(props.session_request_id.is_none() && props.min_creation_time.is_none() && props.max_creation_time.is_none() && props.creator_user_id.is_none() && props.course_id.is_none() && props.message.is_none() && props.partial_message.is_none() && props.min_start_time.is_none() && props.max_start_time.is_none() && props.min_end_time.is_none() && props.max_end_time.is_none() && props.responded.is_none());
    assert_eq!(props.clone(), props);
}

#[test]
fn session_request_response_view_props_without_filters() {
    let props = SessionRequestResponseViewProps {
        session_request_id: None,
        min_creation_time: None,
        max_creation_time: None,
        creator_user_id: None,
        message: None,
        partial_message: None,
        accepted: None,
        commitment_id: None,
        attendee_user_id: None,
        course_id: None,
        min_start_time: None,
        max_start_time: None,
        min_end_time: None,
        max_end_time: None,
        session_id: None,
        api_key: "key".to_string(),
    };
    assert!(props.session_request_id.is_none() && props.min_creation_time.is_none() && props.max_creation_time.is_none() && props.creator_user_id.is_none() && props.message.is_none() && props.partial_message.is_none() && props.accepted.is_none() && props.commitment_id.is_none() && props.attendee_user_id.is_none() && props.course_id.is_none() && props.min_start_time.is_none() && props.max_start_time.is_none() && props.min_end_time.is_none() && props.max_end_time.is_none() && props.session_id.is_none());
    assert_eq!(props.clone(), props);
}

#[test]
fn commitment_view_props_without_filters() {
    let props = CommitmentViewProps {
        commitment_id: None,
        min_creation_time: None,
        max_creation_time: None,
        creator_user_id: None,
        attendee_user_id: None,
        session_id: None,
        course_id: None,
        min_start_time: None,
        max_start_time: None,
        min_end_time: None,
        max_end_time: None,
        active: None,
        from_request_response: None,
        only_recent: false,
        api_key: "key".to_string(),
    };
    assert!(props.commitment_id.is_none() && props.min_creation_time.is_none() && props.max_creation_time.is_none() && props.creator_user_id.is_none() && props.attendee_user_id.is_none() && props.session_id.is_none() && props.course_id.is_none() && props.min_start_time.is_none() && props.max_start_time.is_none() && props.min_end_time.is_none() && props.max_end_time.is_none() && props.active.is_none() && props.from_request_response.is_none());
    assert_eq!(props.clone(), props);
}

#[test]
fn encounter_view_props_without_filters() {
    let props = EncounterViewProps {
        encounter_id: None,
        min_creation_time: None,
        max_creation_time: None,
        creator_user_id: None,
        attendee_user_id: None,
        location_id: None,
        api_key: "key".to_string(),
    };
    assert!(props.encounter_id.is_none() && props.min_creation_time.is_none() && props.max_creation_time.is_none() && props.creator_user_id.is_none() && props.attendee_user_id.is_none() && props.location_id.is_none());
    assert_eq!(props.clone(), props);
}

#[test]
fn stay_view_props_without_filters() {
    let props = StayViewProps {
        stay_id: None,
        min_creation_time: None,
        max_creation_time: None,
        creator_user_id: None,
        attendee_user_id: None,
        location_id: None,
        api_key: "key".to_string(),
    };
    assert!(props.stay_id.is_none() && props.min_creation_time.is_none() && props.max_creation_time.is_none() && props.creator_user_id.is_none() && props.attendee_user_id.is_none() && props.location_id.is_none());
    assert_eq!(props.clone(), props);
}

#[test]
fn stay_data_view_props_without_filters() {
    let props = StayDataViewProps {
        stay_data_id: None,
        min_creation_time: None,
        max_creation_time: None,
        creator_user_id: None,
        stay_id: None,
        fst_encounter_id: None,
        snd_encounter_id: None,
        min_start_time: None,
        max_start_time: None,
        min_end_time: None,
        max_end_time: None,
        active: false,
        only_recent: false,
        attendee_user_id: None,
        location_id: None,
        api_key: "key".to_string(),
    };
    assert!(props.stay_data_id.is_none() && props.min_creation_time.is_none() && props.max_creation_time.is_none() && props.creator_user_id.is_none() && props.stay_id.is_none() && props.fst_encounter_id.is_none() && props.snd_encounter_id.is_none() && props.min_start_time.is_none() && props.max_start_time.is_none() && props.min_end_time.is_none() && props.max_end_time.is_none() && props.attendee_user_id.is_none() && props.location_id.is_none());
    assert_eq!(props.clone(), props);
}
