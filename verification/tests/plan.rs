use pds_migration::plan::{MigrationPlan, PlanError};

fn plan_for(handle: &str, invite_code: &str) -> Result<MigrationPlan, PlanError> {
    MigrationPlan::new(
        "alice.old.example".to_string(),
        "old-secret".to_string(),
        "https://new.example".to_string(),
        "alice@example.com".to_string(),
        handle.to_string(),
        "new-secret".to_string(),
        invite_code.to_string(),
        Some(100),
    )
}

#[test]
fn keeps_the_inputs() {
    let plan = plan_for("alice.new.example", "invite-1234").unwrap();
    assert_eq!(plan.identifier(), "alice.old.example");
    assert_eq!(plan.source_secret(), "old-secret");
    assert_eq!(plan.destination_url(), "https://new.example");
    assert_eq!(plan.email(), "alice@example.com");
    assert_eq!(plan.handle(), "alice.new.example");
    assert_eq!(plan.destination_secret(), "new-secret");
    assert_eq!(plan.invite_code(), &Some("invite-1234".to_string()));
    assert_eq!(plan.blob_page_limit(), Some(100));
}

#[test]
fn takes_an_empty_invite_code_for_none() {
    let plan = plan_for("alice.new.example", "").unwrap();
    assert_eq!(plan.invite_code(), &None);
}

#[test]
fn accepts_the_documented_handles() {
    for handle in ["jay.bsky.social", "8.cn", "name.t--t", "XX.LCS.MIT.EDU", "a.co", "xn--ls8h.test", "laptop.local"] {
        assert!(plan_for(handle, "").is_ok(), "{handle}");
    }
}

#[test]
fn refuses_what_is_no_handle() {
    for handle in ["jo@hn.test", "john..test", "xn--bcher-.tld", "john.0", "cn.8", "org", "name.org.", "", " alice.example"] {
        assert_eq!(plan_for(handle, "").err(), Some(PlanError::InvalidHandle), "{handle}");
    }
}

#[test]
fn refuses_a_handle_of_more_than_253_characters() {
    let label = "a".repeat(61);
    let longest = format!("{label}.{label}.{label}.{label}.abcde");
    assert_eq!(longest.len(), 253);
    assert!(plan_for(&longest, "").is_ok());
    let too_long = format!("{label}.{label}.{label}.{label}.abcdef");
    assert_eq!(plan_for(&too_long, "").err(), Some(PlanError::HandleTooLong));
}

#[test]
fn counts_the_length_of_a_handle_in_bytes() {
    let wide = format!("{}.example", "\u{e9}".repeat(123));
    assert_eq!(wide.chars().count(), 131);
    assert_eq!(wide.len(), 254);
    assert_eq!(plan_for(&wide, "").err(), Some(PlanError::HandleTooLong));
    let narrower = format!("{}.example", "\u{e9}".repeat(122));
    assert_eq!(narrower.len(), 252);
    assert_eq!(plan_for(&narrower, "").err(), Some(PlanError::InvalidHandle));
}

#[test]
fn words_the_faults_of_a_handle() {
    assert_eq!(PlanError::HandleTooLong.message(), "Handle too long");
    assert_eq!(PlanError::InvalidHandle.message(), "Invalid handle");
}
