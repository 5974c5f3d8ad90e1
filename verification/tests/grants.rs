use radikal_grants::forms::EventGrantForm;
use radikal_grants::grant::{
    ArchivedState, Archivable, Confirmation, EventGrantDetails, GrantProcess, GrantState, Model,
    NextStageForm, RejectionReason,
};
use radikal_grants::model::{Bank, Identity, Person};
use radikal_grants::quota::{check_identities, grant_quota, quota_relevant, QuotaState};
use radikal_grants::title::{split_at_spaces, ICONS};

fn fields() -> Vec<(String, String)> {
    vec![
        ("grant_amount", "150"),
        ("grant_cost_breakdown", "Bahnfahrt"),
        ("event_name", "radikal.jetzt workshop"),
        ("event_description", "Awesome Workshop, den wo es geht"),
        ("event_organiser", "radikal.jetzt"),
        ("event_why", "Weil geil."),
        ("person_name", "ben"),
        ("person_about_me", "it's me, mario"),
        ("person_email", "ben@example.org"),
        ("bank_iban", "DE 1234 5678 42"),
        ("extra_accepted_privacy", "true"),
        ("extra_accepted_coc", "true"),
    ]
    .iter()
    .map(|(k, v)| (k.to_string(), v.to_string()))
    .collect()
}

fn pending_process() -> GrantProcess<EventGrantDetails> {
    let form = EventGrantForm::from_items(&fields(), false).unwrap();
    GrantProcess::new_at(EventGrantDetails::from(form), 1000, "title".to_string(), "tok".to_string())
}

/// A confirmed process: incoming, with no moves yet.
fn process() -> GrantProcess<EventGrantDetails> {
    let mut p = pending_process();
    p.state = GrantState::Incoming;
    p
}

fn state_of(p: &GrantProcess<EventGrantDetails>) -> &'static str {
    p.state.short_name()
}

#[test]
fn new_process_is_pending_without_moves() {
    let p = pending_process();
    assert_eq!(state_of(&p), "pending");
    assert!(matches!(&p.state, GrantState::Pending(t) if t == "tok"));
    assert_eq!(p.title, "title");
    assert_eq!(p.created, 1000);
    assert_eq!(p.last_updated, 1000);
    assert!(p.activities.is_empty());
}

#[test]
fn regular_flow_reaches_each_stage() {
    let mut p = process();
    assert_eq!(p.transition_to_at("checking", "admin".into(), 150, None, 1001), Ok(None));
    assert_eq!(state_of(&p), "checking");
    assert_eq!(p.transition_to_at("board", "admin".into(), 150, None, 1002), Ok(None));
    assert_eq!(state_of(&p), "board");
    assert_eq!(p.transition_to_at("accepted", "admin".into(), 120, None, 1003), Ok(None));
    assert_eq!(state_of(&p), "accepted");
    assert!(matches!(p.state, GrantState::Accepted(120)));
    let note = p.transition_to_at("paid", "admin".into(), 150, None, 1004).unwrap();
    assert_eq!(
        note,
        Some((
            "Dein Radikal*Fund Antrag wurde bewilligt, das Geld ist unterwegs".to_string(),
            "grants/emails/ausgezahlt".to_string()
        ))
    );
    assert!(matches!(p.state, GrantState::Paid(120)));
    assert_eq!(p.last_updated, 1004);
    assert_eq!(p.created, 1000);
    assert_eq!(p.activities.len(), 4);
    // latest first; each move starts where the one before ended
    assert!(matches!(p.activities[0].to, GrantState::Paid(120)));
    assert!(matches!(p.activities[0].from, GrantState::Accepted(120)));
    assert!(matches!(p.activities[3].from, GrantState::Incoming));
    assert!(matches!(p.activities[3].to, GrantState::Checking));
    assert_eq!(p.activities[3].when, 1001);
    assert_eq!(p.activities[3].by, "admin");
}

#[test]
fn asking_for_the_current_stage_changes_nothing() {
    let mut p = process();
    assert_eq!(p.transition_to_at("incoming", "admin".into(), 150, None, 2000), Ok(None));
    assert_eq!(p.last_updated, 1000);
    assert!(p.activities.is_empty());
}

#[test]
fn unsupported_moves_are_refused() {
    let mut p = process();
    let err = p.transition_to_at("paid", "admin".into(), 150, None, 2000).err().unwrap();
    assert_eq!(err, "Unsupported transition Incoming => paid");
    let err = p.transition_to_at("somewhere", "admin".into(), 150, None, 2000).err().unwrap();
    assert_eq!(err, "Unsupported transition Incoming => somewhere");
    assert_eq!(state_of(&p), "incoming");
    assert!(p.activities.is_empty());
    assert_eq!(p.last_updated, 1000);
}

#[test]
fn refusal_message_shows_the_state_as_debug_does() {
    let mut p = process();
    p.transition_to_at("formal_reject", "admin".into(), 1, Some("no \"iban\"".into()), 1).unwrap();
    let err = p.transition_to_at("draft", "admin".into(), 1, None, 2).err().unwrap();
    assert_eq!(err, "Unsupported transition Archived(Rejected(Formal(\"no \\\"iban\\\"\"))) => draft");
}

#[test]
fn rejecting_archives_and_anonymises() {
    let mut p = process();
    let person_id = p.details.person.id();
    let bank_id = p.details.bank.id();
    let note = p.transition_to_at("reject", "board".into(), 150, Some("too late".into()), 3000).unwrap();
    assert_eq!(
        note,
        Some(("Dein Radikal*Fund Antrag wurde abgelehnt".to_string(), "grants/emails/abgelehnt".to_string()))
    );
    match &p.state {
        GrantState::Archived(ArchivedState::Rejected(RejectionReason::Other(c))) => assert_eq!(c, "too late"),
        _ => panic!("not rejected"),
    }
    assert!(matches!(p.details.person, Person::Anonymised(_)));
    assert!(matches!(p.details.bank, Bank::Anonymised(_)));
    assert_eq!(p.details.person.id(), person_id);
    assert_eq!(p.details.bank.id(), bank_id);
    assert_eq!(p.details.grant_info.amount, 150);
    assert_eq!(p.activities[0].comment, Some("too late".to_string()));
}

#[test]
fn reject_without_comment_has_empty_reason() {
    let mut p = process();
    p.transition_to_at("reject", "board".into(), 150, None, 3000).unwrap();
    match &p.state {
        GrantState::Archived(ArchivedState::Rejected(RejectionReason::Other(c))) => assert_eq!(c, ""),
        _ => panic!("not rejected"),
    }
}

#[test]
fn other_endings_notify_or_not() {
    let mut p = process();
    let note = p.transition_to_at("failed", "board".into(), 150, None, 1).unwrap();
    assert_eq!(
        note,
        Some(("Dein Radikal*Fund Antrag wurde nicht gefundet".to_string(), "grants/emails/not_funded".to_string()))
    );
    assert_eq!(p.transition_to_at("failed", "board".into(), 150, None, 2), Ok(None));
    let mut p = process();
    assert_eq!(p.transition_to_at("retracted", "x".into(), 150, None, 1), Ok(None));
    assert!(matches!(p.state, GrantState::Archived(ArchivedState::Retracted)));
    let mut p = process();
    let note = p.transition_to_at("outofquota", "x".into(), 150, None, 1).unwrap();
    assert!(note.is_some());
    assert!(matches!(p.state, GrantState::Archived(ArchivedState::Rejected(RejectionReason::OutOfQuota))));
}

#[test]
fn funding_keeps_the_accepted_amount() {
    let mut p = process();
    p.transition_to_at("accepted", "x".into(), 80, None, 1).unwrap();
    p.transition_to_at("funded", "x".into(), 150, None, 2).unwrap();
    assert!(matches!(p.state, GrantState::Archived(ArchivedState::Funded(80))));
    assert!(matches!(p.details.person, Person::Anonymised(_)));
    let mut p = process();
    p.transition_to_at("funded", "x".into(), 150, None, 1).unwrap();
    assert!(matches!(p.state, GrantState::Archived(ArchivedState::Funded(150))));
    let mut p = process();
    p.transition_to_at("accepted", "x".into(), 70, None, 1).unwrap();
    p.transition_to_at("paid", "x".into(), 150, None, 2).unwrap();
    p.transition_to_at("arcbive", "x".into(), 150, None, 3).unwrap();
    assert!(matches!(p.state, GrantState::Archived(ArchivedState::Funded(70))));
}

#[test]
fn archived_grants_can_be_reopened_for_checking() {
    let mut p = process();
    p.transition_to_at("outofmoney", "x".into(), 150, None, 1).unwrap();
    assert_eq!(p.transition_to_at("rejected", "x".into(), 150, None, 2), Ok(None));
    p.transition_to_at("checking", "x".into(), 150, None, 3).unwrap();
    assert_eq!(state_of(&p), "checking");
    // the details stay anonymised
    assert!(matches!(p.details.person, Person::Anonymised(_)));
}

#[test]
fn debug_text_matches_debug_format() {
    assert_eq!(GrantState::Accepted(42).debug_text(), "Accepted(42)");
    assert_eq!(GrantState::Paid(0).debug_text(), "Paid(0)");
    assert_eq!(
        GrantState::Archived(ArchivedState::Funded(4294967295)).debug_text(),
        "Archived(Funded(4294967295))"
    );
    assert_eq!(
        GrantState::Archived(ArchivedState::Rejected(RejectionReason::OutOfMoney)).debug_text(),
        "Archived(Rejected(OutOfMoney))"
    );
    assert_eq!(GrantState::Draft.debug_text(), "Draft");
}

#[test]
fn model_moves_with_the_requested_amount() {
    let form = EventGrantForm::from_items(&fields(), false).unwrap();
    let mut m = Model::from_event_grant(form);
    assert_eq!(m.state_name(), Some("pending"));
    assert!(m.email_token().is_some());
    let title = m.title().unwrap().clone();
    let icons = split_at_spaces(ICONS);
    assert_eq!(icons.len(), 440);
    assert_eq!(title.chars().count() >= 5, true);
    let next = NextStageForm { next: "accepted".to_string(), comment: None, send_mail: false };
    assert_eq!(m.next_stage("admin".to_string(), next), Ok(None));
    assert_eq!(m.state_name(), Some("accepted"));
    match &m {
        Model::EventGrant(g) => {
            assert!(matches!(g.state, GrantState::Accepted(150)));
            assert_eq!(g.activities[0].by, "admin");
        },
        _ => panic!("wrong kind"),
    }
    assert_eq!(m.get_addr_info(), Some(("ben@example.org".to_string(), "ben".to_string())));
}

#[test]
fn archiving_details_twice_changes_nothing_more() {
    let mut d = EventGrantDetails::from(EventGrantForm::from_items(&fields(), false).unwrap());
    d.archive();
    let first = (d.person.id(), d.bank.id());
    d.archive();
    assert_eq!((d.person.id(), d.bank.id()), first);
    assert!(d.person.get_addr_info().is_none());
}

fn pending_model() -> Model {
    Model::EventGrant(pending_process())
}

#[test]
fn confirming_with_the_token_makes_the_grant_incoming() {
    let mut m = pending_model();
    assert_eq!(m.email_token(), Some(&"tok".to_string()));
    assert_eq!(m.confirm_email("tok"), Confirmation::Confirmed);
    assert_eq!(m.state_name(), Some("incoming"));
    assert_eq!(m.email_token(), None);
    match &m {
        Model::EventGrant(g) => {
            assert_eq!(g.activities.len(), 1);
            assert_eq!(g.activities[0].by, "_Antragstellerin_");
            assert!(matches!(&g.activities[0].from, GrantState::Pending(t) if t == "tok"));
            assert!(matches!(g.activities[0].to, GrantState::Incoming));
        },
        _ => panic!("wrong kind"),
    }
    assert_eq!(m.confirm_email("tok"), Confirmation::AlreadyConfirmed);
    assert_eq!(Confirmation::AlreadyConfirmed.message(), "Email bereits bestätigt.");
    assert_eq!(Confirmation::Confirmed.message(), "Email Adresse bestätigt");
}

#[test]
fn a_wrong_token_changes_nothing() {
    let mut m = pending_model();
    assert_eq!(m.confirm_email("other"), Confirmation::TokenMismatch);
    assert_eq!(m.state_name(), Some("pending"));
    assert_eq!(Confirmation::TokenMismatch.message(), "Token stimmt nicht überein");
}

#[test]
fn a_pending_grant_can_be_handled_like_others() {
    let mut p = pending_process();
    assert_eq!(p.transition_to_at("pending", "admin".into(), 150, None, 2000), Ok(None));
    assert!(p.activities.is_empty());
    assert_eq!(p.transition_to_at("checking", "admin".into(), 150, None, 2000), Ok(None));
    assert_eq!(state_of(&p), "checking");
    let err = p.transition_to_at("incoming", "admin".into(), 150, None, 2001).err().unwrap();
    assert_eq!(err, "Unsupported transition Checking => incoming");
    assert_eq!(GrantState::Pending("a\"b".to_string()).debug_text(), "Pending(\"a\\\"b\")");
}

#[test]
fn simple_requests_carry_no_comment() {
    let f = NextStageForm::new_simple("incoming");
    assert_eq!(f.next, "incoming");
    assert_eq!(f.comment, None);
    assert!(!f.send_mail);
}

#[test]
fn listing_groups_grants_by_state_in_index_order() {
    let entries = vec![
        (1u128, pending_model()),
        (2u128, Model::EventGrant(process())),
        (3u128, pending_model()),
    ];
    let groups = radikal_grants::pages::group_by_state(entries);
    assert_eq!(groups.len(), 2);
    assert_eq!(groups[0].0, "pending");
    assert_eq!(groups[0].1.iter().map(|e| e.0).collect::<Vec<_>>(), vec![1, 3]);
    assert_eq!(groups[1].0, "incoming");
    assert_eq!(groups[1].1.iter().map(|e| e.0).collect::<Vec<_>>(), vec![2]);
    assert!(radikal_grants::pages::group_by_state(vec![]).is_empty());
}

#[test]
fn keys_are_128_hex_digits() {
    let d = EventGrantDetails::from(EventGrantForm::from_items(&fields(), false).unwrap());
    assert_eq!(d.person.id().len(), 128);
    assert_eq!(d.bank.id().len(), 128);
    assert!(d.person.id().chars().all(|c| c.is_ascii_hexdigit() && !c.is_ascii_uppercase()));
}

/// A submitted event grant whose applicant states the identities keyed `ids`.
fn submitted(ids: &[&str]) -> Model {
    let mut f = fields();
    for id in ids {
        f.push((format!("id_{}", id), "y".to_string()));
    }
    Model::from_event_grant(EventGrantForm::from_items(&f, false).unwrap())
}

fn paid(ids: &[&str]) -> Model {
    let mut m = submitted(ids);
    m.next_stage("admin".to_string(), NextStageForm::new_simple("accepted")).unwrap();
    m.next_stage("admin".to_string(), NextStageForm::new_simple("paid")).unwrap();
    m
}

/// Four paid grants to women of colour, three to non-men, two to neither.
fn archive() -> Vec<Model> {
    let mut open = Vec::new();
    for _ in 0..4 {
        open.push(paid(&["woc"]));
    }
    for _ in 0..3 {
        open.push(paid(&["non_man"]));
    }
    for _ in 0..2 {
        open.push(paid(&[]));
    }
    open
}

/// The quota state of a new grant with identities `ids`, listed among the
/// open grants as the index lists it.
fn quota_of_new(ids: &[&str]) -> &'static str {
    let new = submitted(ids);
    assert_eq!(new.state_name(), Some("pending"));
    let mut open = archive();
    open.push(submitted(ids));
    grant_quota(&new, &open).unwrap().name()
}

#[test]
fn quota_blocks() {
    assert_eq!(quota_of_new(&[]), "breaks_poc");
}

#[test]
fn quota_blocks_bipoc() {
    assert_eq!(quota_of_new(&["bipoc"]), "breaks_women");
}

#[test]
fn quota_accepts_woc() {
    assert_eq!(quota_of_new(&["woc"]), "ok");
}

#[test]
fn quota_accepts_non_man_poc() {
    assert_eq!(quota_of_new(&["bipoc", "agender"]), "ok");
}

#[test]
fn quota_accepts_non_man_muslima() {
    assert_eq!(quota_of_new(&["muslima", "non_man"]), "ok");
}

#[test]
fn identities_give_the_quota_flags() {
    assert_eq!(check_identities(&vec![]), (false, false));
    assert_eq!(check_identities(&vec![Identity::WoC]), (true, true));
    assert_eq!(check_identities(&vec![Identity::BIPoC]), (true, false));
    assert_eq!(check_identities(&vec![Identity::Agender]), (false, true));
    assert_eq!(check_identities(&vec![Identity::WithDisability, Identity::NonMan]), (false, true));
    assert_eq!(check_identities(&vec![Identity::Jewish, Identity::Mother]), (true, true));
}

#[test]
fn only_granted_money_counts_for_the_quota() {
    assert!(!quota_relevant(&submitted(&["woc"])));
    assert!(quota_relevant(&paid(&["woc"])));
    let mut m = submitted(&[]);
    m.next_stage("admin".to_string(), NextStageForm::new_simple("accepted")).unwrap();
    assert!(quota_relevant(&m));
    m.next_stage("admin".to_string(), NextStageForm::new_simple("funded")).unwrap();
    assert!(quota_relevant(&m));
    let mut r = submitted(&[]);
    r.next_stage("admin".to_string(), NextStageForm::new_simple("reject")).unwrap();
    assert!(!quota_relevant(&r));
    // with nothing granted yet, a new grant by a man who is not a person of
    // colour breaks the non-white share
    assert_eq!(grant_quota(&submitted(&[]), &vec![submitted(&["woc"])]), Some(QuotaState::BreaksPoc));
}
