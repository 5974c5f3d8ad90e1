use radikal_grants::forms::{AktivistiGrantForm, EventGrantForm};
use radikal_grants::model::Identity;

fn default_event_grant_fields() -> Vec<(String, String)> {
    vec![
        ("grant_amount", "150"),
        ("grant_cost_breakdown", "Bahnfahrt"),
        ("event_name", "radikal.jetzt workshop"),
        ("event_description", "Awesome Workshop, den wo es geht"),
        ("event_organiser", "radikal.jetzt"),
        ("event_why", "Weil geil."),
        ("person_name", "ben"),
        ("person_about_me", "it's me, mario"),
        ("person_email", "ben@example.org"),
        ("bank_iban", "DE 1234 5678 42"),
        ("extra_accepted_privacy", "true"),
        ("extra_accepted_coc", "true"),
    ]
    .iter()
    .map(|(k, v)| (k.to_string(), v.to_string()))
    .collect()
}

fn pairs(items: &[(&str, &str)]) -> Vec<(String, String)> {
    items.iter().map(|(k, v)| (k.to_string(), v.to_string())).collect()
}

#[test]
fn default_fields_make_a_valid_form() {
    let form = EventGrantForm::from_items(&default_event_grant_fields(), false).unwrap();
    assert_eq!(form.grant_info.amount, 150);
    assert_eq!(form.grant_info.cost_breakdown, "Bahnfahrt");
    assert_eq!(form.event_info.name, "radikal.jetzt workshop");
    assert_eq!(form.person.email, "ben@example.org");
    assert_eq!(form.bank.iban, "DE 1234 5678 42");
    assert_eq!(form.extra.accepted_privacy, Some(true));
    assert_eq!(form.extra.accepted_coc, Some(true));
    assert!(!form.extra.newsletter_fund);
    assert!(form.identities.is_empty());
    assert!(form.validate().is_ok());
}

#[test]
fn unknown_fields_are_skipped_when_lenient() {
    let mut fields = default_event_grant_fields();
    fields.push(("this_doesnt_exist".to_string(), "false".to_string()));
    let form = EventGrantForm::from_items(&fields, false).unwrap();
    assert!(form.validate().is_ok());
}

#[test]
fn unknown_fields_are_refused_when_strict() {
    let mut fields = default_event_grant_fields();
    fields.push(("this_doesnt_exist".to_string(), "false".to_string()));
    let err = EventGrantForm::from_items(&fields, true).err().unwrap();
    assert_eq!(err, "Unknown key this_doesnt_exist");
}

#[test]
fn every_default_field_is_required() {
    let params = default_event_grant_fields();
    for x in 0..params.len() {
        let mut local = params.clone();
        let item = local.remove(x);
        let form = EventGrantForm::from_items(&local, false).unwrap();
        assert!(form.validate().is_err(), "Worked despite {:?} missing", item);
    }
}

#[test]
fn validation_names_the_failing_fields() {
    let fields = pairs(&[("grant_amount", "201"), ("event_description", "too short")]);
    let form = EventGrantForm::from_items(&fields, false).unwrap();
    let errors = form.validate().err().unwrap();
    assert_eq!(
        errors,
        vec![
            "grant_info.amount",
            "grant_info.cost_breakdown",
            "event_info.name",
            "event_info.description",
            "event_info.organiser",
            "event_info.why",
            "person.name",
            "person.about_me",
            "person.email",
            "bank.iban",
            "extra.accepted_privacy",
            "extra.accepted_coc",
        ]
    );
}

#[test]
fn amount_bounds_are_inclusive() {
    let mut fields = default_event_grant_fields();
    fields[0].1 = "200".to_string();
    assert!(EventGrantForm::from_items(&fields, false).unwrap().validate().is_ok());
    fields[0].1 = "1".to_string();
    assert!(EventGrantForm::from_items(&fields, false).unwrap().validate().is_ok());
    fields[0].1 = "0".to_string();
    let errors = EventGrantForm::from_items(&fields, false).unwrap().validate().err().unwrap();
    assert_eq!(errors, vec!["grant_info.amount"]);
}

#[test]
fn lengths_count_characters() {
    let mut fields = default_event_grant_fields();
    // five characters, more than five bytes
    fields[1].1 = "äöüßé".to_string();
    assert!(EventGrantForm::from_items(&fields, false).unwrap().validate().is_ok());
    fields[1].1 = "äöüß".to_string();
    let errors = EventGrantForm::from_items(&fields, false).unwrap().validate().err().unwrap();
    assert_eq!(errors, vec!["grant_info.cost_breakdown"]);
}

#[test]
fn bad_email_is_reported() {
    let mut fields = default_event_grant_fields();
    fields[8].1 = "not an address".to_string();
    let errors = EventGrantForm::from_items(&fields, false).unwrap().validate().err().unwrap();
    assert_eq!(errors, vec!["person.email"]);
}

#[test]
fn amount_that_does_not_parse_is_an_error() {
    let err = EventGrantForm::from_items(&pairs(&[("grant_amount", "lots")]), false).err().unwrap();
    assert_eq!(err, "parsing amount failed: invalid digit found in string");
    let err = EventGrantForm::from_items(&pairs(&[("grant_amount", "")]), false).err().unwrap();
    assert_eq!(err, "parsing amount failed: cannot parse integer from empty string");
    let form = EventGrantForm::from_items(&pairs(&[("grant_amount", "+7")]), false).unwrap();
    assert_eq!(form.grant_info.amount, 7);
}

#[test]
fn unknown_sub_keys_are_errors() {
    let cases = [
        ("grant_colour", "Unknown key colour on grant info"),
        ("event_date", "Unknown key date on event info"),
        ("person_phone", "Unknown key phone on personal details"),
        ("bank_branch", "Unknown key branch on bank info"),
        ("extra_cake", "Unknown key cake on extra info"),
        ("id_wizard", "Unknown key wizard"),
    ];
    for (key, msg) in cases.iter() {
        let err = EventGrantForm::from_items(&pairs(&[(key, "x")]), false).err().unwrap();
        assert_eq!(&err, msg);
    }
}

#[test]
fn first_refused_field_decides() {
    let fields = pairs(&[("person_phone", "1"), ("bank_branch", "2")]);
    let err = EventGrantForm::from_items(&fields, false).err().unwrap();
    assert_eq!(err, "Unknown key phone on personal details");
}

#[test]
fn identities_are_collected_in_order() {
    let fields = pairs(&[("id_woc", "y"), ("id_agender", "y"), ("id_non_man", "y")]);
    let form = EventGrantForm::from_items(&fields, false).unwrap();
    assert_eq!(form.identities, vec![Identity::WoC, Identity::Agender, Identity::NonMan]);
}

#[test]
fn later_values_override_earlier_ones() {
    let fields = pairs(&[("person_name", "a"), ("person_name", "b"), ("event_url", "u"), ("extra_comment", "c")]);
    let form = EventGrantForm::from_items(&fields, false).unwrap();
    assert_eq!(form.person.name, "b");
    assert_eq!(form.event_info.url, Some("u".to_string()));
    assert_eq!(form.extra.comment, Some("c".to_string()));
}

#[test]
fn checkboxes_count_whatever_their_value() {
    let fields = pairs(&[("extra_accepted_coc", "false"), ("extra_newsletter_monthly", "no")]);
    let form = EventGrantForm::from_items(&fields, false).unwrap();
    assert_eq!(form.extra.accepted_coc, Some(true));
    assert!(form.extra.newsletter_monthly);
}

#[test]
fn aktivisti_form_reads_identity_keys_with_the_underscore() {
    let err = AktivistiGrantForm::from_items(&pairs(&[("id_woc", "y")]), false).err().unwrap();
    assert_eq!(err, "Unknown key _woc");
}

#[test]
fn aktivisti_form_has_no_event_part() {
    let err = AktivistiGrantForm::from_items(&pairs(&[("event_name", "x")]), true).err().unwrap();
    assert_eq!(err, "Unknown key event_name");
    let form = AktivistiGrantForm::from_items(&pairs(&[("event_name", "x")]), false).unwrap();
    let errors = form.validate().err().unwrap();
    assert_eq!(errors[0], "grant_info.amount");
    assert_eq!(errors.len(), 8);
}
