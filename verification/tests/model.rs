use blake2::{Blake2b, Digest};
use radikal_grants::model::{
    Bank, BankDetails, EventInfo, ExtraInfo, GrantInfo, Identity, Person, PersonalDetails,
};

fn details(email: &str) -> PersonalDetails {
    let mut d = PersonalDetails::default();
    d.set("email", email.to_string()).unwrap();
    d.set("name", "Ben".to_string()).unwrap();
    d
}

fn expected_key(text: &str) -> String {
    let digest = Blake2b::new().chain(text.as_bytes()).finalize();
    format!("{:x}", digest)
}

#[test]
fn identities_are_read_from_their_keys() {
    let cases = [
        ("woc", Identity::WoC),
        ("bipoc", Identity::BIPoC),
        ("sinti_roma", Identity::SintiRoma),
        ("muslima", Identity::Muslima),
        ("jewish", Identity::Jewish),
        ("non_white", Identity::NonWhite),
        ("trans", Identity::Trans),
        ("woman", Identity::Woman),
        ("mother", Identity::Mother),
        ("non_man", Identity::NonMan),
        ("with_disability", Identity::WithDisability),
        ("inter", Identity::Inter),
        ("agender", Identity::Agender),
    ];
    for (k, i) in cases.iter() {
        assert_eq!(Identity::from(k), Ok(*i));
    }
    assert_eq!(Identity::from("WoC"), Err("Unknown key WoC".to_string()));
    assert_eq!(Identity::from(""), Err("Unknown key ".to_string()));
}

#[test]
fn personal_details_fields_are_set() {
    let mut d = PersonalDetails::default();
    assert_eq!(d.set("about_me", "hello".into()), Ok(()));
    assert_eq!(d.set("online_personas", "@ben".into()), Ok(()));
    assert_eq!(d.about_me, "hello");
    assert_eq!(d.online_personas, Some("@ben".to_string()));
    assert_eq!(d.set("age", "3".into()), Err("Unknown key age on personal details".to_string()));
    assert_eq!(d.about_me, "hello");
}

#[test]
fn bank_details_fields_are_set() {
    let mut b = BankDetails::default();
    b.set("iban", "DE00".into()).unwrap();
    b.set("bic", "XYZ".into()).unwrap();
    b.set("bank_name", "GLS".into()).unwrap();
    b.set("account_name", "Ben".into()).unwrap();
    assert_eq!(b.iban, "DE00");
    assert_eq!(b.bic, Some("XYZ".to_string()));
    assert_eq!(b.bank_name, Some("GLS".to_string()));
    assert_eq!(b.account_name, Some("Ben".to_string()));
    assert_eq!(b.set("iban ", "x".into()), Err("Unknown key iban  on bank info".to_string()));
}

#[test]
fn grant_info_amount_is_parsed() {
    let mut g = GrantInfo::default();
    assert_eq!(g.set("amount", "4294967295".into()), Ok(()));
    assert_eq!(g.amount, 4294967295);
    assert_eq!(
        g.set("amount", "4294967296".into()),
        Err("parsing amount failed: number too large to fit in target type".to_string())
    );
    assert_eq!(g.amount, 4294967295);
    assert_eq!(g.set("amount", "-1".into()), Err("parsing amount failed: invalid digit found in string".to_string()));
    assert_eq!(g.set("cost_breakdown", "Zug".into()), Ok(()));
    assert_eq!(g.cost_breakdown, "Zug");
    assert_eq!(g.set("sum", "1".into()), Err("Unknown key sum on grant info".to_string()));
}

#[test]
fn extra_and_event_info_fields_are_set() {
    let mut x = ExtraInfo::default();
    x.set("newsletter_fund", "".into()).unwrap();
    x.set("accepted_privacy", "".into()).unwrap();
    assert!(x.newsletter_fund);
    assert_eq!(x.accepted_privacy, Some(true));
    assert_eq!(x.set("x", "".into()), Err("Unknown key x on extra info".to_string()));
    let mut e = EventInfo::default();
    e.set("organiser", "us".into()).unwrap();
    e.set("why", "because".into()).unwrap();
    e.set("description", "d".into()).unwrap();
    assert_eq!(e.organiser, "us");
    assert_eq!(e.why, "because");
    assert_eq!(e.description, "d");
    assert_eq!(e.set("when", "".into()), Err("Unknown key when on event info".to_string()));
}

#[test]
fn person_key_is_the_hash_of_the_normalised_address() {
    let p = Person::Detail(details("Ben@Example.org"));
    let key = p.id();
    assert_eq!(key, expected_key("ben@example.org"));
    assert_eq!(key.len(), 128);
    assert_ne!(key, "Ben@Example.org");
    let q = Person::Detail(details(" ben @example.ORG "));
    assert_eq!(q.id(), key);
    let other = Person::Detail(details("ben@example.com"));
    assert_ne!(other.id(), key);
}

#[test]
fn bank_key_is_the_hash_of_the_normalised_iban() {
    let mut b = BankDetails::default();
    b.set("iban", "OG00 12345 6789".into()).unwrap();
    let bank = Bank::Detail(b);
    assert_eq!(bank.id(), expected_key("og00123456789"));
}

#[test]
fn archiving_a_person_keeps_only_the_key() {
    let mut p = Person::Detail(details("ben@example.org"));
    let key = p.id();
    assert_eq!(p.get_addr_info(), Some(("ben@example.org".to_string(), "Ben".to_string())));
    p.archive();
    match &p {
        Person::Anonymised(k) => assert_eq!(k, &key),
        _ => panic!("still detailed"),
    }
    assert_eq!(p.id(), key);
    assert_eq!(p.get_addr_info(), None);
    p.archive();
    assert_eq!(p.id(), key);
}

#[test]
fn archiving_a_bank_keeps_only_the_key() {
    let mut b = BankDetails::default();
    b.set("iban", "DE 1234".into()).unwrap();
    let mut bank = Bank::Detail(b);
    let key = bank.id();
    bank.archive();
    assert!(matches!(&bank, Bank::Anonymised(k) if k == &key));
    assert_eq!(bank.id(), key);
}
