use radikal_grants::auth::{LoginForm, User, UserDatabase};
use radikal_grants::mail_config::{
    mail_config, smtp_options, AuthMechanism, ConnectionReuse, MailTable, Transport,
};
use radikal_grants::pages::{choose_hostname, contains, list_flags, related_key};
use radikal_grants::quota::{quota_computable, quota_state, QuotaState};
use radikal_grants::related::related_ids;
use radikal_grants::text::{to_decimal, to_hex_lower};

fn login(user: &str, password: &str) -> LoginForm {
    LoginForm { username: user.to_string(), password: password.to_string() }
}

#[test]
fn login_needs_the_stored_password() {
    let db = UserDatabase::new(vec![
        ("admin".to_string(), "wrong".to_string()),
        ("admin".to_string(), "test".to_string()),
        ("ben".to_string(), "pw".to_string()),
    ]);
    assert!(db.login(&login("admin", "test")));
    assert!(!db.login(&login("admin", "wrong")));
    assert!(db.login(&login("ben", "pw")));
    assert!(!db.login(&login("nobody", "")));
    assert!(!db.login(&login("Admin", "test")));
    assert_eq!(login("admin", "x").username(), "admin");
    assert_eq!(User::new("admin".to_string()).username(), "admin");
}

#[test]
fn quota_thresholds_are_whole_percent() {
    // 1 of 2 (with the new one): 50% keeps the non-white share
    assert_eq!(quota_state(false, true, &vec![(true, true)]), QuotaState::Within);
    // 3 of 4: 75% keeps the non-man share
    assert_eq!(quota_state(true, false, &vec![(true, true); 3]), QuotaState::Within);
    // 2 of 4: 50% breaks it
    assert_eq!(quota_state(true, false, &vec![(true, true), (true, true), (true, false)]), QuotaState::BreaksWomen);
    // nothing open yet: 0% of 1
    assert_eq!(quota_state(false, false, &vec![]), QuotaState::BreaksPoc);
}

#[test]
fn quota_counters_have_limits() {
    let many = vec![(true, true); 700];
    assert!(!quota_computable(false, false, &many));
    assert!(quota_computable(true, true, &many));
    assert_eq!(quota_state(true, true, &many), QuotaState::Within);
    let few = vec![(false, true); 600];
    assert!(quota_computable(false, false, &few));
}

#[test]
fn related_lists_other_grants_once_per_run() {
    let own = 7u128;
    assert_eq!(related_ids(&vec![1, 7, 2], &vec![2, 3, 7], own), vec![1, 2, 3]);
    assert_eq!(related_ids(&vec![7], &vec![7], own), Vec::<u128>::new());
    // only neighbouring repeats are dropped
    assert_eq!(related_ids(&vec![1, 2], &vec![1], own), vec![1, 2, 1]);
    assert_eq!(related_ids(&vec![], &vec![], own), Vec::<u128>::new());
}

#[test]
fn related_keys_are_prefixed() {
    assert_eq!(related_key("abc"), "related_abc");
}

fn table() -> MailTable {
    MailTable {
        transport: None,
        from: None,
        path: None,
        host: None,
        utf8: None,
        username: None,
        password: None,
        auth: None,
        connection_reuse: None,
    }
}

#[test]
fn mail_defaults_to_the_stub() {
    let c = mail_config(&table());
    assert!(matches!(c.transport, Transport::Stub));
    assert_eq!(c.from, "ben@example.org");
    let mut t = table();
    t.transport = Some("pigeon".into());
    t.from = Some("fund@example.org".into());
    let c = mail_config(&t);
    assert!(matches!(c.transport, Transport::Stub));
    assert_eq!(c.from, "fund@example.org");
}

#[test]
fn mail_to_files() {
    let mut t = table();
    t.transport = Some("file".into());
    let c = mail_config(&t);
    assert!(matches!(&c.transport, Transport::File(p) if p == "emails.log"));
    t.path = Some("/tmp/mails".into());
    let c = mail_config(&t);
    assert!(matches!(&c.transport, Transport::File(p) if p == "/tmp/mails"));
    t.transport = Some("sendmail".into());
    assert!(matches!(mail_config(&t).transport, Transport::Sendmail));
}

#[test]
fn mail_table_with_transport_and_path() {
    let mut t = table();
    t.transport = Some("file".into());
    t.from = Some("test@example.org".into());
    t.path = Some("/tmp/mail-dir".into());
    let c = mail_config(&t);
    assert!(matches!(&c.transport, Transport::File(p) if p == "/tmp/mail-dir"));
    assert_eq!(c.from, "test@example.org");
}

#[test]
fn mail_over_smtp() {
    let mut t = table();
    t.transport = Some("smtp".into());
    match mail_config(&t).transport {
        Transport::Smtp(s) => {
            assert_eq!(s.host, None);
            assert!(s.utf8);
            assert!(s.credentials.is_none());
            let o = smtp_options(&s).ok().unwrap();
            assert_eq!(o.auth, None);
            assert_eq!(o.reuse, None);
        },
        _ => panic!("not smtp"),
    }
    t.host = Some("mail.example.org".into());
    t.utf8 = Some(false);
    t.password = Some("pw".into());
    t.auth = Some("xoauth2".into());
    t.connection_reuse = Some("+12".into());
    match mail_config(&t).transport {
        Transport::Smtp(s) => {
            assert_eq!(s.host, Some("mail.example.org".to_string()));
            assert!(!s.utf8);
            assert_eq!(s.credentials, Some((String::new(), "pw".to_string())));
            let o = smtp_options(&s).ok().unwrap();
            assert_eq!(o.auth, Some(AuthMechanism::Xoauth2));
            assert_eq!(o.reuse, Some(ConnectionReuse::Limited(12)));
        },
        _ => panic!("not smtp"),
    }
    for (v, r) in [("true", ConnectionReuse::Unlimited), ("no", ConnectionReuse::NoReuse), ("false", ConnectionReuse::NoReuse)].iter() {
        t.connection_reuse = Some(v.to_string());
        match mail_config(&t).transport {
            Transport::Smtp(s) => assert_eq!(smtp_options(&s).ok().unwrap().reuse, Some(*r)),
            _ => panic!("not smtp"),
        }
    }
}

fn smtp_error(t: &MailTable) -> String {
    match mail_config(t).transport {
        Transport::Smtp(s) => smtp_options(&s).err().unwrap(),
        _ => panic!("not smtp"),
    }
}

#[test]
fn mail_settings_that_name_nothing_are_refused() {
    let mut t = table();
    t.transport = Some("smtp".into());
    t.auth = Some("kerberos".into());
    t.connection_reuse = Some("sometimes".into());
    assert_eq!(smtp_error(&t), "Unknown auth mechanism: kerberos");
    t.auth = Some("plain".into());
    assert_eq!(smtp_error(&t), "Unknown reuse param: sometimes");
    t.connection_reuse = Some("70000".into());
    assert_eq!(smtp_error(&t), "Unknown reuse param: 70000");
    // other transports do not look at them
    t.transport = Some("file".into());
    assert!(matches!(mail_config(&t).transport, Transport::File(_)));
}

#[test]
fn hostname_falls_back_in_order() {
    assert_eq!(choose_hostname(Some("a.org".into()), Some("b.org".into())), "a.org");
    assert_eq!(choose_hostname(None, Some("b.org".into())), "b.org");
    assert_eq!(choose_hostname(None, None), "localhost");
}

#[test]
fn list_flags_look_for_the_words() {
    assert_eq!(list_flags(&Some("pending".into())), (true, false));
    assert_eq!(list_flags(&Some("archived,pending".into())), (true, true));
    assert_eq!(list_flags(&Some("pend".into())), (false, false));
    assert_eq!(list_flags(&None), (false, false));
    assert!(contains("abc", ""));
    assert!(contains("abc", "bc"));
    assert!(!contains("ab", "abc"));
}

#[test]
fn numbers_render_as_display_does() {
    assert_eq!(to_decimal(0), "0");
    assert_eq!(to_decimal(10), "10");
    assert_eq!(to_decimal(4294967295), "4294967295");
    assert_eq!(to_hex_lower(&vec![0x0a, 0xff, 0x00]), "0aff00");
}
