//! How the `mail` table of the configuration chooses and sets up the way
//! e-mails are sent.

use vstd::prelude::*;
use vstd::string::*;
use crate::text::{str_eq, join, owned};
use crate::outside::{parse_u16, parse_unsigned};

verus! {

/// The values of the `mail` table, each present when set to a value of the
/// right kind.
pub struct MailTable {
    pub transport: Option<String>,
    pub from: Option<String>,
    pub path: Option<String>,
    pub host: Option<String>,
    pub utf8: Option<bool>,
    pub username: Option<String>,
    pub password: Option<String>,
    pub auth: Option<String>,
    pub connection_reuse: Option<String>,
}

/// How to authenticate with an SMTP server.
#[derive(Clone, Copy, Debug, PartialEq, Eq, Structural)]
pub enum AuthMechanism {
    Plain,
    Login,
    Xoauth2,
}

/// Whether SMTP connections are kept for further e-mails.
#[derive(Clone, Copy, Debug, PartialEq, Eq, Structural)]
pub enum ConnectionReuse {
    /// Kept for at most this many e-mails.
    Limited(u16),
    Unlimited,
    NoReuse,
}

/// How to reach an SMTP server.
pub struct SmtpSettings {
    /// The server; the unencrypted local one when absent.
    pub host: Option<String>,
    pub utf8: bool,
    /// User name and password.
    pub credentials: Option<(String, String)>,
    /// The authentication mechanism as the table names it.
    pub auth: Option<String>,
    /// The connection reuse as the table gives it.
    pub connection_reuse: Option<String>,
}

/// The SMTP options that the names in [`SmtpSettings`] pick.
pub struct SmtpOptions {
    pub auth: Option<AuthMechanism>,
    pub reuse: Option<ConnectionReuse>,
}

/// The way e-mails are sent.
pub enum Transport {
    /// They are dropped.
    Stub,
    /// They are written to files under this path.
    File(String),
    Sendmail,
    Smtp(SmtpSettings),
}

/// The way e-mails are sent, and the sender address they carry.
pub struct MailConfig {
    pub transport: Transport,
    pub from: String,
}

/// The text of an optional string, or `d` when absent.
pub open spec fn or_text(o: Option<Seq<char>>, d: Seq<char>) -> Seq<char> {
    match o {
        Some(t) => t,
        None => d,
    }
}

/// The mechanism a name picks, if any.
pub open spec fn auth_named(s: Seq<char>) -> Option<AuthMechanism> {
    if s == "plain"@ {
        Some(AuthMechanism::Plain)
    } else if s == "login"@ {
        Some(AuthMechanism::Login)
    } else if s == "xoauth2"@ {
        Some(AuthMechanism::Xoauth2)
    } else {
        None
    }
}

/// The reuse a setting picks, if any: a number limits it, `true` lifts the
/// limit, `false` and `no` turn it off.
pub open spec fn reuse_named(s: Seq<char>) -> Option<ConnectionReuse> {
    match parse_unsigned(s, u16::MAX as nat) {
        Some(v) => Some(ConnectionReuse::Limited(v as u16)),
        None => if s == "true"@ {
            Some(ConnectionReuse::Unlimited)
        } else if s == "false"@ || s == "no"@ {
            Some(ConnectionReuse::NoReuse)
        } else {
            None
        },
    }
}

/// The transport kind that the table names, `stub` when none.
pub open spec fn transport_kind(t: MailTable) -> Seq<char> {
    or_text(t.transport.deep_view(), "stub"@)
}

/// Whether SMTP settings name an auth mechanism or a reuse setting that
/// picks nothing; the message they are refused with if so.
pub open spec fn smtp_refusal(s: SmtpSettings) -> Option<Seq<char>> {
    if s.auth is Some && auth_named(s.auth->0@) is None {
        Some("Unknown auth mechanism: "@ + s.auth->0@)
    } else if s.connection_reuse is Some && reuse_named(s.connection_reuse->0@) is None {
        Some("Unknown reuse param: "@ + s.connection_reuse->0@)
    } else {
        None
    }
}

/// Whether `s` holds the SMTP settings that the table gives.
pub open spec fn smtp_settings_of(t: MailTable, s: SmtpSettings) -> bool {
    &&& s.host.deep_view() == t.host.deep_view()
    &&& s.utf8 == match t.utf8 {
        Some(b) => b,
        None => true,
    }
    &&& if t.username is Some || t.password is Some {
        s.credentials matches Some(cr) && cr.0@ == or_text(t.username.deep_view(), Seq::empty())
            && cr.1@ == or_text(t.password.deep_view(), Seq::empty())
    } else {
        s.credentials is None
    }
    &&& s.auth.deep_view() == t.auth.deep_view()
    &&& s.connection_reuse.deep_view() == t.connection_reuse.deep_view()
}

/// Whether `c` is what the table asks for.
pub open spec fn mail_config_of(t: MailTable, c: MailConfig) -> bool {
    &&& c.from@ == or_text(t.from.deep_view(), "ben@example.org"@)
    &&& if transport_kind(t) == "file"@ {
        c.transport matches Transport::File(p) && p@ == or_text(t.path.deep_view(), "emails.log"@)
    } else if transport_kind(t) == "sendmail"@ {
        c.transport is Sendmail
    } else if transport_kind(t) == "smtp"@ {
        c.transport matches Transport::Smtp(s) && smtp_settings_of(t, s)
    } else {
        c.transport is Stub
    }
}

/// The optional string's text, or `d`.
fn text_or(o: &Option<String>, d: &str) -> (r: String)
    ensures
        r@ == or_text(o.deep_view(), d@),
{
    match o {
        Some(s) => s.clone(),
        None => owned(d),
    }
}

fn parse_auth(s: &str) -> (r: Option<AuthMechanism>)
    ensures
        r == auth_named(s@),
{
    if str_eq(s, "plain") {
        Some(AuthMechanism::Plain)
    } else if str_eq(s, "login") {
        Some(AuthMechanism::Login)
    } else if str_eq(s, "xoauth2") {
        Some(AuthMechanism::Xoauth2)
    } else {
        None
    }
}

fn parse_reuse(s: &str) -> (r: Option<ConnectionReuse>)
    ensures
        r == reuse_named(s@),
{
    match parse_u16(s) {
        Some(v) => Some(ConnectionReuse::Limited(v)),
        None => if str_eq(s, "true") {
            Some(ConnectionReuse::Unlimited)
        } else if str_eq(s, "false") || str_eq(s, "no") {
            Some(ConnectionReuse::NoReuse)
        } else {
            None
        },
    }
}

/// Reads the `mail` table: the transport it names under `transport`
/// (`file`, `sendmail`, `smtp`, anything else dropping e-mails), its
/// settings, and the sender address.
pub fn mail_config(t: &MailTable) -> (r: MailConfig)
    ensures
        mail_config_of(*t, r),
{
    let kind = text_or(&t.transport, "stub");
    let from = text_or(&t.from, "ben@example.org");
    let transport = if str_eq(kind.as_str(), "file") {
        Transport::File(text_or(&t.path, "emails.log"))
    } else if str_eq(kind.as_str(), "sendmail") {
        Transport::Sendmail
    } else if str_eq(kind.as_str(), "smtp") {
        let host = match &t.host {
            Some(h) => Some(h.clone()),
            None => None,
        };
        let utf8 = match t.utf8 {
            Some(b) => b,
            None => true,
        };
        proof {
            reveal_strlit("");
        }
        let credentials = if t.username.is_some() || t.password.is_some() {
            Some((text_or(&t.username, ""), text_or(&t.password, "")))
        } else {
            None
        };
        let auth = match &t.auth {
            Some(a) => Some(a.clone()),
            None => None,
        };
        let connection_reuse = match &t.connection_reuse {
            Some(x) => Some(x.clone()),
            None => None,
        };
        assert(t.username is Some || t.password is Some ==> (credentials matches Some(cr) && cr.0@ == or_text(t.username.deep_view(), Seq::empty())));
        assert(t.username is Some || t.password is Some ==> (credentials matches Some(cr) && cr.1@ == or_text(t.password.deep_view(), Seq::empty())));
        assert(!(t.username is Some || t.password is Some) ==> credentials is None);
        let settings = SmtpSettings { host, utf8, credentials, auth, connection_reuse };
        assert(smtp_settings_of(*t, settings));
        Transport::Smtp(settings)
    } else {
        Transport::Stub
    };
    MailConfig { transport, from }
}

/// Picks the SMTP options that the settings name, once the SMTP client is
/// set up: a mechanism or reuse setting that names nothing is refused, the
/// mechanism checked first.
pub fn smtp_options(s: &SmtpSettings) -> (r: Result<SmtpOptions, String>)
    ensures
        match smtp_refusal(*s) {
            Some(m) => r matches Err(e) && e@ == m,
            None => r matches Ok(o) && o.auth == match s.auth {
                Some(a) => auth_named(a@),
                None => None,
            } && o.reuse == match s.connection_reuse {
                Some(x) => reuse_named(x@),
                None => None,
            },
        },
{
    let auth = match &s.auth {
        Some(a) => match parse_auth(a.as_str()) {
            Some(m) => Some(m),
            None => {
                return Err(join("Unknown auth mechanism: ", a.as_str()));
            },
        },
        None => None,
    };
    let reuse = match &s.connection_reuse {
        Some(x) => match parse_reuse(x.as_str()) {
            Some(m) => Some(m),
            None => {
                return Err(join("Unknown reuse param: ", x.as_str()));
            },
        },
        None => None,
    };
    Ok(SmtpOptions { auth, reuse })
}

} // verus!
