//! The data a grant application carries: identities, personal, bank, grant,
//! event and extra information, and how form fields fill them in.

use vstd::prelude::*;
use vstd::string::*;
use vstd::utf8::encode_utf8;
use crate::text::{str_eq, join, to_hex_lower, remove_spaces, hex_lower, without_spaces, lemma_hex_lower_len};
use crate::outside::{
    blake2b_512, to_lowercase, blake2b_digest, lowercased, parse_u32, parse_unsigned, u32_parse_error,
};

verus! {

/// The identities an applicant can state.
#[derive(Clone, Copy, Debug, PartialEq, Eq, Structural)]
pub enum Identity {
    WoC,
    BIPoC,
    SintiRoma,
    Muslima,
    Jewish,
    NonWhite,
    Trans,
    Woman,
    Mother,
    NonMan,
    WithDisability,
    Inter,
    Agender,
}

/// The identity that a form key names, if any.
pub open spec fn identity_named(k: Seq<char>) -> Option<Identity> {
    if k == "woc"@ {
        Some(Identity::WoC)
    } else if k == "bipoc"@ {
        Some(Identity::BIPoC)
    } else if k == "sinti_roma"@ {
        Some(Identity::SintiRoma)
    } else if k == "muslima"@ {
        Some(Identity::Muslima)
    } else if k == "jewish"@ {
        Some(Identity::Jewish)
    } else if k == "non_white"@ {
        Some(Identity::NonWhite)
    } else if k == "trans"@ {
        Some(Identity::Trans)
    } else if k == "woman"@ {
        Some(Identity::Woman)
    } else if k == "mother"@ {
        Some(Identity::Mother)
    } else if k == "non_man"@ {
        Some(Identity::NonMan)
    } else if k == "with_disability"@ {
        Some(Identity::WithDisability)
    } else if k == "inter"@ {
        Some(Identity::Inter)
    } else if k == "agender"@ {
        Some(Identity::Agender)
    } else {
        None
    }
}

/// The message for a key that names nothing.
pub open spec fn unknown_key(k: Seq<char>) -> Seq<char> {
    "Unknown key "@ + k
}

impl Identity {
    /// The identity named by the form key `inp`, or an error naming the key.
    pub fn from(inp: &str) -> (r: Result<Identity, String>)
        ensures
            match identity_named(inp@) {
                Some(i) => r == Ok::<Identity, String>(i),
                None => r matches Err(e) && e@ == unknown_key(inp@),
            },
    {
        if str_eq(inp, "woc") {
            Ok(Identity::WoC)
        } else if str_eq(inp, "bipoc") {
            Ok(Identity::BIPoC)
        } else if str_eq(inp, "sinti_roma") {
            Ok(Identity::SintiRoma)
        } else if str_eq(inp, "muslima") {
            Ok(Identity::Muslima)
        } else if str_eq(inp, "jewish") {
            Ok(Identity::Jewish)
        } else if str_eq(inp, "non_white") {
            Ok(Identity::NonWhite)
        } else if str_eq(inp, "trans") {
            Ok(Identity::Trans)
        } else if str_eq(inp, "woman") {
            Ok(Identity::Woman)
        } else if str_eq(inp, "mother") {
            Ok(Identity::Mother)
        } else if str_eq(inp, "non_man") {
            Ok(Identity::NonMan)
        } else if str_eq(inp, "with_disability") {
            Ok(Identity::WithDisability)
        } else if str_eq(inp, "inter") {
            Ok(Identity::Inter)
        } else if str_eq(inp, "agender") {
            Ok(Identity::Agender)
        } else {
            Err(join("Unknown key ", inp))
        }
    }
}

/// Who applies, and how to reach them.
pub struct PersonalDetails {
    pub name: String,
    pub about_me: String,
    pub online_personas: Option<String>,
    pub email: String,
}

/// The model of [`PersonalDetails`].
pub struct PersonalDetailsV {
    pub name: Seq<char>,
    pub about_me: Seq<char>,
    pub online_personas: Option<Seq<char>>,
    pub email: Seq<char>,
}

impl PersonalDetailsV {
    /// The empty record a form starts from.
    pub open spec fn blank() -> Self {
        PersonalDetailsV { name: Seq::empty(), about_me: Seq::empty(), online_personas: None, email: Seq::empty() }
    }
}

impl View for PersonalDetails {
    type V = PersonalDetailsV;

    open spec fn view(&self) -> PersonalDetailsV {
        PersonalDetailsV {
            name: self.name@,
            about_me: self.about_me@,
            online_personas: self.online_personas.deep_view(),
            email: self.email@,
        }
    }
}

impl Default for PersonalDetails {
    fn default() -> (r: Self)
        ensures
            r@ == PersonalDetailsV::blank(),
    {
        PersonalDetails {
            name: String::new(),
            about_me: String::new(),
            online_personas: None,
            email: String::new(),
        }
    }
}

/// What setting field `k` to `v` makes of personal details, if `k` names a field.
pub open spec fn personal_set(d: PersonalDetailsV, k: Seq<char>, v: Seq<char>) -> Option<PersonalDetailsV> {
    if k == "name"@ {
        Some(PersonalDetailsV { name: v, ..d })
    } else if k == "online_personas"@ {
        Some(PersonalDetailsV { online_personas: Some(v), ..d })
    } else if k == "email"@ {
        Some(PersonalDetailsV { email: v, ..d })
    } else if k == "about_me"@ {
        Some(PersonalDetailsV { about_me: v, ..d })
    } else {
        None
    }
}

impl PersonalDetails {
    /// Sets the field that `key` names to `value`; an unknown key is an error
    /// and changes nothing.
    pub fn set(&mut self, key: &str, value: String) -> (r: Result<(), String>)
        ensures
            match personal_set(old(self)@, key@, value@) {
                Some(n) => r is Ok && final(self)@ == n,
                None => r matches Err(e) && e@ == unknown_key(key@) + " on personal details"@
                    && final(self)@ == old(self)@,
            },
    {
        if str_eq(key, "name") {
            self.name = value;
        } else if str_eq(key, "online_personas") {
            self.online_personas = Some(value);
        } else if str_eq(key, "email") {
            self.email = value;
        } else if str_eq(key, "about_me") {
            self.about_me = value;
        } else {
            let mut e = join("Unknown key ", key);
            e.append(" on personal details");
            return Err(e);
        }
        Ok(())
    }
}

/// Where a granted amount is paid to.
pub struct BankDetails {
    pub iban: String,
    pub bic: Option<String>,
    pub bank_name: Option<String>,
    pub account_name: Option<String>,
}

/// The model of [`BankDetails`].
pub struct BankDetailsV {
    pub iban: Seq<char>,
    pub bic: Option<Seq<char>>,
    pub bank_name: Option<Seq<char>>,
    pub account_name: Option<Seq<char>>,
}

impl BankDetailsV {
    /// The empty record a form starts from.
    pub open spec fn blank() -> Self {
        BankDetailsV { iban: Seq::empty(), bic: None, bank_name: None, account_name: None }
    }
}

impl View for BankDetails {
    type V = BankDetailsV;

    open spec fn view(&self) -> BankDetailsV {
        BankDetailsV {
            iban: self.iban@,
            bic: self.bic.deep_view(),
            bank_name: self.bank_name.deep_view(),
            account_name: self.account_name.deep_view(),
        }
    }
}

impl Default for BankDetails {
    fn default() -> (r: Self)
        ensures
            r@ == BankDetailsV::blank(),
    {
        BankDetails { iban: String::new(), bic: None, bank_name: None, account_name: None }
    }
}

/// What setting field `k` to `v` makes of bank details, if `k` names a field.
pub open spec fn bank_set(d: BankDetailsV, k: Seq<char>, v: Seq<char>) -> Option<BankDetailsV> {
    if k == "iban"@ {
        Some(BankDetailsV { iban: v, ..d })
    } else if k == "bic"@ {
        Some(BankDetailsV { bic: Some(v), ..d })
    } else if k == "bank_name"@ {
        Some(BankDetailsV { bank_name: Some(v), ..d })
    } else if k == "account_name"@ {
        Some(BankDetailsV { account_name: Some(v), ..d })
    } else {
        None
    }
}

impl BankDetails {
    /// Sets the field that `key` names to `value`; an unknown key is an error
    /// and changes nothing.
    pub fn set(&mut self, key: &str, value: String) -> (r: Result<(), String>)
        ensures
            match bank_set(old(self)@, key@, value@) {
                Some(n) => r is Ok && final(self)@ == n,
                None => r matches Err(e) && e@ == unknown_key(key@) + " on bank info"@
                    && final(self)@ == old(self)@,
            },
    {
        if str_eq(key, "iban") {
            self.iban = value;
        } else if str_eq(key, "bic") {
            self.bic = Some(value);
        } else if str_eq(key, "bank_name") {
            self.bank_name = Some(value);
        } else if str_eq(key, "account_name") {
            self.account_name = Some(value);
        } else {
            let mut e = join("Unknown key ", key);
            e.append(" on bank info");
            return Err(e);
        }
        Ok(())
    }
}

/// How much is asked for, and what for.
pub struct GrantInfo {
    pub amount: u32,
    pub cost_breakdown: String,
}

/// The model of [`GrantInfo`].
pub struct GrantInfoV {
    pub amount: u32,
    pub cost_breakdown: Seq<char>,
}

impl GrantInfoV {
    /// The empty record a form starts from.
    pub open spec fn blank() -> Self {
        GrantInfoV { amount: 0, cost_breakdown: Seq::empty() }
    }
}

impl View for GrantInfo {
    type V = GrantInfoV;

    open spec fn view(&self) -> GrantInfoV {
        GrantInfoV { amount: self.amount, cost_breakdown: self.cost_breakdown@ }
    }
}

impl Default for GrantInfo {
    fn default() -> (r: Self)
        ensures
            r@ == GrantInfoV::blank(),
    {
        GrantInfo { amount: 0, cost_breakdown: String::new() }
    }
}

/// What setting field `k` to `v` makes of grant info: `Ok(Some(..))` on
/// success, `Ok(None)` for an unknown key, `Err(..)` for an amount that does
/// not parse, with the message.
pub open spec fn grant_set(d: GrantInfoV, k: Seq<char>, v: Seq<char>) -> Result<Option<GrantInfoV>, Seq<char>> {
    if k == "amount"@ {
        match parse_unsigned(v, u32::MAX as nat) {
            Some(a) => Ok(Some(GrantInfoV { amount: a as u32, ..d })),
            None => Err("parsing amount failed: "@ + u32_parse_error(v)),
        }
    } else if k == "cost_breakdown"@ {
        Ok(Some(GrantInfoV { cost_breakdown: v, ..d }))
    } else {
        Ok(None)
    }
}

impl GrantInfo {
    /// Sets the field that `key` names from `value`; the amount is parsed as
    /// a `u32`. An unknown key or an amount that does not parse is an error
    /// and changes nothing.
    pub fn set(&mut self, key: &str, value: String) -> (r: Result<(), String>)
        ensures
            match grant_set(old(self)@, key@, value@) {
                Ok(Some(n)) => r is Ok && final(self)@ == n,
                Ok(None) => r matches Err(e) && e@ == unknown_key(key@) + " on grant info"@
                    && final(self)@ == old(self)@,
                Err(m) => r matches Err(e) && e@ == m && final(self)@ == old(self)@,
            },
    {
        if str_eq(key, "amount") {
            match parse_u32(value.as_str()) {
                Ok(a) => {
                    self.amount = a;
                },
                Err(m) => {
                    return Err(join("parsing amount failed: ", m.as_str()));
                },
            }
        } else if str_eq(key, "cost_breakdown") {
            self.cost_breakdown = value;
        } else {
            let mut e = join("Unknown key ", key);
            e.append(" on grant info");
            return Err(e);
        }
        Ok(())
    }
}

/// Consent and newsletter choices, and a free comment.
pub struct ExtraInfo {
    pub comment: Option<String>,
    pub accepted_privacy: Option<bool>,
    pub accepted_coc: Option<bool>,
    pub newsletter_monthly: bool,
    pub newsletter_fund: bool,
}

/// The model of [`ExtraInfo`].
pub struct ExtraInfoV {
    pub comment: Option<Seq<char>>,
    pub accepted_privacy: Option<bool>,
    pub accepted_coc: Option<bool>,
    pub newsletter_monthly: bool,
    pub newsletter_fund: bool,
}

impl ExtraInfoV {
    /// The empty record a form starts from.
    pub open spec fn blank() -> Self {
        ExtraInfoV { comment: None, accepted_privacy: None, accepted_coc: None, newsletter_monthly: false, newsletter_fund: false }
    }
}

impl View for ExtraInfo {
    type V = ExtraInfoV;

    open spec fn view(&self) -> ExtraInfoV {
        ExtraInfoV {
            comment: self.comment.deep_view(),
            accepted_privacy: self.accepted_privacy,
            accepted_coc: self.accepted_coc,
            newsletter_monthly: self.newsletter_monthly,
            newsletter_fund: self.newsletter_fund,
        }
    }
}

impl Default for ExtraInfo {
    fn default() -> (r: Self)
        ensures
            r@ == ExtraInfoV::blank(),
    {
        ExtraInfo {
            comment: None,
            accepted_privacy: None,
            accepted_coc: None,
            newsletter_monthly: false,
            newsletter_fund: false,
        }
    }
}

/// What a field `k` with value `v` makes of extra info, if `k` names a
/// field. The check boxes count as ticked whatever value they carry.
pub open spec fn extra_set(d: ExtraInfoV, k: Seq<char>, v: Seq<char>) -> Option<ExtraInfoV> {
    if k == "comment"@ {
        Some(ExtraInfoV { comment: Some(v), ..d })
    } else if k == "accepted_privacy"@ {
        Some(ExtraInfoV { accepted_privacy: Some(true), ..d })
    } else if k == "accepted_coc"@ {
        Some(ExtraInfoV { accepted_coc: Some(true), ..d })
    } else if k == "newsletter_monthly"@ {
        Some(ExtraInfoV { newsletter_monthly: true, ..d })
    } else if k == "newsletter_fund"@ {
        Some(ExtraInfoV { newsletter_fund: true, ..d })
    } else {
        None
    }
}

impl ExtraInfo {
    /// Records the field that `key` names; an unknown key is an error and
    /// changes nothing.
    pub fn set(&mut self, key: &str, value: String) -> (r: Result<(), String>)
        ensures
            match extra_set(old(self)@, key@, value@) {
                Some(n) => r is Ok && final(self)@ == n,
                None => r matches Err(e) && e@ == unknown_key(key@) + " on extra info"@
                    && final(self)@ == old(self)@,
            },
    {
        if str_eq(key, "comment") {
            self.comment = Some(value);
        } else if str_eq(key, "accepted_privacy") {
            self.accepted_privacy = Some(true);
        } else if str_eq(key, "accepted_coc") {
            self.accepted_coc = Some(true);
        } else if str_eq(key, "newsletter_monthly") {
            self.newsletter_monthly = true;
        } else if str_eq(key, "newsletter_fund") {
            self.newsletter_fund = true;
        } else {
            let mut e = join("Unknown key ", key);
            e.append(" on extra info");
            return Err(e);
        }
        Ok(())
    }
}

/// The event a grant is asked for.
pub struct EventInfo {
    pub name: String,
    pub description: String,
    pub organiser: String,
    pub url: Option<String>,
    pub why: String,
}

/// The model of [`EventInfo`].
pub struct EventInfoV {
    pub name: Seq<char>,
    pub description: Seq<char>,
    pub organiser: Seq<char>,
    pub url: Option<Seq<char>>,
    pub why: Seq<char>,
}

impl EventInfoV {
    /// The empty record a form starts from.
    pub open spec fn blank() -> Self {
        EventInfoV { name: Seq::empty(), description: Seq::empty(), organiser: Seq::empty(), url: None, why: Seq::empty() }
    }
}

impl View for EventInfo {
    type V = EventInfoV;

    open spec fn view(&self) -> EventInfoV {
        EventInfoV {
            name: self.name@,
            description: self.description@,
            organiser: self.organiser@,
            url: self.url.deep_view(),
            why: self.why@,
        }
    }
}

impl Default for EventInfo {
    fn default() -> (r: Self)
        ensures
            r@ == EventInfoV::blank(),
    {
        EventInfo {
            name: String::new(),
            description: String::new(),
            organiser: String::new(),
            url: None,
            why: String::new(),
        }
    }
}

/// What setting field `k` to `v` makes of event info, if `k` names a field.
pub open spec fn event_set(d: EventInfoV, k: Seq<char>, v: Seq<char>) -> Option<EventInfoV> {
    if k == "name"@ {
        Some(EventInfoV { name: v, ..d })
    } else if k == "description"@ {
        Some(EventInfoV { description: v, ..d })
    } else if k == "organiser"@ {
        Some(EventInfoV { organiser: v, ..d })
    } else if k == "url"@ {
        Some(EventInfoV { url: Some(v), ..d })
    } else if k == "why"@ {
        Some(EventInfoV { why: v, ..d })
    } else {
        None
    }
}

impl EventInfo {
    /// Sets the field that `key` names to `value`; an unknown key is an error
    /// and changes nothing.
    pub fn set(&mut self, key: &str, value: String) -> (r: Result<(), String>)
        ensures
            match event_set(old(self)@, key@, value@) {
                Some(n) => r is Ok && final(self)@ == n,
                None => r matches Err(e) && e@ == unknown_key(key@) + " on event info"@
                    && final(self)@ == old(self)@,
            },
    {
        if str_eq(key, "name") {
            self.name = value;
        } else if str_eq(key, "description") {
            self.description = value;
        } else if str_eq(key, "organiser") {
            self.organiser = value;
        } else if str_eq(key, "url") {
            self.url = Some(value);
        } else if str_eq(key, "why") {
            self.why = value;
        } else {
            let mut e = join("Unknown key ", key);
            e.append(" on event info");
            return Err(e);
        }
        Ok(())
    }
}


/// The related-grants key of an address or account: the lower-case hex of
/// the BLAKE2b-512 digest of its UTF-8 bytes, spaces taken out and lower-cased.
pub open spec fn hashed_key(s: Seq<char>) -> Seq<char> {
    hex_lower(blake2b_digest(encode_utf8(lowercased(without_spaces(s)))))
}

/// Computes [`hashed_key`] of `s`.
fn hash_key(s: &String) -> (r: String)
    ensures
        r@ == hashed_key(s@),
        r@.len() == 128,
{
    let compact = remove_spaces(s.as_str());
    let lower = to_lowercase(compact.as_str());
    let digest = blake2b_512(lower.as_str().as_bytes());
    proof {
        lemma_hex_lower_len(digest@);
    }
    to_hex_lower(&digest)
}

/// An applicant: in full, or only the hashed key of their address once the
/// grant is archived.
pub enum Person {
    Anonymised(String),
    Detail(PersonalDetails),
}

/// The model of [`Person`].
pub enum PersonV {
    Anonymised(Seq<char>),
    Detail(PersonalDetailsV),
}

impl View for Person {
    type V = PersonV;

    open spec fn view(&self) -> PersonV {
        match self {
            Person::Anonymised(a) => PersonV::Anonymised(a@),
            Person::Detail(d) => PersonV::Detail(d@),
        }
    }
}

impl PersonV {
    /// The key under which grants of the same person are found.
    pub open spec fn id(self) -> Seq<char> {
        match self {
            PersonV::Detail(d) => hashed_key(d.email),
            PersonV::Anonymised(a) => a,
        }
    }

    /// The person once archived: only the key is kept.
    pub open spec fn archived(self) -> PersonV {
        match self {
            PersonV::Detail(_) => PersonV::Anonymised(self.id()),
            PersonV::Anonymised(_) => self,
        }
    }
}

impl Person {
    /// The e-mail address and name to write to, while they are known.
    pub fn get_addr_info(&self) -> (r: Option<(String, String)>)
        ensures
            match self@ {
                PersonV::Detail(d) => r matches Some(p) && p.0@ == d.email && p.1@ == d.name,
                PersonV::Anonymised(_) => r is None,
            },
    {
        match self {
            Person::Detail(d) => Some((d.email.clone(), d.name.clone())),
            Person::Anonymised(_) => None,
        }
    }

    /// The key under which grants of the same person are found: for full
    /// details, 128 hex digits.
    pub fn id(&self) -> (r: String)
        ensures
            r@ == self@.id(),
            self is Detail ==> r@.len() == 128,
    {
        match self {
            Person::Detail(d) => hash_key(&d.email),
            Person::Anonymised(a) => a.clone(),
        }
    }

    /// Drops the personal details and keeps only the key.
    pub fn archive(&mut self)
        ensures
            final(self)@ == old(self)@.archived(),
    {
        if let Person::Detail(_) = self {
            let id = self.id();
            *self = Person::Anonymised(id);
        }
    }
}

/// A bank account: in full, or only the hashed key of its IBAN once the
/// grant is archived.
pub enum Bank {
    Anonymised(String),
    Detail(BankDetails),
}

/// The model of [`Bank`].
pub enum BankV {
    Anonymised(Seq<char>),
    Detail(BankDetailsV),
}

impl View for Bank {
    type V = BankV;

    open spec fn view(&self) -> BankV {
        match self {
            Bank::Anonymised(a) => BankV::Anonymised(a@),
            Bank::Detail(d) => BankV::Detail(d@),
        }
    }
}

impl BankV {
    /// The key under which grants to the same account are found.
    pub open spec fn id(self) -> Seq<char> {
        match self {
            BankV::Detail(d) => hashed_key(d.iban),
            BankV::Anonymised(a) => a,
        }
    }

    /// The account once archived: only the key is kept.
    pub open spec fn archived(self) -> BankV {
        match self {
            BankV::Detail(_) => BankV::Anonymised(self.id()),
            BankV::Anonymised(_) => self,
        }
    }
}

impl Bank {
    /// The key under which grants to the same account are found: for full
    /// details, 128 hex digits.
    pub fn id(&self) -> (r: String)
        ensures
            r@ == self@.id(),
            self is Detail ==> r@.len() == 128,
    {
        match self {
            Bank::Detail(d) => hash_key(&d.iban),
            Bank::Anonymised(a) => a.clone(),
        }
    }

    /// Drops the account details and keeps only the key.
    pub fn archive(&mut self)
        ensures
            final(self)@ == old(self)@.archived(),
    {
        if let Bank::Detail(_) = self {
            let id = self.id();
            *self = Bank::Anonymised(id);
        }
    }
}

} // verus!
