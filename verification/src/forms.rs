//! The two application forms: how submitted fields fill them in, and the
//! rules a submitted form must meet.

use vstd::prelude::*;
use vstd::string::*;
use crate::text::{starts_with, skip_chars, owned, join};
use crate::outside::{validate_email, email_accepted};
use crate::model::{
    Identity, GrantInfo, GrantInfoV, EventInfo, EventInfoV, PersonalDetails, PersonalDetailsV,
    BankDetails, BankDetailsV, ExtraInfo, ExtraInfoV, grant_set, event_set, personal_set, bank_set,
    extra_set, identity_named, unknown_key,
};

verus! {

/// Whether `k` begins with `p`.
pub open spec fn has_prefix(k: Seq<char>, p: Seq<char>) -> bool {
    p.len() <= k.len() && k.subrange(0, p.len() as int) == p
}

/// The submitted fields as (key, value) pairs of character sequences.
pub open spec fn pairs(items: Seq<(String, String)>) -> Seq<(Seq<char>, Seq<char>)> {
    items.map_values(|p: (String, String)| (p.0@, p.1@))
}

/// The texts of a list of strings.
pub open spec fn texts(v: Seq<String>) -> Seq<Seq<char>> {
    v.map_values(|s: String| s@)
}

/// `name` when a rule fails, nothing when it holds.
pub open spec fn failed(ok: bool, name: Seq<char>) -> Seq<Seq<char>> {
    if ok {
        Seq::empty()
    } else {
        seq![name]
    }
}

/// Appends `name` to `errors` when a rule fails.
fn note(errors: &mut Vec<String>, ok: bool, name: &str)
    ensures
        texts(final(errors)@) == texts(old(errors)@) + failed(ok, name@),
{
    if !ok {
        errors.push(owned(name));
    }
    assert(texts(errors@) =~= texts(old(errors)@) + failed(ok, name@));
}

/// The fields of grant info that break their rules: an amount from 1 to 200,
/// a cost breakdown of at least 5 characters.
pub open spec fn grant_info_failures(g: GrantInfoV) -> Seq<Seq<char>> {
    failed(1 <= g.amount <= 200, "grant_info.amount"@)
        + failed(g.cost_breakdown.len() >= 5, "grant_info.cost_breakdown"@)
}

/// The fields of event info that break their rules: a name, a description
/// of at least 20 characters, an organiser of at least 2, a reason of at least 5.
pub open spec fn event_info_failures(e: EventInfoV) -> Seq<Seq<char>> {
    failed(e.name.len() >= 1, "event_info.name"@)
        + failed(e.description.len() >= 20, "event_info.description"@)
        + failed(e.organiser.len() >= 2, "event_info.organiser"@)
        + failed(e.why.len() >= 5, "event_info.why"@)
}

/// The fields of personal details that break their rules: a name, at least
/// 5 characters about oneself, an address that passes the e-mail check.
pub open spec fn person_failures(p: PersonalDetailsV) -> Seq<Seq<char>> {
    failed(p.name.len() >= 1, "person.name"@)
        + failed(p.about_me.len() >= 5, "person.about_me"@)
        + failed(email_accepted(p.email), "person.email"@)
}

/// The fields of bank details that break their rules: an IBAN of at least
/// 10 characters.
pub open spec fn bank_failures(b: BankDetailsV) -> Seq<Seq<char>> {
    failed(b.iban.len() >= 10, "bank.iban"@)
}

/// The fields of extra info that break their rules: both consents given.
pub open spec fn extra_failures(x: ExtraInfoV) -> Seq<Seq<char>> {
    failed(x.accepted_privacy is Some, "extra.accepted_privacy"@)
        + failed(x.accepted_coc is Some, "extra.accepted_coc"@)
}

fn check_grant_info(g: &GrantInfo, errors: &mut Vec<String>)
    ensures
        texts(final(errors)@) == texts(old(errors)@) + grant_info_failures(g@),
{
    note(errors, 1 <= g.amount && g.amount <= 200, "grant_info.amount");
    note(errors, g.cost_breakdown.as_str().unicode_len() >= 5, "grant_info.cost_breakdown");
    assert(texts(errors@) =~= texts(old(errors)@) + grant_info_failures(g@));
}

fn check_event_info(e: &EventInfo, errors: &mut Vec<String>)
    ensures
        texts(final(errors)@) == texts(old(errors)@) + event_info_failures(e@),
{
    note(errors, e.name.as_str().unicode_len() >= 1, "event_info.name");
    note(errors, e.description.as_str().unicode_len() >= 20, "event_info.description");
    note(errors, e.organiser.as_str().unicode_len() >= 2, "event_info.organiser");
    note(errors, e.why.as_str().unicode_len() >= 5, "event_info.why");
    assert(texts(errors@) =~= texts(old(errors)@) + event_info_failures(e@));
}

fn check_person(p: &PersonalDetails, errors: &mut Vec<String>)
    ensures
        texts(final(errors)@) == texts(old(errors)@) + person_failures(p@),
{
    note(errors, p.name.as_str().unicode_len() >= 1, "person.name");
    note(errors, p.about_me.as_str().unicode_len() >= 5, "person.about_me");
    note(errors, validate_email(p.email.as_str()), "person.email");
    assert(texts(errors@) =~= texts(old(errors)@) + person_failures(p@));
}

fn check_bank(b: &BankDetails, errors: &mut Vec<String>)
    ensures
        texts(final(errors)@) == texts(old(errors)@) + bank_failures(b@),
{
    note(errors, b.iban.as_str().unicode_len() >= 10, "bank.iban");
}

fn check_extra(x: &ExtraInfo, errors: &mut Vec<String>)
    ensures
        texts(final(errors)@) == texts(old(errors)@) + extra_failures(x@),
{
    note(errors, x.accepted_privacy.is_some(), "extra.accepted_privacy");
    note(errors, x.accepted_coc.is_some(), "extra.accepted_coc");
    assert(texts(errors@) =~= texts(old(errors)@) + extra_failures(x@));
}

/// An application for a grant towards an event.
pub struct EventGrantForm {
    pub grant_info: GrantInfo,
    pub identities: Vec<Identity>,
    pub event_info: EventInfo,
    pub person: PersonalDetails,
    pub bank: BankDetails,
    pub extra: ExtraInfo,
}

/// The model of [`EventGrantForm`].
pub struct EventGrantFormV {
    pub grant_info: GrantInfoV,
    pub identities: Seq<Identity>,
    pub event_info: EventInfoV,
    pub person: PersonalDetailsV,
    pub bank: BankDetailsV,
    pub extra: ExtraInfoV,
}

impl View for EventGrantForm {
    type V = EventGrantFormV;

    open spec fn view(&self) -> EventGrantFormV {
        EventGrantFormV {
            grant_info: self.grant_info@,
            identities: self.identities@,
            event_info: self.event_info@,
            person: self.person@,
            bank: self.bank@,
            extra: self.extra@,
        }
    }
}

impl EventGrantFormV {
    /// The empty form that submitted fields are filled into.
    pub open spec fn blank() -> Self {
        EventGrantFormV {
            grant_info: GrantInfoV::blank(),
            identities: Seq::empty(),
            event_info: EventInfoV::blank(),
            person: PersonalDetailsV::blank(),
            bank: BankDetailsV::blank(),
            extra: ExtraInfoV::blank(),
        }
    }

    /// What one submitted field makes of the form: the key's prefix picks
    /// the part, the rest of the key the field. A key with no known prefix is
    /// skipped, or refused when `strict`.
    pub open spec fn step(self, k: Seq<char>, v: Seq<char>, strict: bool) -> Result<Self, Seq<char>> {
        if has_prefix(k, "grant_"@) {
            let sub = k.skip("grant_"@.len() as int);
            match grant_set(self.grant_info, sub, v) {
                Ok(Some(g)) => Ok(EventGrantFormV { grant_info: g, ..self }),
                Ok(None) => Err(unknown_key(sub) + " on grant info"@),
                Err(m) => Err(m),
            }
        } else if has_prefix(k, "id_"@) {
            let sub = k.skip("id_"@.len() as int);
            match identity_named(sub) {
                Some(i) => Ok(EventGrantFormV { identities: self.identities.push(i), ..self }),
                None => Err(unknown_key(sub)),
            }
        } else if has_prefix(k, "event_"@) {
            let sub = k.skip("event_"@.len() as int);
            match event_set(self.event_info, sub, v) {
                Some(e) => Ok(EventGrantFormV { event_info: e, ..self }),
                None => Err(unknown_key(sub) + " on event info"@),
            }
        } else if has_prefix(k, "person_"@) {
            let sub = k.skip("person_"@.len() as int);
            match personal_set(self.person, sub, v) {
                Some(p) => Ok(EventGrantFormV { person: p, ..self }),
                None => Err(unknown_key(sub) + " on personal details"@),
            }
        } else if has_prefix(k, "bank_"@) {
            let sub = k.skip("bank_"@.len() as int);
            match bank_set(self.bank, sub, v) {
                Some(b) => Ok(EventGrantFormV { bank: b, ..self }),
                None => Err(unknown_key(sub) + " on bank info"@),
            }
        } else if has_prefix(k, "extra_"@) {
            let sub = k.skip("extra_"@.len() as int);
            match extra_set(self.extra, sub, v) {
                Some(x) => Ok(EventGrantFormV { extra: x, ..self }),
                None => Err(unknown_key(sub) + " on extra info"@),
            }
        } else if strict {
            Err(unknown_key(k))
        } else {
            Ok(self)
        }
    }

    /// The form that the submitted fields fill in, in order; the first
    /// field that is refused decides the error.
    pub open spec fn from_fields(items: Seq<(Seq<char>, Seq<char>)>, strict: bool) -> Result<Self, Seq<char>>
        decreases items.len(),
    {
        if items.len() == 0 {
            Ok(Self::blank())
        } else {
            match Self::from_fields(items.drop_last(), strict) {
                Ok(f) => f.step(items.last().0, items.last().1, strict),
                Err(e) => Err(e),
            }
        }
    }

    /// The names of the fields that break their rules, in field order.
    pub open spec fn failures(self) -> Seq<Seq<char>> {
        grant_info_failures(self.grant_info) + event_info_failures(self.event_info)
            + person_failures(self.person) + bank_failures(self.bank) + extra_failures(self.extra)
    }
}

/// Once a field is refused, further fields do not change the outcome.
proof fn lemma_event_refusal_sticks(items: Seq<(Seq<char>, Seq<char>)>, strict: bool, j: int)
    requires
        0 <= j <= items.len(),
        EventGrantFormV::from_fields(items.subrange(0, j), strict) is Err,
    ensures
        EventGrantFormV::from_fields(items, strict) == EventGrantFormV::from_fields(items.subrange(0, j), strict),
    decreases items.len(),
{
    if j == items.len() {
        assert(items.subrange(0, j) =~= items);
    } else {
        assert(items.drop_last().subrange(0, j) =~= items.subrange(0, j));
        lemma_event_refusal_sticks(items.drop_last(), strict, j);
    }
}

impl Default for EventGrantForm {
    fn default() -> (r: Self)
        ensures
            r@ == EventGrantFormV::blank(),
    {
        EventGrantForm {
            grant_info: GrantInfo::default(),
            identities: Vec::new(),
            event_info: EventInfo::default(),
            person: PersonalDetails::default(),
            bank: BankDetails::default(),
            extra: ExtraInfo::default(),
        }
    }
}

impl EventGrantForm {
    /// Fills in the field that `key` names.
    pub fn apply(&mut self, key: &str, value: String, strict: bool) -> (r: Result<(), String>)
        ensures
            match old(self)@.step(key@, value@, strict) {
                Ok(f) => r is Ok && final(self)@ == f,
                Err(e) => r matches Err(m) && m@ == e,
            },
    {
        if starts_with(key, "grant_") {
            let sub = skip_chars(key, "grant_".unicode_len());
            self.grant_info.set(sub, value)
        } else if starts_with(key, "id_") {
            let sub = skip_chars(key, "id_".unicode_len());
            match Identity::from(sub) {
                Ok(i) => {
                    self.identities.push(i);
                    Ok(())
                },
                Err(e) => Err(e),
            }
        } else if starts_with(key, "event_") {
            let sub = skip_chars(key, "event_".unicode_len());
            self.event_info.set(sub, value)
        } else if starts_with(key, "person_") {
            let sub = skip_chars(key, "person_".unicode_len());
            self.person.set(sub, value)
        } else if starts_with(key, "bank_") {
            let sub = skip_chars(key, "bank_".unicode_len());
            self.bank.set(sub, value)
        } else if starts_with(key, "extra_") {
            let sub = skip_chars(key, "extra_".unicode_len());
            self.extra.set(sub, value)
        } else if strict {
            Err(join("Unknown key ", key))
        } else {
            Ok(())
        }
    }

    /// Builds the form from the submitted (key, value) fields, in order.
    /// Unknown keys are skipped unless `strict`; the first refused field
    /// gives the error.
    pub fn from_items(items: &Vec<(String, String)>, strict: bool) -> (r: Result<EventGrantForm, String>)
        ensures
            match EventGrantFormV::from_fields(pairs(items@), strict) {
                Ok(f) => r matches Ok(x) && x@ == f,
                Err(e) => r matches Err(m) && m@ == e,
            },
    {
        let ghost all = pairs(items@);
        let mut s = EventGrantForm::default();
        let mut i: usize = 0;
        while i < items.len()
            invariant
                i <= items@.len(),
                all == pairs(items@),
                EventGrantFormV::from_fields(all.subrange(0, i as int), strict)
                    == Ok::<EventGrantFormV, Seq<char>>(s@),
            decreases items@.len() - i,
        {
            proof {
                assert(all.subrange(0, i + 1).drop_last() =~= all.subrange(0, i as int));
            }
            let value = items[i].1.clone();
            match s.apply(items[i].0.as_str(), value, strict) {
                Ok(()) => {},
                Err(e) => {
                    proof {
                        lemma_event_refusal_sticks(all, strict, i + 1);
                    }
                    return Err(e);
                },
            }
            i = i + 1;
        }
        assert(all.subrange(0, items@.len() as int) =~= all);
        Ok(s)
    }

    /// Checks the form's rules: `Ok` when every field meets its rule,
    /// otherwise the names of the fields that do not.
    pub fn validate(&self) -> (r: Result<(), Vec<String>>)
        ensures
            self@.failures().len() == 0 ==> r is Ok,
            self@.failures().len() > 0 ==> (r matches Err(v) && texts(v@) == self@.failures()),
    {
        let mut errors: Vec<String> = Vec::new();
        assert(texts(errors@) =~= Seq::empty());
        check_grant_info(&self.grant_info, &mut errors);
        check_event_info(&self.event_info, &mut errors);
        check_person(&self.person, &mut errors);
        check_bank(&self.bank, &mut errors);
        check_extra(&self.extra, &mut errors);
        assert(texts(errors@) =~= self@.failures());
        if errors.len() == 0 {
            Ok(())
        } else {
            Err(errors)
        }
    }
}

/// An application for a grant to an activist.
pub struct AktivistiGrantForm {
    pub grant_info: GrantInfo,
    pub identities: Vec<Identity>,
    pub person: PersonalDetails,
    pub bank: BankDetails,
    pub extra: ExtraInfo,
}

/// The model of [`AktivistiGrantForm`].
pub struct AktivistiGrantFormV {
    pub grant_info: GrantInfoV,
    pub identities: Seq<Identity>,
    pub person: PersonalDetailsV,
    pub bank: BankDetailsV,
    pub extra: ExtraInfoV,
}

impl View for AktivistiGrantForm {
    type V = AktivistiGrantFormV;

    open spec fn view(&self) -> AktivistiGrantFormV {
        AktivistiGrantFormV {
            grant_info: self.grant_info@,
            identities: self.identities@,
            person: self.person@,
            bank: self.bank@,
            extra: self.extra@,
        }
    }
}

impl AktivistiGrantFormV {
    /// The empty form that submitted fields are filled into.
    pub open spec fn blank() -> Self {
        AktivistiGrantFormV {
            grant_info: GrantInfoV::blank(),
            identities: Seq::empty(),
            person: PersonalDetailsV::blank(),
            bank: BankDetailsV::blank(),
            extra: ExtraInfoV::blank(),
        }
    }

    /// What one submitted field makes of the form. An identity key is looked
    /// up from its third character on, so that the underscore stays in the
    /// name; a key with no known prefix is skipped, or refused when `strict`.
    pub open spec fn step(self, k: Seq<char>, v: Seq<char>, strict: bool) -> Result<Self, Seq<char>> {
        if has_prefix(k, "grant_"@) {
            let sub = k.skip("grant_"@.len() as int);
            match grant_set(self.grant_info, sub, v) {
                Ok(Some(g)) => Ok(AktivistiGrantFormV { grant_info: g, ..self }),
                Ok(None) => Err(unknown_key(sub) + " on grant info"@),
                Err(m) => Err(m),
            }
        } else if has_prefix(k, "id_"@) {
            let sub = k.skip(2);
            match identity_named(sub) {
                Some(i) => Ok(AktivistiGrantFormV { identities: self.identities.push(i), ..self }),
                None => Err(unknown_key(sub)),
            }
        } else if has_prefix(k, "person_"@) {
            let sub = k.skip("person_"@.len() as int);
            match personal_set(self.person, sub, v) {
                Some(p) => Ok(AktivistiGrantFormV { person: p, ..self }),
                None => Err(unknown_key(sub) + " on personal details"@),
            }
        } else if has_prefix(k, "bank_"@) {
            let sub = k.skip("bank_"@.len() as int);
            match bank_set(self.bank, sub, v) {
                Some(b) => Ok(AktivistiGrantFormV { bank: b, ..self }),
                None => Err(unknown_key(sub) + " on bank info"@),
            }
        } else if has_prefix(k, "extra_"@) {
            let sub = k.skip("extra_"@.len() as int);
            match extra_set(self.extra, sub, v) {
                Some(x) => Ok(AktivistiGrantFormV { extra: x, ..self }),
                None => Err(unknown_key(sub) + " on extra info"@),
            }
        } else if strict {
            Err(unknown_key(k))
        } else {
            Ok(self)
        }
    }

    /// The form that the submitted fields fill in, in order; the first
    /// field that is refused decides the error.
    pub open spec fn from_fields(items: Seq<(Seq<char>, Seq<char>)>, strict: bool) -> Result<Self, Seq<char>>
        decreases items.len(),
    {
        if items.len() == 0 {
            Ok(Self::blank())
        } else {
            match Self::from_fields(items.drop_last(), strict) {
                Ok(f) => f.step(items.last().0, items.last().1, strict),
                Err(e) => Err(e),
            }
        }
    }

    /// The names of the fields that break their rules, in field order.
    pub open spec fn failures(self) -> Seq<Seq<char>> {
        grant_info_failures(self.grant_info) + person_failures(self.person)
            + bank_failures(self.bank) + extra_failures(self.extra)
    }
}

/// Once a field is refused, further fields do not change the outcome.
proof fn lemma_aktivisti_refusal_sticks(items: Seq<(Seq<char>, Seq<char>)>, strict: bool, j: int)
    requires
        0 <= j <= items.len(),
        AktivistiGrantFormV::from_fields(items.subrange(0, j), strict) is Err,
    ensures
        AktivistiGrantFormV::from_fields(items, strict) == AktivistiGrantFormV::from_fields(items.subrange(0, j), strict),
    decreases items.len(),
{
    if j == items.len() {
        assert(items.subrange(0, j) =~= items);
    } else {
        assert(items.drop_last().subrange(0, j) =~= items.subrange(0, j));
        lemma_aktivisti_refusal_sticks(items.drop_last(), strict, j);
    }
}

impl Default for AktivistiGrantForm {
    fn default() -> (r: Self)
        ensures
            r@ == AktivistiGrantFormV::blank(),
    {
        AktivistiGrantForm {
            grant_info: GrantInfo::default(),
            identities: Vec::new(),
            person: PersonalDetails::default(),
            bank: BankDetails::default(),
            extra: ExtraInfo::default(),
        }
    }
}

impl AktivistiGrantForm {
    /// Fills in the field that `key` names.
    pub fn apply(&mut self, key: &str, value: String, strict: bool) -> (r: Result<(), String>)
        ensures
            match old(self)@.step(key@, value@, strict) {
                Ok(f) => r is Ok && final(self)@ == f,
                Err(e) => r matches Err(m) && m@ == e,
            },
    {
        if starts_with(key, "grant_") {
            let sub = skip_chars(key, "grant_".unicode_len());
            self.grant_info.set(sub, value)
        } else if starts_with(key, "id_") {
            proof {
                reveal_strlit("id_");
            }
            let sub = skip_chars(key, 2);
            match Identity::from(sub) {
                Ok(i) => {
                    self.identities.push(i);
                    Ok(())
                },
                Err(e) => Err(e),
            }
        } else if starts_with(key, "person_") {
            let sub = skip_chars(key, "person_".unicode_len());
            self.person.set(sub, value)
        } else if starts_with(key, "bank_") {
            let sub = skip_chars(key, "bank_".unicode_len());
            self.bank.set(sub, value)
        } else if starts_with(key, "extra_") {
            let sub = skip_chars(key, "extra_".unicode_len());
            self.extra.set(sub, value)
        } else if strict {
            Err(join("Unknown key ", key))
        } else {
            Ok(())
        }
    }

    /// Builds the form from the submitted (key, value) fields, in order.
    /// Unknown keys are skipped unless `strict`; the first refused field
    /// gives the error.
    pub fn from_items(items: &Vec<(String, String)>, strict: bool) -> (r: Result<AktivistiGrantForm, String>)
        ensures
            match AktivistiGrantFormV::from_fields(pairs(items@), strict) {
                Ok(f) => r matches Ok(x) && x@ == f,
                Err(e) => r matches Err(m) && m@ == e,
            },
    {
        let ghost all = pairs(items@);
        let mut s = AktivistiGrantForm::default();
        let mut i: usize = 0;
        while i < items.len()
            invariant
                i <= items@.len(),
                all == pairs(items@),
                AktivistiGrantFormV::from_fields(all.subrange(0, i as int), strict)
                    == Ok::<AktivistiGrantFormV, Seq<char>>(s@),
            decreases items@.len() - i,
        {
            proof {
                assert(all.subrange(0, i + 1).drop_last() =~= all.subrange(0, i as int));
            }
            let value = items[i].1.clone();
            match s.apply(items[i].0.as_str(), value, strict) {
                Ok(()) => {},
                Err(e) => {
                    proof {
                        lemma_aktivisti_refusal_sticks(all, strict, i + 1);
                    }
                    return Err(e);
                },
            }
            i = i + 1;
        }
        assert(all.subrange(0, items@.len() as int) =~= all);
        Ok(s)
    }

    /// Checks the form's rules: `Ok` when every field meets its rule,
    /// otherwise the names of the fields that do not.
    pub fn validate(&self) -> (r: Result<(), Vec<String>>)
        ensures
            self@.failures().len() == 0 ==> r is Ok,
            self@.failures().len() > 0 ==> (r matches Err(v) && texts(v@) == self@.failures()),
    {
        let mut errors: Vec<String> = Vec::new();
        assert(texts(errors@) =~= Seq::empty());
        check_grant_info(&self.grant_info, &mut errors);
        check_person(&self.person, &mut errors);
        check_bank(&self.bank, &mut errors);
        check_extra(&self.extra, &mut errors);
        assert(texts(errors@) =~= self@.failures());
        if errors.len() == 0 {
            Ok(())
        } else {
            Err(errors)
        }
    }
}

} // verus!
