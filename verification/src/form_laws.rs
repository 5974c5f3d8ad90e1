//! What submitted fields do to the application forms, and which of the
//! forms' rules a filled-in form breaks.

use vstd::prelude::*;
use vstd::string::*;
use crate::outside::{email_accepted, parse_unsigned, u32_parse_error};
use crate::model::{
    Identity, GrantInfoV, EventInfoV, PersonalDetailsV, BankDetailsV, ExtraInfoV, grant_set,
    event_set, personal_set, bank_set, extra_set, identity_named, unknown_key,
};
use crate::forms::{
    EventGrantFormV, AktivistiGrantFormV, has_prefix, failed, grant_info_failures,
    event_info_failures, person_failures, bank_failures, extra_failures,
};

verus! {

/// The lengths and telling characters of the key prefixes.
proof fn lemma_prefix_words()
    ensures
        "grant_"@.len() == 6,
        "grant_"@[0] == 'g',
        "id_"@.len() == 3,
        "id_"@[0] == 'i',
        "event_"@.len() == 6,
        "event_"@[0] == 'e',
        "event_"@[1] == 'v',
        "person_"@.len() == 7,
        "person_"@[0] == 'p',
        "bank_"@.len() == 5,
        "bank_"@[0] == 'b',
        "extra_"@.len() == 6,
        "extra_"@[0] == 'e',
        "extra_"@[1] == 'x',
{
    reveal_strlit("grant_");
    reveal_strlit("id_");
    reveal_strlit("event_");
    reveal_strlit("person_");
    reveal_strlit("bank_");
    reveal_strlit("extra_");
}

/// The lengths of the personal detail keys, all different.
proof fn lemma_personal_words()
    ensures
        "name"@.len() == 4,
        "about_me"@.len() == 8,
        "online_personas"@.len() == 15,
        "email"@.len() == 5,
{
    reveal_strlit("name");
    reveal_strlit("about_me");
    reveal_strlit("online_personas");
    reveal_strlit("email");
}

/// The lengths of the bank detail keys, all different.
proof fn lemma_bank_words()
    ensures
        "iban"@.len() == 4,
        "bic"@.len() == 3,
        "bank_name"@.len() == 9,
        "account_name"@.len() == 12,
{
    reveal_strlit("iban");
    reveal_strlit("bic");
    reveal_strlit("bank_name");
    reveal_strlit("account_name");
}

/// The lengths of the extra info keys, all different.
proof fn lemma_extra_words()
    ensures
        "comment"@.len() == 7,
        "accepted_privacy"@.len() == 16,
        "accepted_coc"@.len() == 12,
        "newsletter_monthly"@.len() == 18,
        "newsletter_fund"@.len() == 15,
{
    reveal_strlit("comment");
    reveal_strlit("accepted_privacy");
    reveal_strlit("accepted_coc");
    reveal_strlit("newsletter_monthly");
    reveal_strlit("newsletter_fund");
}

/// The lengths and telling characters of the event info keys.
proof fn lemma_event_words()
    ensures
        "name"@.len() == 4,
        "description"@.len() == 11,
        "organiser"@.len() == 9,
        "url"@.len() == 3,
        "url"@[0] == 'u',
        "why"@.len() == 3,
        "why"@[0] == 'w',
{
    reveal_strlit("name");
    reveal_strlit("description");
    reveal_strlit("organiser");
    reveal_strlit("url");
    reveal_strlit("why");
}

/// The lengths of the grant info keys.
proof fn lemma_grant_words()
    ensures
        "amount"@.len() == 6,
        "cost_breakdown"@.len() == 14,
{
    reveal_strlit("amount");
    reveal_strlit("cost_breakdown");
}

/// The lengths and telling characters of the identity keys.
proof fn lemma_identity_words()
    ensures
        "woc"@.len() == 3,
        "woc"@[0] == 'w',
        "bipoc"@.len() == 5,
        "bipoc"@[0] == 'b',
        "sinti_roma"@.len() == 10,
        "sinti_roma"@[0] == 's',
        "muslima"@.len() == 7,
        "muslima"@[0] == 'm',
        "jewish"@.len() == 6,
        "jewish"@[0] == 'j',
        "non_white"@.len() == 9,
        "non_white"@[0] == 'n',
        "trans"@.len() == 5,
        "trans"@[0] == 't',
        "woman"@.len() == 5,
        "woman"@[0] == 'w',
        "mother"@.len() == 6,
        "mother"@[0] == 'm',
        "non_man"@.len() == 7,
        "non_man"@[0] == 'n',
        "with_disability"@.len() == 15,
        "with_disability"@[0] == 'w',
        "inter"@.len() == 5,
        "inter"@[0] == 'i',
        "agender"@.len() == 7,
        "agender"@[0] == 'a',
{
    reveal_strlit("woc");
    reveal_strlit("bipoc");
    reveal_strlit("sinti_roma");
    reveal_strlit("muslima");
    reveal_strlit("jewish");
    reveal_strlit("non_white");
    reveal_strlit("trans");
    reveal_strlit("woman");
    reveal_strlit("mother");
    reveal_strlit("non_man");
    reveal_strlit("with_disability");
    reveal_strlit("inter");
    reveal_strlit("agender");
}

/// A key made of prefix `p` and name `k` has the prefix `p`, and what
/// follows it is `k`.
proof fn lemma_own_prefix(p: Seq<char>, k: Seq<char>)
    ensures
        has_prefix(p + k, p),
        (p + k).skip(p.len() as int) == k,
{
    assert((p + k).subrange(0, p.len() as int) =~= p);
    assert((p + k).skip(p.len() as int) =~= k);
}

/// A key made of prefix `p` does not start with a prefix `q` that differs
/// from `p` at position `i`.
proof fn lemma_other_prefix(p: Seq<char>, q: Seq<char>, k: Seq<char>, i: int)
    requires
        0 <= i < p.len(),
        i < q.len(),
        p[i] != q[i],
    ensures
        !has_prefix(p + k, q),
{
    if has_prefix(p + k, q) {
        assert((p + k).subrange(0, q.len() as int)[i] == (p + k)[i]);
    }
}

/// Each personal details key sets its own field and no other.
pub proof fn law_personal_fields(d: PersonalDetailsV, v: Seq<char>)
    ensures
        personal_set(d, "name"@, v) == Some(PersonalDetailsV { name: v, ..d }),
        personal_set(d, "about_me"@, v) == Some(PersonalDetailsV { about_me: v, ..d }),
        personal_set(d, "online_personas"@, v) == Some(PersonalDetailsV { online_personas: Some(v), ..d }),
        personal_set(d, "email"@, v) == Some(PersonalDetailsV { email: v, ..d }),
{
    lemma_personal_words();
}

/// Each bank details key sets its own field and no other.
pub proof fn law_bank_fields(d: BankDetailsV, v: Seq<char>)
    ensures
        bank_set(d, "iban"@, v) == Some(BankDetailsV { iban: v, ..d }),
        bank_set(d, "bic"@, v) == Some(BankDetailsV { bic: Some(v), ..d }),
        bank_set(d, "bank_name"@, v) == Some(BankDetailsV { bank_name: Some(v), ..d }),
        bank_set(d, "account_name"@, v) == Some(BankDetailsV { account_name: Some(v), ..d }),
{
    lemma_bank_words();
}

/// Each extra info key records its own field and no other: the comment's
/// text, a consent given, a newsletter chosen.
pub proof fn law_extra_fields(d: ExtraInfoV, v: Seq<char>)
    ensures
        extra_set(d, "comment"@, v) == Some(ExtraInfoV { comment: Some(v), ..d }),
        extra_set(d, "accepted_privacy"@, v) == Some(ExtraInfoV { accepted_privacy: Some(true), ..d }),
        extra_set(d, "accepted_coc"@, v) == Some(ExtraInfoV { accepted_coc: Some(true), ..d }),
        extra_set(d, "newsletter_monthly"@, v) == Some(ExtraInfoV { newsletter_monthly: true, ..d }),
        extra_set(d, "newsletter_fund"@, v) == Some(ExtraInfoV { newsletter_fund: true, ..d }),
{
    lemma_extra_words();
}

/// Each event info key sets its own field and no other.
pub proof fn law_event_info_fields(d: EventInfoV, v: Seq<char>)
    ensures
        event_set(d, "name"@, v) == Some(EventInfoV { name: v, ..d }),
        event_set(d, "description"@, v) == Some(EventInfoV { description: v, ..d }),
        event_set(d, "organiser"@, v) == Some(EventInfoV { organiser: v, ..d }),
        event_set(d, "url"@, v) == Some(EventInfoV { url: Some(v), ..d }),
        event_set(d, "why"@, v) == Some(EventInfoV { why: v, ..d }),
{
    lemma_event_words();
}

/// The amount is read as a `u32` and set, or refused with the parse error;
/// the cost breakdown is set as given.
pub proof fn law_grant_fields(d: GrantInfoV, v: Seq<char>)
    ensures
        parse_unsigned(v, u32::MAX as nat) matches Some(a) ==> grant_set(d, "amount"@, v) == Ok::<
            Option<GrantInfoV>,
            Seq<char>,
        >(Some(GrantInfoV { amount: a as u32, ..d })),
        parse_unsigned(v, u32::MAX as nat) is None ==> grant_set(d, "amount"@, v) == Err::<
            Option<GrantInfoV>,
            Seq<char>,
        >("parsing amount failed: "@ + u32_parse_error(v)),
        grant_set(d, "cost_breakdown"@, v) == Ok::<Option<GrantInfoV>, Seq<char>>(
            Some(GrantInfoV { cost_breakdown: v, ..d }),
        ),
{
    lemma_grant_words();
}

/// Each identity key names its own identity.
pub proof fn law_identity_names()
    ensures
        identity_named("woc"@) == Some(Identity::WoC),
        identity_named("bipoc"@) == Some(Identity::BIPoC),
        identity_named("sinti_roma"@) == Some(Identity::SintiRoma),
        identity_named("muslima"@) == Some(Identity::Muslima),
        identity_named("jewish"@) == Some(Identity::Jewish),
        identity_named("non_white"@) == Some(Identity::NonWhite),
        identity_named("trans"@) == Some(Identity::Trans),
        identity_named("woman"@) == Some(Identity::Woman),
        identity_named("mother"@) == Some(Identity::Mother),
        identity_named("non_man"@) == Some(Identity::NonMan),
        identity_named("with_disability"@) == Some(Identity::WithDisability),
        identity_named("inter"@) == Some(Identity::Inter),
        identity_named("agender"@) == Some(Identity::Agender),
{
    lemma_identity_words();
}

/// One more submitted field, after fields that filled in `f`, goes to the
/// part its key's prefix names: `grant_`, `id_`, `event_`, `person_`,
/// `bank_` or `extra_`, with the rest of the key naming the field; a field
/// the part does not know is refused.
pub proof fn law_event_form_fields(
    items: Seq<(Seq<char>, Seq<char>)>,
    strict: bool,
    f: EventGrantFormV,
    k: Seq<char>,
    v: Seq<char>,
)
    requires
        EventGrantFormV::from_fields(items, strict) == Ok::<EventGrantFormV, Seq<char>>(f),
    ensures
        EventGrantFormV::from_fields(items.push(("grant_"@ + k, v)), strict) == match grant_set(f.grant_info, k, v) {
            Ok(Some(g)) => Ok(EventGrantFormV { grant_info: g, ..f }),
            Ok(None) => Err(unknown_key(k) + " on grant info"@),
            Err(m) => Err(m),
        },
        EventGrantFormV::from_fields(items.push(("id_"@ + k, v)), strict) == match identity_named(k) {
            Some(i) => Ok(EventGrantFormV { identities: f.identities.push(i), ..f }),
            None => Err(unknown_key(k)),
        },
        EventGrantFormV::from_fields(items.push(("event_"@ + k, v)), strict) == match event_set(f.event_info, k, v) {
            Some(e) => Ok(EventGrantFormV { event_info: e, ..f }),
            None => Err(unknown_key(k) + " on event info"@),
        },
        EventGrantFormV::from_fields(items.push(("person_"@ + k, v)), strict) == match personal_set(f.person, k, v) {
            Some(p) => Ok(EventGrantFormV { person: p, ..f }),
            None => Err(unknown_key(k) + " on personal details"@),
        },
        EventGrantFormV::from_fields(items.push(("bank_"@ + k, v)), strict) == match bank_set(f.bank, k, v) {
            Some(b) => Ok(EventGrantFormV { bank: b, ..f }),
            None => Err(unknown_key(k) + " on bank info"@),
        },
        EventGrantFormV::from_fields(items.push(("extra_"@ + k, v)), strict) == match extra_set(f.extra, k, v) {
            Some(x) => Ok(EventGrantFormV { extra: x, ..f }),
            None => Err(unknown_key(k) + " on extra info"@),
        },
{
    lemma_prefix_words();
    let ps = seq!["grant_"@, "id_"@, "event_"@, "person_"@, "bank_"@, "extra_"@];
    assert forall|j: int| 0 <= j < 6 implies {
        let key = (#[trigger] ps[j]) + k;
        &&& items.push((key, v)).drop_last() == items
        &&& items.push((key, v)).last() == (key, v)
    } by {
        assert(items.push((ps[j] + k, v)).drop_last() =~= items);
    }
    assert(ps[0] == "grant_"@ && ps[1] == "id_"@ && ps[2] == "event_"@);
    assert(ps[3] == "person_"@ && ps[4] == "bank_"@ && ps[5] == "extra_"@);
    lemma_own_prefix("grant_"@, k);
    lemma_own_prefix("id_"@, k);
    lemma_own_prefix("event_"@, k);
    lemma_own_prefix("person_"@, k);
    lemma_own_prefix("bank_"@, k);
    lemma_own_prefix("extra_"@, k);
    lemma_other_prefix("id_"@, "grant_"@, k, 0);
    lemma_other_prefix("event_"@, "grant_"@, k, 0);
    lemma_other_prefix("event_"@, "id_"@, k, 0);
    lemma_other_prefix("person_"@, "grant_"@, k, 0);
    lemma_other_prefix("person_"@, "id_"@, k, 0);
    lemma_other_prefix("person_"@, "event_"@, k, 0);
    lemma_other_prefix("bank_"@, "grant_"@, k, 0);
    lemma_other_prefix("bank_"@, "id_"@, k, 0);
    lemma_other_prefix("bank_"@, "event_"@, k, 0);
    lemma_other_prefix("bank_"@, "person_"@, k, 0);
    lemma_other_prefix("extra_"@, "grant_"@, k, 0);
    lemma_other_prefix("extra_"@, "id_"@, k, 0);
    lemma_other_prefix("extra_"@, "event_"@, k, 1);
    lemma_other_prefix("extra_"@, "person_"@, k, 0);
    lemma_other_prefix("extra_"@, "bank_"@, k, 0);
}

/// One more submitted field, after fields that filled in `f`, goes to the
/// part its key's prefix names: `grant_`, `person_`, `bank_` or `extra_`,
/// with the rest of the key naming the field; a field the part does not
/// know is refused. An identity key `id_` is looked up with its underscore.
pub proof fn law_aktivisti_form_fields(
    items: Seq<(Seq<char>, Seq<char>)>,
    strict: bool,
    f: AktivistiGrantFormV,
    k: Seq<char>,
    v: Seq<char>,
)
    requires
        AktivistiGrantFormV::from_fields(items, strict) == Ok::<AktivistiGrantFormV, Seq<char>>(f),
    ensures
        AktivistiGrantFormV::from_fields(items.push(("grant_"@ + k, v)), strict) == match grant_set(f.grant_info, k, v) {
            Ok(Some(g)) => Ok(AktivistiGrantFormV { grant_info: g, ..f }),
            Ok(None) => Err(unknown_key(k) + " on grant info"@),
            Err(m) => Err(m),
        },
        AktivistiGrantFormV::from_fields(items.push(("id_"@ + k, v)), strict) == match identity_named("_"@ + k) {
            Some(i) => Ok(AktivistiGrantFormV { identities: f.identities.push(i), ..f }),
            None => Err(unknown_key("_"@ + k)),
        },
        AktivistiGrantFormV::from_fields(items.push(("person_"@ + k, v)), strict) == match personal_set(f.person, k, v) {
            Some(p) => Ok(AktivistiGrantFormV { person: p, ..f }),
            None => Err(unknown_key(k) + " on personal details"@),
        },
        AktivistiGrantFormV::from_fields(items.push(("bank_"@ + k, v)), strict) == match bank_set(f.bank, k, v) {
            Some(b) => Ok(AktivistiGrantFormV { bank: b, ..f }),
            None => Err(unknown_key(k) + " on bank info"@),
        },
        AktivistiGrantFormV::from_fields(items.push(("extra_"@ + k, v)), strict) == match extra_set(f.extra, k, v) {
            Some(x) => Ok(AktivistiGrantFormV { extra: x, ..f }),
            None => Err(unknown_key(k) + " on extra info"@),
        },
{
    lemma_prefix_words();
    reveal_strlit("_");
    let ps = seq!["grant_"@, "id_"@, "person_"@, "bank_"@, "extra_"@];
    assert forall|j: int| 0 <= j < 5 implies {
        let key = (#[trigger] ps[j]) + k;
        &&& items.push((key, v)).drop_last() == items
        &&& items.push((key, v)).last() == (key, v)
    } by {
        assert(items.push((ps[j] + k, v)).drop_last() =~= items);
    }
    assert(ps[0] == "grant_"@ && ps[1] == "id_"@ && ps[2] == "person_"@);
    assert(ps[3] == "bank_"@ && ps[4] == "extra_"@);
    reveal_strlit("id_");
    assert("id_"@[2] == '_' && "_"@.len() == 1 && "_"@[0] == '_');
    assert(("id_"@ + k).skip(2) =~= "_"@ + k);
    lemma_own_prefix("grant_"@, k);
    lemma_own_prefix("id_"@, k);
    lemma_own_prefix("person_"@, k);
    lemma_own_prefix("bank_"@, k);
    lemma_own_prefix("extra_"@, k);
    lemma_other_prefix("id_"@, "grant_"@, k, 0);
    lemma_other_prefix("person_"@, "grant_"@, k, 0);
    lemma_other_prefix("person_"@, "id_"@, k, 0);
    lemma_other_prefix("bank_"@, "grant_"@, k, 0);
    lemma_other_prefix("bank_"@, "id_"@, k, 0);
    lemma_other_prefix("bank_"@, "person_"@, k, 0);
    lemma_other_prefix("extra_"@, "grant_"@, k, 0);
    lemma_other_prefix("extra_"@, "id_"@, k, 0);
    lemma_other_prefix("extra_"@, "person_"@, k, 0);
    lemma_other_prefix("extra_"@, "bank_"@, k, 0);
}

/// The lengths and telling characters of the names of the form's fields.
proof fn lemma_failure_names()
    ensures
        "grant_info.amount"@.len() == 17,
        "grant_info.cost_breakdown"@.len() == 25,
        "event_info.name"@.len() == 15,
        "event_info.name"@[0] == 'e',
        "event_info.description"@.len() == 22,
        "event_info.description"@[1] == 'v',
        "event_info.organiser"@.len() == 20,
        "event_info.why"@.len() == 14,
        "person.name"@.len() == 11,
        "person.about_me"@.len() == 15,
        "person.about_me"@[0] == 'p',
        "person.email"@.len() == 12,
        "bank.iban"@.len() == 9,
        "extra.accepted_privacy"@.len() == 22,
        "extra.accepted_privacy"@[1] == 'x',
        "extra.accepted_coc"@.len() == 18,
{
    reveal_strlit("grant_info.amount");
    reveal_strlit("grant_info.cost_breakdown");
    reveal_strlit("event_info.name");
    reveal_strlit("event_info.description");
    reveal_strlit("event_info.organiser");
    reveal_strlit("event_info.why");
    reveal_strlit("person.name");
    reveal_strlit("person.about_me");
    reveal_strlit("person.email");
    reveal_strlit("bank.iban");
    reveal_strlit("extra.accepted_privacy");
    reveal_strlit("extra.accepted_coc");
}

/// A rule that fails gives its field's name, and one that holds gives none.
proof fn lemma_failed_contains(ok: bool, n: Seq<char>)
    ensures
        forall|x: Seq<char>| #[trigger] failed(ok, n).contains(x) <==> (!ok && x == n),
{
    if !ok {
        assert(failed(ok, n)[0] == n);
    }
}

/// A name is among two lists joined exactly when it is among either.
proof fn lemma_joined_contains(a: Seq<Seq<char>>, b: Seq<Seq<char>>)
    ensures
        forall|x: Seq<char>| #[trigger] (a + b).contains(x) <==> a.contains(x) || b.contains(x),
{
    assert forall|x: Seq<char>| #[trigger] (a + b).contains(x) <==> a.contains(x) || b.contains(x) by {
        if a.contains(x) {
            let i = choose|i: int| 0 <= i < a.len() && a[i] == x;
            assert((a + b)[i] == x);
        }
        if b.contains(x) {
            let i = choose|i: int| 0 <= i < b.len() && b[i] == x;
            assert((a + b)[a.len() + i] == x);
        }
        if (a + b).contains(x) {
            let i = choose|i: int| 0 <= i < (a + b).len() && (a + b)[i] == x;
            if i < a.len() {
                assert(a[i] == x);
            } else {
                assert(b[i - a.len()] == x);
            }
        }
    }
}

proof fn lemma_part_failures(g: GrantInfoV, e: EventInfoV, p: PersonalDetailsV, b: BankDetailsV, x: ExtraInfoV)
    ensures
        forall|n: Seq<char>| #[trigger] grant_info_failures(g).contains(n) <==> (
            (!(1 <= g.amount <= 200) && n == "grant_info.amount"@)
            || (g.cost_breakdown.len() < 5 && n == "grant_info.cost_breakdown"@)),
        forall|n: Seq<char>| #[trigger] event_info_failures(e).contains(n) <==> (
            (e.name.len() < 1 && n == "event_info.name"@)
            || (e.description.len() < 20 && n == "event_info.description"@)
            || (e.organiser.len() < 2 && n == "event_info.organiser"@)
            || (e.why.len() < 5 && n == "event_info.why"@)),
        forall|n: Seq<char>| #[trigger] person_failures(p).contains(n) <==> (
            (p.name.len() < 1 && n == "person.name"@)
            || (p.about_me.len() < 5 && n == "person.about_me"@)
            || (!email_accepted(p.email) && n == "person.email"@)),
        forall|n: Seq<char>| #[trigger] bank_failures(b).contains(n) <==> (
            b.iban.len() < 10 && n == "bank.iban"@),
        forall|n: Seq<char>| #[trigger] extra_failures(x).contains(n) <==> (
            (x.accepted_privacy is None && n == "extra.accepted_privacy"@)
            || (x.accepted_coc is None && n == "extra.accepted_coc"@)),
{
    let g1 = failed(1 <= g.amount <= 200, "grant_info.amount"@);
    let g2 = failed(g.cost_breakdown.len() >= 5, "grant_info.cost_breakdown"@);
    lemma_failed_contains(1 <= g.amount <= 200, "grant_info.amount"@);
    lemma_failed_contains(g.cost_breakdown.len() >= 5, "grant_info.cost_breakdown"@);
    lemma_joined_contains(g1, g2);
    let e1 = failed(e.name.len() >= 1, "event_info.name"@);
    let e2 = failed(e.description.len() >= 20, "event_info.description"@);
    let e3 = failed(e.organiser.len() >= 2, "event_info.organiser"@);
    let e4 = failed(e.why.len() >= 5, "event_info.why"@);
    lemma_failed_contains(e.name.len() >= 1, "event_info.name"@);
    lemma_failed_contains(e.description.len() >= 20, "event_info.description"@);
    lemma_failed_contains(e.organiser.len() >= 2, "event_info.organiser"@);
    lemma_failed_contains(e.why.len() >= 5, "event_info.why"@);
    lemma_joined_contains(e1, e2);
    lemma_joined_contains(e1 + e2, e3);
    lemma_joined_contains(e1 + e2 + e3, e4);
    let p1 = failed(p.name.len() >= 1, "person.name"@);
    let p2 = failed(p.about_me.len() >= 5, "person.about_me"@);
    let p3 = failed(email_accepted(p.email), "person.email"@);
    lemma_failed_contains(p.name.len() >= 1, "person.name"@);
    lemma_failed_contains(p.about_me.len() >= 5, "person.about_me"@);
    lemma_failed_contains(email_accepted(p.email), "person.email"@);
    lemma_joined_contains(p1, p2);
    lemma_joined_contains(p1 + p2, p3);
    lemma_failed_contains(b.iban.len() >= 10, "bank.iban"@);
    let x1 = failed(x.accepted_privacy is Some, "extra.accepted_privacy"@);
    let x2 = failed(x.accepted_coc is Some, "extra.accepted_coc"@);
    lemma_failed_contains(x.accepted_privacy is Some, "extra.accepted_privacy"@);
    lemma_failed_contains(x.accepted_coc is Some, "extra.accepted_coc"@);
    lemma_joined_contains(x1, x2);
}

/// Whether `n` names a field of an event grant form that breaks its rule.
spec fn event_rule_broken(f: EventGrantFormV, n: Seq<char>) -> bool {
    ||| !(1 <= f.grant_info.amount <= 200) && n == "grant_info.amount"@
    ||| f.grant_info.cost_breakdown.len() < 5 && n == "grant_info.cost_breakdown"@
    ||| f.event_info.name.len() < 1 && n == "event_info.name"@
    ||| f.event_info.description.len() < 20 && n == "event_info.description"@
    ||| f.event_info.organiser.len() < 2 && n == "event_info.organiser"@
    ||| f.event_info.why.len() < 5 && n == "event_info.why"@
    ||| f.person.name.len() < 1 && n == "person.name"@
    ||| f.person.about_me.len() < 5 && n == "person.about_me"@
    ||| !email_accepted(f.person.email) && n == "person.email"@
    ||| f.bank.iban.len() < 10 && n == "bank.iban"@
    ||| f.extra.accepted_privacy is None && n == "extra.accepted_privacy"@
    ||| f.extra.accepted_coc is None && n == "extra.accepted_coc"@
}

proof fn lemma_event_failures(f: EventGrantFormV)
    ensures
        forall|n: Seq<char>| #[trigger] f.failures().contains(n) <==> event_rule_broken(f, n),
{
    lemma_part_failures(f.grant_info, f.event_info, f.person, f.bank, f.extra);
    let g = grant_info_failures(f.grant_info);
    let e = event_info_failures(f.event_info);
    let p = person_failures(f.person);
    let b = bank_failures(f.bank);
    let x = extra_failures(f.extra);
    lemma_joined_contains(g, e);
    lemma_joined_contains(g + e, p);
    lemma_joined_contains(g + e + p, b);
    lemma_joined_contains(g + e + p + b, x);
}

/// Whether `n` names a field of an activist grant form that breaks its rule.
spec fn aktivisti_rule_broken(f: AktivistiGrantFormV, n: Seq<char>) -> bool {
    ||| !(1 <= f.grant_info.amount <= 200) && n == "grant_info.amount"@
    ||| f.grant_info.cost_breakdown.len() < 5 && n == "grant_info.cost_breakdown"@
    ||| f.person.name.len() < 1 && n == "person.name"@
    ||| f.person.about_me.len() < 5 && n == "person.about_me"@
    ||| !email_accepted(f.person.email) && n == "person.email"@
    ||| f.bank.iban.len() < 10 && n == "bank.iban"@
    ||| f.extra.accepted_privacy is None && n == "extra.accepted_privacy"@
    ||| f.extra.accepted_coc is None && n == "extra.accepted_coc"@
}

proof fn lemma_aktivisti_failures(f: AktivistiGrantFormV)
    ensures
        forall|n: Seq<char>| #[trigger] f.failures().contains(n) <==> aktivisti_rule_broken(f, n),
{
    let e0 = EventInfoV { name: Seq::empty(), description: Seq::empty(), organiser: Seq::empty(), url: None, why: Seq::empty() };
    lemma_part_failures(f.grant_info, e0, f.person, f.bank, f.extra);
    let g = grant_info_failures(f.grant_info);
    let p = person_failures(f.person);
    let b = bank_failures(f.bank);
    let x = extra_failures(f.extra);
    lemma_joined_contains(g, p);
    lemma_joined_contains(g + p, b);
    lemma_joined_contains(g + p + b, x);
}

/// Validating an event grant form names a field exactly when the field
/// breaks its rule: an amount outside 1 to 200, a cost breakdown under 5
/// characters, an empty event name, a description under 20, an organiser
/// under 2, a reason under 5, an empty applicant name, under 5 characters
/// about oneself, an address the e-mail check refuses, an IBAN under 10,
/// a consent not given.
pub proof fn law_event_form_failures(f: EventGrantFormV)
    ensures
        f.failures().contains("grant_info.amount"@) <==> !(1 <= f.grant_info.amount <= 200),
        f.failures().contains("grant_info.cost_breakdown"@) <==> f.grant_info.cost_breakdown.len() < 5,
        f.failures().contains("event_info.name"@) <==> f.event_info.name.len() < 1,
        f.failures().contains("event_info.description"@) <==> f.event_info.description.len() < 20,
        f.failures().contains("event_info.organiser"@) <==> f.event_info.organiser.len() < 2,
        f.failures().contains("event_info.why"@) <==> f.event_info.why.len() < 5,
        f.failures().contains("person.name"@) <==> f.person.name.len() < 1,
        f.failures().contains("person.about_me"@) <==> f.person.about_me.len() < 5,
        f.failures().contains("person.email"@) <==> !email_accepted(f.person.email),
        f.failures().contains("bank.iban"@) <==> f.bank.iban.len() < 10,
        f.failures().contains("extra.accepted_privacy"@) <==> f.extra.accepted_privacy is None,
        f.failures().contains("extra.accepted_coc"@) <==> f.extra.accepted_coc is None,
{
    lemma_failure_names();
    lemma_event_failures(f);
}

/// Validating an activist grant form names a field exactly when the field
/// breaks its rule, as for event grants without the event's fields.
pub proof fn law_aktivisti_form_failures(f: AktivistiGrantFormV)
    ensures
        f.failures().contains("grant_info.amount"@) <==> !(1 <= f.grant_info.amount <= 200),
        f.failures().contains("grant_info.cost_breakdown"@) <==> f.grant_info.cost_breakdown.len() < 5,
        f.failures().contains("person.name"@) <==> f.person.name.len() < 1,
        f.failures().contains("person.about_me"@) <==> f.person.about_me.len() < 5,
        f.failures().contains("person.email"@) <==> !email_accepted(f.person.email),
        f.failures().contains("bank.iban"@) <==> f.bank.iban.len() < 10,
        f.failures().contains("extra.accepted_privacy"@) <==> f.extra.accepted_privacy is None,
        f.failures().contains("extra.accepted_coc"@) <==> f.extra.accepted_coc is None,
{
    lemma_failure_names();
    lemma_aktivisti_failures(f);
}

} // verus!
