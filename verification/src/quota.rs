//! The quota check: how a new grant stands against the share of open
//! grants that went to non-white people and to people who are not men.

use vstd::prelude::*;
use crate::model::Identity;
use crate::grant::{ArchivedState, ArchivedV, GrantState, Model, StateV};

verus! {

/// How a grant stands against the quota.
#[derive(Clone, Copy, Debug, PartialEq, Eq, Structural)]
pub enum QuotaState {
    /// The grant keeps both shares.
    Within,
    /// Granting it would push the non-white share below half.
    BreaksPoc,
    /// Granting it would push the share of non-men below three quarters.
    BreaksWomen,
}

/// How many of `entries` have the first flag (non-white).
pub open spec fn count_non_white(entries: Seq<(bool, bool)>) -> nat
    decreases entries.len(),
{
    if entries.len() == 0 {
        0
    } else {
        count_non_white(entries.drop_last()) + if entries.last().0 { 1nat } else { 0nat }
    }
}

/// How many of `entries` have the second flag (not a man).
pub open spec fn count_non_man(entries: Seq<(bool, bool)>) -> nat
    decreases entries.len(),
{
    if entries.len() == 0 {
        0
    } else {
        count_non_man(entries.drop_last()) + if entries.last().1 { 1nat } else { 0nat }
    }
}

/// Where a grant whose applicant is `non_white` and `non_man` stands, given
/// the flags of the open grants that count for the quota. Shares are taken
/// in whole percent, with the new grant counted in the total.
pub open spec fn quota_of(non_white: bool, non_man: bool, entries: Seq<(bool, bool)>) -> QuotaState {
    let total = entries.len();
    if non_white && non_man {
        QuotaState::Within
    } else if !non_white && count_non_white(entries) * 100 / (total + 1) < 50 {
        QuotaState::BreaksPoc
    } else if !non_man && count_non_man(entries) * 100 / (total + 1) < 75 {
        QuotaState::BreaksWomen
    } else {
        QuotaState::Within
    }
}

/// Whether the check's 16-bit counters hold every figure it computes: the
/// number of grants, and the shares it goes on to compute times a hundred.
pub open spec fn quota_in_range(non_white: bool, non_man: bool, entries: Seq<(bool, bool)>) -> bool {
    let total = entries.len();
    &&& total <= u16::MAX
    &&& (!non_white) ==> count_non_white(entries) * 100 <= u16::MAX && total + 1 <= u16::MAX
    &&& (!non_man && (non_white || count_non_white(entries) * 100 / (total + 1) >= 50))
        ==> count_non_man(entries) * 100 <= u16::MAX && total + 1 <= u16::MAX
}

proof fn lemma_counts_bounded(entries: Seq<(bool, bool)>)
    ensures
        count_non_white(entries) <= entries.len(),
        count_non_man(entries) <= entries.len(),
    decreases entries.len(),
{
    if entries.len() > 0 {
        lemma_counts_bounded(entries.drop_last());
    }
}

impl QuotaState {
    /// The state's name, as pages show it.
    pub fn name(&self) -> (r: &'static str)
        ensures
            r@ == match *self {
                QuotaState::Within => "ok"@,
                QuotaState::BreaksPoc => "breaks_poc"@,
                QuotaState::BreaksWomen => "breaks_women"@,
            },
    {
        match self {
            QuotaState::Within => "ok",
            QuotaState::BreaksPoc => "breaks_poc",
            QuotaState::BreaksWomen => "breaks_women",
        }
    }
}

/// Counts the grants with each flag.
fn count_flags(entries: &Vec<(bool, bool)>) -> (r: (u16, u16, u16))
    requires
        entries@.len() <= u16::MAX,
    ensures
        r.0 == entries@.len(),
        r.1 == count_non_white(entries@),
        r.2 == count_non_man(entries@),
{
    let mut total: u16 = 0;
    let mut total_non_white: u16 = 0;
    let mut total_non_man: u16 = 0;
    let mut i: usize = 0;
    while i < entries.len()
        invariant
            entries@.len() <= u16::MAX,
            i <= entries@.len(),
            total == i,
            total_non_white == count_non_white(entries@.subrange(0, i as int)),
            total_non_man == count_non_man(entries@.subrange(0, i as int)),
        decreases entries@.len() - i,
    {
        proof {
            let s = entries@.subrange(0, i + 1);
            assert(s.drop_last() =~= entries@.subrange(0, i as int));
            lemma_counts_bounded(entries@.subrange(0, i as int));
        }
        let (non_w, non_m) = entries[i];
        total = total + 1;
        if non_w {
            total_non_white = total_non_white + 1;
        }
        if non_m {
            total_non_man = total_non_man + 1;
        }
        i = i + 1;
    }
    assert(entries@.subrange(0, i as int) =~= entries@);
    (total, total_non_white, total_non_man)
}

/// Whether [`quota_state`] can be asked about these flags.
pub fn quota_computable(non_white: bool, non_man: bool, entries: &Vec<(bool, bool)>) -> (r: bool)
    ensures
        r == quota_in_range(non_white, non_man, entries@),
{
    if entries.len() > 65535 {
        return false;
    }
    let (total, nw, nm) = count_flags(entries);
    let t = total as u64 + 1;
    if !non_white && (nw as u64 * 100 > 65535 || t > 65535) {
        return false;
    }
    if !non_man && (non_white || (nw as u64 * 100) / t >= 50) && (nm as u64 * 100 > 65535 || t > 65535) {
        return false;
    }
    true
}

/// Where a grant whose applicant is `non_white` and `non_man` stands, given
/// the `(non-white, non-man)` flags of the open grants that count for the quota.
pub fn quota_state(non_white: bool, non_man: bool, entries: &Vec<(bool, bool)>) -> (r: QuotaState)
    requires
        quota_in_range(non_white, non_man, entries@),
    ensures
        r == quota_of(non_white, non_man, entries@),
{
    if non_white && non_man {
        return QuotaState::Within;
    }
    let (total, total_non_white, total_non_man) = count_flags(entries);
    if !non_white {
        if (total_non_white * 100 / (total + 1)) < 50 {
            return QuotaState::BreaksPoc;
        }
    }
    if !non_man {
        if (total_non_man * 100 / (total + 1)) < 75 {
            return QuotaState::BreaksWomen;
        }
    }
    QuotaState::Within
}

/// Whether an identity counts towards the non-white share.
pub open spec fn counts_non_white(i: Identity) -> bool {
    match i {
        Identity::WoC | Identity::BIPoC | Identity::SintiRoma | Identity::Muslima | Identity::Jewish
        | Identity::NonWhite => true,
        _ => false,
    }
}

/// Whether an identity counts towards the share of people who are not men.
pub open spec fn counts_non_man(i: Identity) -> bool {
    match i {
        Identity::WoC | Identity::Muslima | Identity::Trans | Identity::Woman | Identity::Mother
        | Identity::NonMan | Identity::Inter | Identity::Agender => true,
        _ => false,
    }
}

/// The (non-white, not a man) flags of an applicant who states `ids`: each
/// is set when some stated identity counts towards it.
pub open spec fn identity_flags(ids: Seq<Identity>) -> (bool, bool)
    decreases ids.len(),
{
    if ids.len() == 0 {
        (false, false)
    } else {
        let f = identity_flags(ids.drop_last());
        (f.0 || counts_non_white(ids.last()), f.1 || counts_non_man(ids.last()))
    }
}

fn is_non_white(i: Identity) -> (r: bool)
    ensures
        r == counts_non_white(i),
{
    match i {
        Identity::WoC | Identity::BIPoC | Identity::SintiRoma | Identity::Muslima | Identity::Jewish
        | Identity::NonWhite => true,
        _ => false,
    }
}

fn is_non_man(i: Identity) -> (r: bool)
    ensures
        r == counts_non_man(i),
{
    match i {
        Identity::WoC | Identity::Muslima | Identity::Trans | Identity::Woman | Identity::Mother
        | Identity::NonMan | Identity::Inter | Identity::Agender => true,
        _ => false,
    }
}

/// The (non-white, not a man) flags of an applicant who states `ids`.
pub fn check_identities(ids: &Vec<Identity>) -> (r: (bool, bool))
    ensures
        r == identity_flags(ids@),
{
    let mut non_white = false;
    let mut non_man = false;
    let mut i: usize = 0;
    while i < ids.len()
        invariant
            i <= ids@.len(),
            (non_white, non_man) == identity_flags(ids@.subrange(0, i as int)),
        decreases ids@.len() - i,
    {
        assert(ids@.subrange(0, i + 1).drop_last() =~= ids@.subrange(0, i as int));
        let id = ids[i];
        non_white = non_white || is_non_white(id);
        non_man = non_man || is_non_man(id);
        i = i + 1;
    }
    assert(ids@.subrange(0, ids@.len() as int) =~= ids@);
    (non_white, non_man)
}

/// Whether a grant in state `s` counts for the quota: it was granted money,
/// being accepted, paid, or archived as funded.
pub open spec fn relevant(s: StateV) -> bool {
    s is Accepted || s is Paid || s matches StateV::Archived(ArchivedV::Funded(_))
}

/// Whether a grant counts for the quota.
pub fn quota_relevant(m: &Model) -> (r: bool)
    ensures
        r == relevant(m.state_v()),
{
    let state = match m {
        Model::EventGrant(g) => &g.state,
        Model::AktivistiGrant(g) => &g.state,
    };
    match state {
        GrantState::Accepted(_) | GrantState::Paid(_) => true,
        GrantState::Archived(ArchivedState::Funded(_)) => true,
        _ => false,
    }
}

/// The identities the applicant of a grant states.
pub open spec fn model_identities(m: Model) -> Seq<Identity> {
    match m {
        Model::EventGrant(g) => g.details.identities@,
        Model::AktivistiGrant(g) => g.details.identities@,
    }
}

/// The flags of the grants among `ms` that count for the quota, in order.
pub open spec fn relevant_flags(ms: Seq<Model>) -> Seq<(bool, bool)>
    decreases ms.len(),
{
    if ms.len() == 0 {
        Seq::empty()
    } else if relevant(ms.last().state_v()) {
        relevant_flags(ms.drop_last()).push(identity_flags(model_identities(ms.last())))
    } else {
        relevant_flags(ms.drop_last())
    }
}

/// Where grant `m` stands against the quota, given the open grants: `None`
/// when the check's 16-bit counters cannot hold the figures.
pub open spec fn quota_verdict(m: Model, open: Seq<Model>) -> Option<QuotaState> {
    let f = identity_flags(model_identities(m));
    let e = relevant_flags(open);
    if quota_in_range(f.0, f.1, e) {
        Some(quota_of(f.0, f.1, e))
    } else {
        None
    }
}

/// Where grant `m` stands against the quota, given the open grants (those
/// accepted, paid or funded count); `None` when the figures are too large
/// for the check's 16-bit counters.
pub fn grant_quota(m: &Model, open: &Vec<Model>) -> (r: Option<QuotaState>)
    ensures
        r == quota_verdict(*m, open@),
{
    let ids = match m {
        Model::EventGrant(g) => &g.details.identities,
        Model::AktivistiGrant(g) => &g.details.identities,
    };
    let (non_white, non_man) = check_identities(ids);
    let mut entries: Vec<(bool, bool)> = Vec::new();
    let mut j: usize = 0;
    while j < open.len()
        invariant
            j <= open@.len(),
            entries@ == relevant_flags(open@.subrange(0, j as int)),
        decreases open@.len() - j,
    {
        assert(open@.subrange(0, j + 1).drop_last() =~= open@.subrange(0, j as int));
        let g = &open[j];
        if quota_relevant(g) {
            let other = match g {
                Model::EventGrant(p) => &p.details.identities,
                Model::AktivistiGrant(p) => &p.details.identities,
            };
            entries.push(check_identities(other));
        }
        j = j + 1;
    }
    assert(open@.subrange(0, open@.len() as int) =~= open@);
    if quota_computable(non_white, non_man, &entries) {
        Some(quota_state(non_white, non_man, &entries))
    } else {
        None
    }
}

} // verus!
