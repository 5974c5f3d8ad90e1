//! Grant processes: the states a grant passes through, the moves between
//! them, and the record of who moved it when.

use vstd::prelude::*;
use vstd::string::*;
use crate::text::{str_eq, join, owned, decimal, to_decimal};
use crate::outside::{debug_str, debug_quoted, seconds_since_epoch, fresh_token};
use crate::model::{
    GrantInfo, GrantInfoV, EventInfo, EventInfoV, Person, PersonV, Bank, BankV, Identity,
    ExtraInfo, ExtraInfoV,
};
use crate::forms::{EventGrantForm, AktivistiGrantForm};
use crate::title::{make_random_title, is_icon_title};
use vstd::std_specs::convert::FromSpec;


verus! {

/// Why a grant was turned down.
pub enum RejectionReason {
    /// There was no money left to fund it.
    OutOfMoney,
    /// It ran against the quota.
    OutOfQuota,
    /// It was dismissed on formal grounds, given here.
    Formal(String),
    /// It was turned down for another reason, given here.
    Other(String),
}

/// The model of [`RejectionReason`].
pub enum ReasonV {
    OutOfMoney,
    OutOfQuota,
    Formal(Seq<char>),
    Other(Seq<char>),
}

impl View for RejectionReason {
    type V = ReasonV;

    open spec fn view(&self) -> ReasonV {
        match self {
            RejectionReason::OutOfMoney => ReasonV::OutOfMoney,
            RejectionReason::OutOfQuota => ReasonV::OutOfQuota,
            RejectionReason::Formal(s) => ReasonV::Formal(s@),
            RejectionReason::Other(s) => ReasonV::Other(s@),
        }
    }
}

impl Clone for RejectionReason {
    fn clone(&self) -> (r: Self)
        ensures
            r@ == self@,
    {
        match self {
            RejectionReason::OutOfMoney => RejectionReason::OutOfMoney,
            RejectionReason::OutOfQuota => RejectionReason::OutOfQuota,
            RejectionReason::Formal(s) => RejectionReason::Formal(s.clone()),
            RejectionReason::Other(s) => RejectionReason::Other(s.clone()),
        }
    }
}

/// How an archived grant ended; nothing personal is kept.
pub enum ArchivedState {
    /// It was accepted and this many full euros were paid.
    Funded(u32),
    /// The applicant withdrew it.
    Retracted,
    /// It was turned down.
    Rejected(RejectionReason),
    /// The board did not fund it.
    Failed,
}

/// The model of [`ArchivedState`].
pub enum ArchivedV {
    Funded(u32),
    Retracted,
    Rejected(ReasonV),
    Failed,
}

impl View for ArchivedState {
    type V = ArchivedV;

    open spec fn view(&self) -> ArchivedV {
        match self {
            ArchivedState::Funded(n) => ArchivedV::Funded(*n),
            ArchivedState::Retracted => ArchivedV::Retracted,
            ArchivedState::Rejected(r) => ArchivedV::Rejected(r@),
            ArchivedState::Failed => ArchivedV::Failed,
        }
    }
}

impl Clone for ArchivedState {
    fn clone(&self) -> (r: Self)
        ensures
            r@ == self@,
    {
        match self {
            ArchivedState::Funded(n) => ArchivedState::Funded(*n),
            ArchivedState::Retracted => ArchivedState::Retracted,
            ArchivedState::Rejected(r) => ArchivedState::Rejected(r.clone()),
            ArchivedState::Failed => ArchivedState::Failed,
        }
    }
}

/// Where a grant stands.
pub enum GrantState {
    /// Not shown until submitted.
    Draft,
    /// Submitted and waiting.
    Incoming,
    Checking,
    Board,
    Accepted(u32),
    Paid(u32),
    Archived(ArchivedState),
    /// Submitted, waiting for the applicant to confirm their e-mail address
    /// with this token.
    Pending(String),
}

/// The model of [`GrantState`].
pub enum StateV {
    Draft,
    Incoming,
    Checking,
    Board,
    Accepted(u32),
    Paid(u32),
    Archived(ArchivedV),
    Pending(Seq<char>),
}

impl View for GrantState {
    type V = StateV;

    open spec fn view(&self) -> StateV {
        match self {
            GrantState::Draft => StateV::Draft,
            GrantState::Incoming => StateV::Incoming,
            GrantState::Checking => StateV::Checking,
            GrantState::Board => StateV::Board,
            GrantState::Accepted(n) => StateV::Accepted(*n),
            GrantState::Paid(n) => StateV::Paid(*n),
            GrantState::Archived(a) => StateV::Archived(a@),
            GrantState::Pending(t) => StateV::Pending(t@),
        }
    }
}

impl Clone for GrantState {
    fn clone(&self) -> (r: Self)
        ensures
            r@ == self@,
    {
        match self {
            GrantState::Draft => GrantState::Draft,
            GrantState::Incoming => GrantState::Incoming,
            GrantState::Checking => GrantState::Checking,
            GrantState::Board => GrantState::Board,
            GrantState::Accepted(n) => GrantState::Accepted(*n),
            GrantState::Paid(n) => GrantState::Paid(*n),
            GrantState::Archived(a) => GrantState::Archived(a.clone()),
            GrantState::Pending(t) => GrantState::Pending(t.clone()),
        }
    }
}

impl StateV {
    /// The state's short name, as lists and pages show it.
    pub open spec fn short_name(self) -> Seq<char> {
        match self {
            StateV::Draft => "draft"@,
            StateV::Incoming => "incoming"@,
            StateV::Checking => "checking"@,
            StateV::Board => "board"@,
            StateV::Accepted(_) => "accepted"@,
            StateV::Paid(_) => "paid"@,
            StateV::Archived(_) => "archived"@,
            StateV::Pending(_) => "pending"@,
        }
    }
}

/// What `{:?}` writes for a rejection reason.
pub open spec fn reason_debug(r: ReasonV) -> Seq<char> {
    match r {
        ReasonV::OutOfMoney => "OutOfMoney"@,
        ReasonV::OutOfQuota => "OutOfQuota"@,
        ReasonV::Formal(s) => "Formal("@ + debug_quoted(s) + ")"@,
        ReasonV::Other(s) => "Other("@ + debug_quoted(s) + ")"@,
    }
}

/// What `{:?}` writes for an archived state.
pub open spec fn archived_debug(a: ArchivedV) -> Seq<char> {
    match a {
        ArchivedV::Funded(n) => "Funded("@ + decimal(n as nat) + ")"@,
        ArchivedV::Retracted => "Retracted"@,
        ArchivedV::Rejected(r) => "Rejected("@ + reason_debug(r) + ")"@,
        ArchivedV::Failed => "Failed"@,
    }
}

/// What `{:?}` writes for a grant state.
pub open spec fn state_debug(s: StateV) -> Seq<char> {
    match s {
        StateV::Draft => "Draft"@,
        StateV::Incoming => "Incoming"@,
        StateV::Checking => "Checking"@,
        StateV::Board => "Board"@,
        StateV::Accepted(n) => "Accepted("@ + decimal(n as nat) + ")"@,
        StateV::Paid(n) => "Paid("@ + decimal(n as nat) + ")"@,
        StateV::Archived(a) => "Archived("@ + archived_debug(a) + ")"@,
        StateV::Pending(t) => "Pending("@ + debug_quoted(t) + ")"@,
    }
}

/// `head`, then `inner`, then a closing bracket.
fn wrapped(head: &str, inner: &str) -> (r: String)
    ensures
        r@ == head@ + inner@ + ")"@,
{
    let mut r = join(head, inner);
    r.append(")");
    r
}

impl RejectionReason {
    /// The reason as `{:?}` writes it.
    pub fn debug_text(&self) -> (r: String)
        ensures
            r@ == reason_debug(self@),
    {
        match self {
            RejectionReason::OutOfMoney => owned("OutOfMoney"),
            RejectionReason::OutOfQuota => owned("OutOfQuota"),
            RejectionReason::Formal(s) => wrapped("Formal(", debug_str(s.as_str()).as_str()),
            RejectionReason::Other(s) => wrapped("Other(", debug_str(s.as_str()).as_str()),
        }
    }
}

impl ArchivedState {
    /// The archived state as `{:?}` writes it.
    pub fn debug_text(&self) -> (r: String)
        ensures
            r@ == archived_debug(self@),
    {
        match self {
            ArchivedState::Funded(n) => wrapped("Funded(", to_decimal(*n).as_str()),
            ArchivedState::Retracted => owned("Retracted"),
            ArchivedState::Rejected(r) => wrapped("Rejected(", r.debug_text().as_str()),
            ArchivedState::Failed => owned("Failed"),
        }
    }
}

impl GrantState {
    /// The state's short name, as lists and pages show it.
    pub fn short_name(&self) -> (r: &'static str)
        ensures
            r@ == self@.short_name(),
    {
        match self {
            GrantState::Draft => "draft",
            GrantState::Incoming => "incoming",
            GrantState::Checking => "checking",
            GrantState::Board => "board",
            GrantState::Accepted(_) => "accepted",
            GrantState::Paid(_) => "paid",
            GrantState::Archived(_) => "archived",
            GrantState::Pending(_) => "pending",
        }
    }

    /// The state as `{:?}` writes it.
    pub fn debug_text(&self) -> (r: String)
        ensures
            r@ == state_debug(self@),
    {
        match self {
            GrantState::Draft => owned("Draft"),
            GrantState::Incoming => owned("Incoming"),
            GrantState::Checking => owned("Checking"),
            GrantState::Board => owned("Board"),
            GrantState::Accepted(n) => wrapped("Accepted(", to_decimal(*n).as_str()),
            GrantState::Paid(n) => wrapped("Paid(", to_decimal(*n).as_str()),
            GrantState::Archived(a) => wrapped("Archived(", a.debug_text().as_str()),
            GrantState::Pending(t) => wrapped("Pending(", debug_str(t.as_str()).as_str()),
        }
    }
}

/// One move of a grant: from where, to where, by whom, when, and why.
pub struct StateActivity {
    pub from: GrantState,
    pub to: GrantState,
    pub by: String,
    pub when: u64,
    pub comment: Option<String>,
}

/// The model of [`StateActivity`].
pub struct ActivityV {
    pub from: StateV,
    pub to: StateV,
    pub by: Seq<char>,
    pub when: u64,
    pub comment: Option<Seq<char>>,
}

impl View for StateActivity {
    type V = ActivityV;

    open spec fn view(&self) -> ActivityV {
        ActivityV {
            from: self.from@,
            to: self.to@,
            by: self.by@,
            when: self.when,
            comment: self.comment.deep_view(),
        }
    }
}

/// What a grant's details must offer: a way to drop the personal data they
/// hold, once the grant is archived.
pub trait Archivable: View + Sized {
    /// The details once archived.
    spec fn archival(v: Self::V) -> Self::V;

    /// Drops the personal data.
    fn archive(&mut self)
        ensures
            final(self)@ == Self::archival(old(self)@),
    ;
}

/// The details of an application for an activist grant.
pub struct AktivistiGrantDetails {
    pub grant_info: GrantInfo,
    pub person: Person,
    pub identities: Vec<Identity>,
    pub bank: Bank,
    pub extra: ExtraInfo,
}

/// The model of [`AktivistiGrantDetails`].
pub struct AktivistiDetailsV {
    pub grant_info: GrantInfoV,
    pub person: PersonV,
    pub identities: Seq<Identity>,
    pub bank: BankV,
    pub extra: ExtraInfoV,
}

impl View for AktivistiGrantDetails {
    type V = AktivistiDetailsV;

    open spec fn view(&self) -> AktivistiDetailsV {
        AktivistiDetailsV {
            grant_info: self.grant_info@,
            person: self.person@,
            identities: self.identities@,
            bank: self.bank@,
            extra: self.extra@,
        }
    }
}

impl Archivable for AktivistiGrantDetails {
    open spec fn archival(v: AktivistiDetailsV) -> AktivistiDetailsV {
        AktivistiDetailsV { person: v.person.archived(), bank: v.bank.archived(), ..v }
    }

    fn archive(&mut self) {
        self.person.archive();
        self.bank.archive();
    }
}

impl From<AktivistiGrantForm> for AktivistiGrantDetails {
    fn from(a: AktivistiGrantForm) -> (r: AktivistiGrantDetails) {
        AktivistiGrantDetails {
            grant_info: a.grant_info,
            person: Person::Detail(a.person),
            identities: a.identities,
            bank: Bank::Detail(a.bank),
            extra: a.extra,
        }
    }
}

impl vstd::std_specs::convert::FromSpecImpl<AktivistiGrantForm> for AktivistiGrantDetails {
    open spec fn obeys_from_spec() -> bool {
        true
    }

    open spec fn from_spec(a: AktivistiGrantForm) -> AktivistiGrantDetails {
        AktivistiGrantDetails {
            grant_info: a.grant_info,
            person: Person::Detail(a.person),
            identities: a.identities,
            bank: Bank::Detail(a.bank),
            extra: a.extra,
        }
    }
}

/// The details of an application for an event grant.
pub struct EventGrantDetails {
    pub grant_info: GrantInfo,
    pub event_info: EventInfo,
    pub person: Person,
    pub identities: Vec<Identity>,
    pub bank: Bank,
    pub extra: ExtraInfo,
}

/// The model of [`EventGrantDetails`].
pub struct EventDetailsV {
    pub grant_info: GrantInfoV,
    pub event_info: EventInfoV,
    pub person: PersonV,
    pub identities: Seq<Identity>,
    pub bank: BankV,
    pub extra: ExtraInfoV,
}

impl View for EventGrantDetails {
    type V = EventDetailsV;

    open spec fn view(&self) -> EventDetailsV {
        EventDetailsV {
            grant_info: self.grant_info@,
            event_info: self.event_info@,
            person: self.person@,
            identities: self.identities@,
            bank: self.bank@,
            extra: self.extra@,
        }
    }
}

impl Archivable for EventGrantDetails {
    open spec fn archival(v: EventDetailsV) -> EventDetailsV {
        EventDetailsV { person: v.person.archived(), bank: v.bank.archived(), ..v }
    }

    fn archive(&mut self) {
        self.person.archive();
        self.bank.archive();
    }
}

impl From<EventGrantForm> for EventGrantDetails {
    fn from(a: EventGrantForm) -> (r: EventGrantDetails) {
        EventGrantDetails {
            grant_info: a.grant_info,
            event_info: a.event_info,
            person: Person::Detail(a.person),
            identities: a.identities,
            bank: Bank::Detail(a.bank),
            extra: a.extra,
        }
    }
}

impl vstd::std_specs::convert::FromSpecImpl<EventGrantForm> for EventGrantDetails {
    open spec fn obeys_from_spec() -> bool {
        true
    }

    open spec fn from_spec(a: EventGrantForm) -> EventGrantDetails {
        EventGrantDetails {
            grant_info: a.grant_info,
            event_info: a.event_info,
            person: Person::Detail(a.person),
            identities: a.identities,
            bank: Bank::Detail(a.bank),
            extra: a.extra,
        }
    }
}

/// What asking to move a grant to a stage leads to.
pub enum Step {
    /// The grant is at that stage already; nothing changes.
    Stay,
    /// The grant moves to this state.
    Move(StateV),
    /// The move is not supported from where the grant stands.
    Refuse,
}

/// The text of an optional comment, empty when there is none.
pub open spec fn comment_text(c: Option<Seq<char>>) -> Seq<char> {
    match c {
        Some(t) => t,
        None => Seq::empty(),
    }
}

/// Where asking for `stage` leads from `cur`. `amount` is what an accepted
/// or funded grant is granted when no amount was accepted before; `comment`
/// gives the reason of a rejection.
pub open spec fn step_for(stage: Seq<char>, cur: StateV, amount: u32, comment: Option<Seq<char>>) -> Step {
    if (stage == "draft"@ && cur is Draft) || (stage == "incoming"@ && cur is Incoming)
        || (stage == "checking"@ && cur is Checking) || (stage == "board"@ && cur is Board)
        || (stage == "accepted"@ && cur is Accepted) || (stage == "paid"@ && cur is Paid)
        || (stage == "pending"@ && cur is Pending)
        || ((stage == "archive"@ || stage == "rejected"@ || stage == "retracted"@ || stage == "failed"@)
        && cur is Archived) {
        Step::Stay
    } else if stage == "checking"@ {
        Step::Move(StateV::Checking)
    } else if stage == "board"@ {
        Step::Move(StateV::Board)
    } else if stage == "outofmoney"@ {
        Step::Move(StateV::Archived(ArchivedV::Rejected(ReasonV::OutOfMoney)))
    } else if stage == "outofquota"@ {
        Step::Move(StateV::Archived(ArchivedV::Rejected(ReasonV::OutOfQuota)))
    } else if stage == "reject"@ {
        Step::Move(StateV::Archived(ArchivedV::Rejected(ReasonV::Other(comment_text(comment)))))
    } else if stage == "formal_reject"@ {
        Step::Move(StateV::Archived(ArchivedV::Rejected(ReasonV::Formal(comment_text(comment)))))
    } else if stage == "failed"@ {
        Step::Move(StateV::Archived(ArchivedV::Failed))
    } else if stage == "retracted"@ {
        Step::Move(StateV::Archived(ArchivedV::Retracted))
    } else if stage == "accepted"@ {
        Step::Move(StateV::Accepted(amount))
    } else if stage == "paid"@ && cur is Accepted {
        Step::Move(StateV::Paid(cur->Accepted_0))
    } else if stage == "funded"@ && cur is Accepted {
        Step::Move(StateV::Archived(ArchivedV::Funded(cur->Accepted_0)))
    } else if stage == "incoming"@ && cur is Pending {
        Step::Move(StateV::Incoming)
    } else if stage == "arcbive"@ && cur is Paid {
        Step::Move(StateV::Archived(ArchivedV::Funded(cur->Paid_0)))
    } else if stage == "funded"@ {
        Step::Move(StateV::Archived(ArchivedV::Funded(amount)))
    } else {
        Step::Refuse
    }
}

/// The message for a move that is not supported.
pub open spec fn refusal(cur: StateV, stage: Seq<char>) -> Seq<char> {
    "Unsupported transition "@ + state_debug(cur) + " => "@ + stage
}

/// The e-mail to send on reaching state `n`: its subject and the template
/// of its body.
pub open spec fn notification(n: StateV) -> Option<(Seq<char>, Seq<char>)> {
    match n {
        StateV::Paid(_) => Some(
            (
                "Dein Radikal*Fund Antrag wurde bewilligt, das Geld ist unterwegs"@,
                "grants/emails/ausgezahlt"@,
            ),
        ),
        StateV::Archived(ArchivedV::Rejected(_)) => Some(
            ("Dein Radikal*Fund Antrag wurde abgelehnt"@, "grants/emails/abgelehnt"@),
        ),
        StateV::Archived(ArchivedV::Failed) => Some(
            ("Dein Radikal*Fund Antrag wurde nicht gefundet"@, "grants/emails/not_funded"@),
        ),
        _ => None,
    }
}

/// The texts of an optional pair of strings.
pub open spec fn pair_texts(p: Option<(String, String)>) -> Option<(Seq<char>, Seq<char>)> {
    match p {
        Some(q) => Some((q.0@, q.1@)),
        None => None,
    }
}

/// A grant application on its way through the process.
pub struct GrantProcess<T> {
    pub created: u64,
    pub last_updated: u64,
    pub title: String,
    pub state: GrantState,
    /// The moves so far, the latest first.
    pub activities: Vec<StateActivity>,
    pub details: T,
}

impl<T: Archivable> GrantProcess<T> {
    /// Whether `after` and the result `r` are what asking for `stage`, by
    /// `user` with `amount` and `comment`, at time `when`, makes of `self`.
    pub open spec fn moves_to(
        self,
        after: Self,
        stage: Seq<char>,
        user: Seq<char>,
        amount: u32,
        comment: Option<Seq<char>>,
        when: u64,
        r: Result<Option<(String, String)>, String>,
    ) -> bool {
        match step_for(stage, self.state@, amount, comment) {
            Step::Stay => r == Ok::<Option<(String, String)>, String>(None) && after == self,
            Step::Refuse => (r matches Err(e) && e@ == refusal(self.state@, stage)) && after == self,
            Step::Move(n) => {
                &&& r matches Ok(note) && pair_texts(note) == notification(n)
                &&& after.state@ == n
                &&& after.created == self.created
                &&& after.last_updated == when
                &&& after.title == self.title
                &&& after.activities@.len() == self.activities@.len() + 1
                &&& after.activities@.skip(1) == self.activities@
                &&& after.activities@[0]@ == (ActivityV {
                    from: self.state@,
                    to: n,
                    by: user,
                    when: when,
                    comment: comment,
                })
                &&& if n is Archived {
                    after.details@ == T::archival(self.details@)
                } else {
                    after.details == self.details
                }
            },
        }
    }

    /// Asks to move the grant to `next_stage` at time `when`. Reaching the
    /// stage it is at changes nothing; an unsupported move is an error and
    /// changes nothing; otherwise the state changes, the move is recorded
    /// first in the activities, archiving drops the personal details, and the
    /// e-mail to send, if any, comes back.
    pub fn transition_to_at(
        &mut self,
        next_stage: &str,
        user: String,
        amount: u32,
        comment: Option<String>,
        when: u64,
    ) -> (r: Result<Option<(String, String)>, String>)
        ensures
            old(self).moves_to(*final(self), next_stage@, user@, amount, comment.deep_view(), when, r),
    {
        let stay = match &self.state {
            GrantState::Draft => str_eq(next_stage, "draft"),
            GrantState::Incoming => str_eq(next_stage, "incoming"),
            GrantState::Checking => str_eq(next_stage, "checking"),
            GrantState::Board => str_eq(next_stage, "board"),
            GrantState::Accepted(_) => str_eq(next_stage, "accepted"),
            GrantState::Paid(_) => str_eq(next_stage, "paid"),
            GrantState::Archived(_) => str_eq(next_stage, "archive") || str_eq(next_stage, "rejected")
                || str_eq(next_stage, "retracted") || str_eq(next_stage, "failed"),
            GrantState::Pending(_) => str_eq(next_stage, "pending"),
        };
        if stay {
            return Ok(None);
        }
        let reason = match &comment {
            Some(c) => c.clone(),
            None => String::new(),
        };
        let next = if str_eq(next_stage, "checking") {
            GrantState::Checking
        } else if str_eq(next_stage, "board") {
            GrantState::Board
        } else if str_eq(next_stage, "outofmoney") {
            GrantState::Archived(ArchivedState::Rejected(RejectionReason::OutOfMoney))
        } else if str_eq(next_stage, "outofquota") {
            GrantState::Archived(ArchivedState::Rejected(RejectionReason::OutOfQuota))
        } else if str_eq(next_stage, "reject") {
            GrantState::Archived(ArchivedState::Rejected(RejectionReason::Other(reason)))
        } else if str_eq(next_stage, "formal_reject") {
            GrantState::Archived(ArchivedState::Rejected(RejectionReason::Formal(reason)))
        } else if str_eq(next_stage, "failed") {
            GrantState::Archived(ArchivedState::Failed)
        } else if str_eq(next_stage, "retracted") {
            GrantState::Archived(ArchivedState::Retracted)
        } else if str_eq(next_stage, "accepted") {
            GrantState::Accepted(amount)
        } else {
            let paid = str_eq(next_stage, "paid");
            let funded = str_eq(next_stage, "funded");
            let arcbive = str_eq(next_stage, "arcbive");
            let incoming = str_eq(next_stage, "incoming");
            match &self.state {
                GrantState::Accepted(a) if paid => GrantState::Paid(*a),
                GrantState::Accepted(a) if funded => GrantState::Archived(ArchivedState::Funded(*a)),
                GrantState::Pending(_) if incoming => GrantState::Incoming,
                GrantState::Paid(a) if arcbive => GrantState::Archived(ArchivedState::Funded(*a)),
                _ => {
                    if funded {
                        GrantState::Archived(ArchivedState::Funded(amount))
                    } else {
                        let mut e = join("Unsupported transition ", self.state.debug_text().as_str());
                        e.append(" => ");
                        e.append(next_stage);
                        return Err(e);
                    }
                },
            }
        };
        let res = match &next {
            GrantState::Paid(_) => Some(
                (
                    owned("Dein Radikal*Fund Antrag wurde bewilligt, das Geld ist unterwegs"),
                    owned("grants/emails/ausgezahlt"),
                ),
            ),
            GrantState::Archived(ArchivedState::Rejected(_)) => Some(
                (owned("Dein Radikal*Fund Antrag wurde abgelehnt"), owned("grants/emails/abgelehnt")),
            ),
            GrantState::Archived(ArchivedState::Failed) => Some(
                (owned("Dein Radikal*Fund Antrag wurde nicht gefundet"), owned("grants/emails/not_funded")),
            ),
            _ => None,
        };
        if let GrantState::Archived(_) = &next {
            self.details.archive();
        }
        self.last_updated = when;
        let from = self.state.clone();
        self.state = next.clone();
        let act = StateActivity { from, to: next, by: user, when, comment };
        self.activities.insert(0, act);
        assert(self.activities@.skip(1) =~= old(self).activities@);
        Ok(res)
    }

    /// Asks to move the grant to `next_stage` now: as
    /// [`GrantProcess::transition_to_at`], the time being the clock's, which
    /// then stands as the last update.
    pub fn transition_to(&mut self, next_stage: &str, user: String, amount: u32, comment: Option<String>) -> (r:
        Result<Option<(String, String)>, String>)
        ensures
            old(self).moves_to(
                *final(self),
                next_stage@,
                user@,
                amount,
                comment.deep_view(),
                final(self).last_updated,
                r,
            ),
    {
        let when = now();
        self.transition_to_at(next_stage, user, amount, comment, when)
    }
}

/// The current time in seconds since the Unix epoch; a clock set before the
/// epoch reads as zero, so that every record still carries a time.
fn now() -> u64 {
    match seconds_since_epoch() {
        Some(s) => s,
        None => 0,
    }
}

impl<T: Archivable> GrantProcess<T> {
    /// A new process for `details`, made at time `when` under `title`:
    /// pending until the applicant confirms with `token`, with no moves yet.
    pub fn new_at(details: T, when: u64, title: String, token: String) -> (r: Self)
        ensures
            r.created == when,
            r.last_updated == when,
            r.title == title,
            r.state@ == StateV::Pending(token@),
            r.activities@.len() == 0,
            r.details == details,
    {
        GrantProcess {
            created: when,
            last_updated: when,
            title,
            state: GrantState::Pending(token),
            activities: Vec::new(),
            details,
        }
    }

    /// A new process for `details`, made now under a title of five random
    /// icons: pending until the applicant confirms with a fresh random
    /// token, with no moves yet.
    pub fn from(details: T) -> (r: Self)
        ensures
            r.created == r.last_updated,
            is_icon_title(r.title@, 5),
            r.state@ is Pending,
            r.activities@.len() == 0,
            r.details == details,
    {
        let when = now();
        let title = make_random_title(5);
        let token = fresh_token();
        Self::new_at(details, when, title, token)
    }
}

/// A request to move a grant on, as an administrator submits it.
pub struct NextStageForm {
    pub next: String,
    pub comment: Option<String>,
    pub send_mail: bool,
}

impl NextStageForm {
    /// A request to move to `next`, with no comment and no e-mail.
    pub fn new_simple(next: &str) -> (r: NextStageForm)
        ensures
            r.next@ == next@,
            r.comment is None,
            !r.send_mail,
    {
        NextStageForm { next: owned(next), comment: None, send_mail: false }
    }
}

/// What confirming an applicant's e-mail address came to.
#[derive(Clone, Copy, Debug, PartialEq, Eq, Structural)]
pub enum Confirmation {
    /// The grant was no longer pending; nothing changed.
    AlreadyConfirmed,
    /// The token matched; the grant is now incoming.
    Confirmed,
    /// The token did not match; nothing changed.
    TokenMismatch,
}

impl Confirmation {
    /// The notice shown for this outcome.
    pub fn message(&self) -> (r: &'static str)
        ensures
            r@ == match *self {
                Confirmation::AlreadyConfirmed => "Email bereits bestätigt."@,
                Confirmation::Confirmed => "Email Adresse bestätigt"@,
                Confirmation::TokenMismatch => "Token stimmt nicht überein"@,
            },
    {
        match self {
            Confirmation::AlreadyConfirmed => "Email bereits bestätigt.",
            Confirmation::Confirmed => "Email Adresse bestätigt",
            Confirmation::TokenMismatch => "Token stimmt nicht überein",
        }
    }
}

/// The user name recorded for a move that the applicant makes by
/// confirming their e-mail address.
pub open spec fn applicant_name() -> Seq<char> {
    "_Antragstellerin_"@
}

proof fn lemma_incoming_is_no_other_stage()
    ensures
        "incoming"@ != "draft"@,
        "incoming"@ != "checking"@,
        "incoming"@ != "board"@,
        "incoming"@ != "accepted"@,
        "incoming"@ != "paid"@,
        "incoming"@ != "archive"@,
        "incoming"@ != "rejected"@,
        "incoming"@ != "retracted"@,
        "incoming"@ != "failed"@,
        "incoming"@ != "outofmoney"@,
        "incoming"@ != "outofquota"@,
        "incoming"@ != "reject"@,
        "incoming"@ != "formal_reject"@,
        "incoming"@ != "pending"@,
{
    reveal_strlit("incoming");
    reveal_strlit("draft");
    reveal_strlit("checking");
    reveal_strlit("board");
    reveal_strlit("accepted");
    reveal_strlit("paid");
    reveal_strlit("archive");
    reveal_strlit("rejected");
    reveal_strlit("retracted");
    reveal_strlit("failed");
    reveal_strlit("outofmoney");
    reveal_strlit("outofquota");
    reveal_strlit("reject");
    reveal_strlit("formal_reject");
    reveal_strlit("pending");
    assert("incoming"@[0] == 'i');
    assert("incoming"@.len() == 8);
    assert("checking"@[0] == 'c');
    assert("accepted"@[0] == 'a');
    assert("rejected"@[0] == 'r');
    assert("draft"@.len() == 5);
    assert("board"@.len() == 5);
    assert("paid"@.len() == 4);
    assert("archive"@.len() == 7);
    assert("retracted"@.len() == 9);
    assert("failed"@.len() == 6);
    assert("outofmoney"@.len() == 10);
    assert("outofquota"@.len() == 10);
    assert("reject"@.len() == 6);
    assert("formal_reject"@.len() == 13);
    assert("pending"@.len() == 7);
}

/// Confirming a pending grant moves it to `incoming`, whatever the amount.
pub proof fn lemma_confirming_moves_to_incoming(t: Seq<char>, amount: u32)
    ensures
        step_for("incoming"@, StateV::Pending(t), amount, None) == Step::Move(StateV::Incoming),
{
    lemma_incoming_is_no_other_stage();
}

/// A stored grant application of either kind.
pub enum Model {
    AktivistiGrant(GrantProcess<AktivistiGrantDetails>),
    EventGrant(GrantProcess<EventGrantDetails>),
}

impl Model {
    /// Where the grant stands.
    pub open spec fn state_v(&self) -> StateV {
        match self {
            Model::AktivistiGrant(g) => g.state@,
            Model::EventGrant(g) => g.state@,
        }
    }

    /// The applicant.
    pub open spec fn person_v(&self) -> PersonV {
        match self {
            Model::AktivistiGrant(g) => g.details.person@,
            Model::EventGrant(g) => g.details.person@,
        }
    }

    /// The account to pay to.
    pub open spec fn bank_v(&self) -> BankV {
        match self {
            Model::AktivistiGrant(g) => g.details.bank@,
            Model::EventGrant(g) => g.details.bank@,
        }
    }

    /// The grant's title.
    pub open spec fn title_v(&self) -> String {
        match self {
            Model::AktivistiGrant(g) => g.title,
            Model::EventGrant(g) => g.title,
        }
    }

    /// The short name of the state the grant is in.
    pub fn state_name(&self) -> (r: Option<&'static str>)
        ensures
            r matches Some(n) && n@ == self.state_v().short_name(),
    {
        match self {
            Model::EventGrant(g) => Some(g.state.short_name()),
            Model::AktivistiGrant(g) => Some(g.state.short_name()),
        }
    }

    /// Moves the grant on as `next` asks, on behalf of `who`, with the amount
    /// the application asked for; see [`GrantProcess::transition_to`].
    pub fn next_stage(&mut self, who: String, next: NextStageForm) -> (r: Result<
        Option<(String, String)>,
        String,
    >)
        ensures
            match (*old(self), *final(self)) {
                (Model::AktivistiGrant(a), Model::AktivistiGrant(b)) => a.moves_to(
                    b,
                    next.next@,
                    who@,
                    a.details.grant_info.amount,
                    next.comment.deep_view(),
                    b.last_updated,
                    r,
                ),
                (Model::EventGrant(a), Model::EventGrant(b)) => a.moves_to(
                    b,
                    next.next@,
                    who@,
                    a.details.grant_info.amount,
                    next.comment.deep_view(),
                    b.last_updated,
                    r,
                ),
                _ => false,
            },
    {
        match self {
            Model::EventGrant(process) => {
                let amount = process.details.grant_info.amount;
                process.transition_to(next.next.as_str(), who, amount, next.comment)
            },
            Model::AktivistiGrant(process) => {
                let amount = process.details.grant_info.amount;
                process.transition_to(next.next.as_str(), who, amount, next.comment)
            },
        }
    }

    /// The grant's title.
    pub fn title(&self) -> (r: Option<&String>)
        ensures
            r matches Some(t) && *t == self.title_v(),
    {
        match self {
            Model::EventGrant(g) => Some(&g.title),
            Model::AktivistiGrant(g) => Some(&g.title),
        }
    }

    /// The applicant's e-mail address and name, while they are known.
    pub fn get_addr_info(&self) -> (r: Option<(String, String)>)
        ensures
            match self.person_v() {
                PersonV::Detail(d) => r matches Some(p) && p.0@ == d.email && p.1@ == d.name,
                PersonV::Anonymised(_) => r is None,
            },
    {
        match self {
            Model::EventGrant(g) => g.details.person.get_addr_info(),
            Model::AktivistiGrant(g) => g.details.person.get_addr_info(),
        }
    }

    /// The keys under which grants of the same applicant and of the same
    /// account are found.
    pub fn get_rel_ids(&self) -> (r: (String, String))
        ensures
            r.0@ == self.person_v().id(),
            r.1@ == self.bank_v().id(),
    {
        match self {
            Model::EventGrant(g) => (g.details.person.id(), g.details.bank.id()),
            Model::AktivistiGrant(g) => (g.details.person.id(), g.details.bank.id()),
        }
    }

    /// The token the applicant confirms their e-mail address with, while
    /// the grant is pending.
    pub fn email_token(&self) -> (r: Option<&String>)
        ensures
            match self.state_v() {
                StateV::Pending(t) => r matches Some(x) && x@ == t,
                _ => r is None,
            },
    {
        let state = match self {
            Model::EventGrant(g) => &g.state,
            Model::AktivistiGrant(g) => &g.state,
        };
        match state {
            GrantState::Pending(t) => Some(t),
            _ => None,
        }
    }

    /// Confirms the applicant's e-mail address with `token`: a grant that is
    /// no longer pending stays as it is; a pending one whose token matches
    /// moves to `incoming` on behalf of the applicant; a wrong token changes
    /// nothing.
    pub fn confirm_email(&mut self, token: &str) -> (r: Confirmation)
        ensures
            match old(self).state_v() {
                StateV::Pending(t) => if t == token@ {
                    &&& r == Confirmation::Confirmed
                    &&& final(self).state_v() == StateV::Incoming
                    &&& match (*old(self), *final(self)) {
                        (Model::AktivistiGrant(a), Model::AktivistiGrant(b)) => a.moves_to(
                            b,
                            "incoming"@,
                            applicant_name(),
                            a.details.grant_info.amount,
                            None,
                            b.last_updated,
                            Ok(None),
                        ),
                        (Model::EventGrant(a), Model::EventGrant(b)) => a.moves_to(
                            b,
                            "incoming"@,
                            applicant_name(),
                            a.details.grant_info.amount,
                            None,
                            b.last_updated,
                            Ok(None),
                        ),
                        _ => false,
                    }
                } else {
                    r == Confirmation::TokenMismatch && *final(self) == *old(self)
                },
                _ => r == Confirmation::AlreadyConfirmed && *final(self) == *old(self),
            },
    {
        let matches = match self.email_token() {
            Some(t) => Some(str_eq(t.as_str(), token)),
            None => None,
        };
        match matches {
            None => Confirmation::AlreadyConfirmed,
            Some(false) => Confirmation::TokenMismatch,
            Some(true) => {
                proof {
                    reveal_strlit("_Antragstellerin_");
                    match old(self).state_v() {
                        StateV::Pending(t) => {
                            lemma_confirming_moves_to_incoming(t, match *old(self) {
                                Model::AktivistiGrant(a) => a.details.grant_info.amount,
                                Model::EventGrant(a) => a.details.grant_info.amount,
                            });
                        },
                        _ => {},
                    }
                }
                let _ = self.next_stage(owned("_Antragstellerin_"), NextStageForm::new_simple("incoming"));
                Confirmation::Confirmed
            },
        }
    }

    /// A new event grant from a submitted form; see [`GrantProcess::from`].
    pub fn from_event_grant(form: EventGrantForm) -> (r: Model)
        ensures
            match r {
                Model::EventGrant(g) => {
                    &&& g.details == EventGrantDetails::from_spec(form)
                    &&& g.state@ is Pending
                    &&& g.activities@.len() == 0
                    &&& g.created == g.last_updated
                    &&& is_icon_title(g.title@, 5)
                },
                _ => false,
            },
    {
        Model::EventGrant(GrantProcess::from(EventGrantDetails::from(form)))
    }

    /// A new activist grant from a submitted form; see [`GrantProcess::from`].
    pub fn from_aktivisti_grant(form: AktivistiGrantForm) -> (r: Model)
        ensures
            match r {
                Model::AktivistiGrant(g) => {
                    &&& g.details == AktivistiGrantDetails::from_spec(form)
                    &&& g.state@ is Pending
                    &&& g.activities@.len() == 0
                    &&& g.created == g.last_updated
                    &&& is_icon_title(g.title@, 5)
                },
                _ => false,
            },
    {
        Model::AktivistiGrant(GrantProcess::from(AktivistiGrantDetails::from(form)))
    }
}

} // verus!
