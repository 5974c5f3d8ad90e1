//! What holds of the library as a whole: across calls, over every input,
//! and of every state a grant can reach.

use vstd::prelude::*;
use vstd::string::*;
use crate::text::without_spaces;
use crate::outside::lowercased;
use crate::model::{PersonV, BankV, hashed_key};
use crate::forms::{EventGrantFormV, AktivistiGrantFormV, has_prefix};
use crate::grant::{
    Archivable, GrantProcess, StateV, ArchivedV, ReasonV, Step, step_for, comment_text,
    EventGrantDetails, EventDetailsV, AktivistiGrantDetails, AktivistiDetailsV,
};
use crate::quota::{
    QuotaState, quota_of, count_non_white, count_non_man, identity_flags, counts_non_white, counts_non_man,
    relevant,
};
use crate::mail_config::{AuthMechanism, ConnectionReuse, auth_named, reuse_named};
use crate::outside::parse_unsigned;
use crate::model::Identity;
use crate::related::{dedup, without, related_of};

verus! {

/// Archiving a person keeps the key under which their grants are found.
pub proof fn law_archiving_keeps_person_key(p: PersonV)
    ensures
        p.archived().id() == p.id(),
{
}

/// Archiving an account keeps the key under which its grants are found.
pub proof fn law_archiving_keeps_bank_key(b: BankV)
    ensures
        b.archived().id() == b.id(),
{
}

/// An archived person holds no personal details, and archiving again
/// changes nothing.
pub proof fn law_archived_person_is_anonymous(p: PersonV)
    ensures
        p.archived() is Anonymised,
        p.archived().archived() == p.archived(),
{
}

/// An archived account holds no account details, and archiving again
/// changes nothing.
pub proof fn law_archived_bank_is_anonymous(b: BankV)
    ensures
        b.archived() is Anonymised,
        b.archived().archived() == b.archived(),
{
}

/// Archived details of an event grant keep neither the applicant's nor the
/// account's details, and keep everything else.
pub proof fn law_archived_event_details(v: EventDetailsV)
    ensures
        EventGrantDetails::archival(v).person is Anonymised,
        EventGrantDetails::archival(v).bank is Anonymised,
        EventGrantDetails::archival(v).grant_info == v.grant_info,
        EventGrantDetails::archival(v).event_info == v.event_info,
        EventGrantDetails::archival(v).identities == v.identities,
        EventGrantDetails::archival(v).extra == v.extra,
{
}

/// Archived details of an activist grant keep neither the applicant's nor
/// the account's details, and keep everything else.
pub proof fn law_archived_aktivisti_details(v: AktivistiDetailsV)
    ensures
        AktivistiGrantDetails::archival(v).person is Anonymised,
        AktivistiGrantDetails::archival(v).bank is Anonymised,
        AktivistiGrantDetails::archival(v).grant_info == v.grant_info,
        AktivistiGrantDetails::archival(v).identities == v.identities,
        AktivistiGrantDetails::archival(v).extra == v.extra,
{
}

/// Addresses (or IBANs) that differ only in spaces share their key.
pub proof fn law_key_ignores_spaces(a: Seq<char>, b: Seq<char>)
    requires
        without_spaces(a) == without_spaces(b),
    ensures
        hashed_key(a) == hashed_key(b),
{
}

/// Addresses (or IBANs) that agree once spaces are taken out and letters
/// lower-cased share their key.
pub proof fn law_key_follows_normal_form(a: Seq<char>, b: Seq<char>)
    requires
        lowercased(without_spaces(a)) == lowercased(without_spaces(b)),
    ensures
        hashed_key(a) == hashed_key(b),
{
}

/// The stage names that the moves test for are different words.
proof fn lemma_stage_names_distinct()
    ensures
        "checking"@ != "draft"@,
        "checking"@ != "pending"@,
        "checking"@ != "incoming"@,
        "checking"@ != "board"@,
        "checking"@ != "accepted"@,
        "checking"@ != "paid"@,
        "checking"@ != "archive"@,
        "checking"@ != "rejected"@,
        "checking"@ != "retracted"@,
        "checking"@ != "failed"@,
        "checking"@ != "outofmoney"@,
        "checking"@ != "outofquota"@,
        "checking"@ != "reject"@,
        "checking"@ != "formal_reject"@,
        "checking"@ != "funded"@,
        "checking"@ != "arcbive"@,
        "board"@ != "draft"@,
        "board"@ != "pending"@,
        "board"@ != "incoming"@,
        "board"@ != "accepted"@,
        "board"@ != "paid"@,
        "board"@ != "archive"@,
        "board"@ != "rejected"@,
        "board"@ != "retracted"@,
        "board"@ != "failed"@,
        "board"@ != "outofmoney"@,
        "board"@ != "outofquota"@,
        "board"@ != "reject"@,
        "board"@ != "formal_reject"@,
        "board"@ != "funded"@,
        "board"@ != "arcbive"@,
        "accepted"@ != "draft"@,
        "accepted"@ != "pending"@,
        "accepted"@ != "incoming"@,
        "accepted"@ != "paid"@,
        "accepted"@ != "archive"@,
        "accepted"@ != "rejected"@,
        "accepted"@ != "retracted"@,
        "accepted"@ != "failed"@,
        "accepted"@ != "outofmoney"@,
        "accepted"@ != "outofquota"@,
        "accepted"@ != "reject"@,
        "accepted"@ != "formal_reject"@,
        "accepted"@ != "funded"@,
        "accepted"@ != "arcbive"@,
        "paid"@ != "draft"@,
        "paid"@ != "pending"@,
        "paid"@ != "incoming"@,
        "paid"@ != "archive"@,
        "paid"@ != "rejected"@,
        "paid"@ != "retracted"@,
        "paid"@ != "failed"@,
        "paid"@ != "outofmoney"@,
        "paid"@ != "outofquota"@,
        "paid"@ != "reject"@,
        "paid"@ != "formal_reject"@,
        "paid"@ != "funded"@,
        "paid"@ != "arcbive"@,
        "funded"@ != "draft"@,
        "funded"@ != "pending"@,
        "funded"@ != "incoming"@,
        "funded"@ != "archive"@,
        "funded"@ != "rejected"@,
        "funded"@ != "retracted"@,
        "funded"@ != "failed"@,
        "funded"@ != "outofmoney"@,
        "funded"@ != "outofquota"@,
        "funded"@ != "reject"@,
        "funded"@ != "formal_reject"@,
        "funded"@ != "arcbive"@,
        "reject"@ != "draft"@,
        "reject"@ != "pending"@,
        "reject"@ != "incoming"@,
        "reject"@ != "archive"@,
        "reject"@ != "rejected"@,
        "reject"@ != "retracted"@,
        "reject"@ != "failed"@,
        "reject"@ != "outofmoney"@,
        "reject"@ != "outofquota"@,
        "reject"@ != "formal_reject"@,
        "reject"@ != "arcbive"@,
        "formal_reject"@ != "draft"@,
        "formal_reject"@ != "pending"@,
        "formal_reject"@ != "incoming"@,
        "formal_reject"@ != "archive"@,
        "formal_reject"@ != "rejected"@,
        "formal_reject"@ != "retracted"@,
        "formal_reject"@ != "failed"@,
        "formal_reject"@ != "outofmoney"@,
        "formal_reject"@ != "outofquota"@,
        "formal_reject"@ != "arcbive"@,
{
    reveal_strlit("draft");
    reveal_strlit("incoming");
    reveal_strlit("checking");
    reveal_strlit("board");
    reveal_strlit("accepted");
    reveal_strlit("paid");
    reveal_strlit("archive");
    reveal_strlit("rejected");
    reveal_strlit("retracted");
    reveal_strlit("failed");
    reveal_strlit("outofmoney");
    reveal_strlit("outofquota");
    reveal_strlit("reject");
    reveal_strlit("formal_reject");
    reveal_strlit("funded");
    reveal_strlit("arcbive");
    reveal_strlit("pending");
    assert("draft"@.len() == 5);
    assert("incoming"@.len() == 8);
    assert("checking"@.len() == 8);
    assert("board"@.len() == 5);
    assert("accepted"@.len() == 8);
    assert("paid"@.len() == 4);
    assert("archive"@.len() == 7);
    assert("rejected"@.len() == 8);
    assert("retracted"@.len() == 9);
    assert("failed"@.len() == 6);
    assert("outofmoney"@.len() == 10);
    assert("outofquota"@.len() == 10);
    assert("reject"@.len() == 6);
    assert("formal_reject"@.len() == 13);
    assert("funded"@.len() == 6);
    assert("arcbive"@.len() == 7);
    assert("pending"@.len() == 7);
    assert("pending"@[0] == 'p');
    assert("draft"@[0] == 'd');
    assert("board"@[0] == 'b');
    assert("incoming"@[0] == 'i');
    assert("checking"@[0] == 'c');
    assert("accepted"@[0] == 'a');
    assert("rejected"@[0] == 'r');
    assert("archive"@[3] == 'h');
    assert("arcbive"@[3] == 'b');
    assert("failed"@[0] == 'f');
    assert("reject"@[0] == 'r');
    assert("funded"@[0] == 'f');
    assert("failed"@[1] == 'a');
    assert("funded"@[1] == 'u');
    assert("outofmoney"@[5] == 'm');
    assert("outofquota"@[5] == 'q');
}

/// Asking for `checking`, `board` or `accepted` always succeeds, from any
/// state: afterwards the grant stands at the stage of that name.
pub proof fn law_named_stage_is_reached(stage: Seq<char>, cur: StateV, amount: u32, comment: Option<Seq<char>>)
    requires
        stage == "checking"@ || stage == "board"@ || stage == "accepted"@,
    ensures
        match step_for(stage, cur, amount, comment) {
            Step::Stay => cur.short_name() == stage,
            Step::Move(n) => n.short_name() == stage,
            Step::Refuse => false,
        },
{
    lemma_stage_names_distinct();
}

/// Paying an accepted grant pays the accepted amount, and so does funding
/// it; a paid grant goes to `paid`.
pub proof fn law_payment_keeps_accepted_amount(a: u32, amount: u32, comment: Option<Seq<char>>)
    ensures
        step_for("paid"@, StateV::Accepted(a), amount, comment) == Step::Move(StateV::Paid(a)),
        StateV::Paid(a).short_name() == "paid"@,
        step_for("funded"@, StateV::Accepted(a), amount, comment) == Step::Move(
            StateV::Archived(ArchivedV::Funded(a)),
        ),
{
    lemma_stage_names_distinct();
}

/// The lengths and telling characters of the stage words, from which any
/// two of them are seen to differ.
proof fn lemma_stage_words()
    ensures
        "draft"@.len() == 5,
        "draft"@[0] == 'd',
        "incoming"@.len() == 8,
        "incoming"@[0] == 'i',
        "checking"@.len() == 8,
        "checking"@[0] == 'c',
        "board"@.len() == 5,
        "board"@[0] == 'b',
        "accepted"@.len() == 8,
        "accepted"@[0] == 'a',
        "paid"@.len() == 4,
        "paid"@[0] == 'p',
        "pending"@.len() == 7,
        "pending"@[0] == 'p',
        "archive"@.len() == 7,
        "archive"@[0] == 'a',
        "archive"@[3] == 'h',
        "arcbive"@.len() == 7,
        "arcbive"@[0] == 'a',
        "arcbive"@[3] == 'b',
        "rejected"@.len() == 8,
        "rejected"@[0] == 'r',
        "retracted"@.len() == 9,
        "retracted"@[0] == 'r',
        "failed"@.len() == 6,
        "failed"@[0] == 'f',
        "failed"@[1] == 'a',
        "funded"@.len() == 6,
        "funded"@[0] == 'f',
        "funded"@[1] == 'u',
        "reject"@.len() == 6,
        "reject"@[0] == 'r',
        "formal_reject"@.len() == 13,
        "formal_reject"@[0] == 'f',
        "outofmoney"@.len() == 10,
        "outofmoney"@[5] == 'm',
        "outofquota"@.len() == 10,
        "outofquota"@[5] == 'q',
{
    reveal_strlit("draft");
    reveal_strlit("incoming");
    reveal_strlit("checking");
    reveal_strlit("board");
    reveal_strlit("accepted");
    reveal_strlit("paid");
    reveal_strlit("pending");
    reveal_strlit("archive");
    reveal_strlit("arcbive");
    reveal_strlit("rejected");
    reveal_strlit("retracted");
    reveal_strlit("failed");
    reveal_strlit("funded");
    reveal_strlit("reject");
    reveal_strlit("formal_reject");
    reveal_strlit("outofmoney");
    reveal_strlit("outofquota");
}

/// Each word for turning a grant down records its own reason, from any
/// state: `outofmoney` the lack of money, `outofquota` the quota.
pub proof fn law_rejection_reasons_are_kept_apart(cur: StateV, amount: u32, comment: Option<Seq<char>>)
    ensures
        step_for("outofmoney"@, cur, amount, comment) == Step::Move(
            StateV::Archived(ArchivedV::Rejected(ReasonV::OutOfMoney)),
        ),
        step_for("outofquota"@, cur, amount, comment) == Step::Move(
            StateV::Archived(ArchivedV::Rejected(ReasonV::OutOfQuota)),
        ),
{
    lemma_stage_words();
}

/// Outside an archived state, `failed` and `retracted` archive the grant as
/// not funded and as withdrawn; outside an accepted state, `accepted`
/// accepts the amount asked for and `funded` archives it as paid out.
pub proof fn law_closing_words(cur: StateV, amount: u32, comment: Option<Seq<char>>)
    ensures
        !(cur is Archived) ==> step_for("failed"@, cur, amount, comment) == Step::Move(
            StateV::Archived(ArchivedV::Failed),
        ),
        !(cur is Archived) ==> step_for("retracted"@, cur, amount, comment) == Step::Move(
            StateV::Archived(ArchivedV::Retracted),
        ),
        !(cur is Accepted) ==> step_for("accepted"@, cur, amount, comment) == Step::Move(
            StateV::Accepted(amount),
        ),
        !(cur is Accepted) ==> step_for("funded"@, cur, amount, comment) == Step::Move(
            StateV::Archived(ArchivedV::Funded(amount)),
        ),
        cur is Accepted ==> step_for("accepted"@, cur, amount, comment) == Step::Stay,
        cur is Archived ==> step_for("failed"@, cur, amount, comment) == Step::Stay,
{
    lemma_stage_words();
}

/// A paid grant is archived as funded with the amount paid (under the
/// stage word `arcbive`); from any other state that word is refused.
pub proof fn law_archiving_a_paid_grant(cur: StateV, amount: u32, comment: Option<Seq<char>>)
    ensures
        cur matches StateV::Paid(a) ==> step_for("arcbive"@, cur, amount, comment) == Step::Move(
            StateV::Archived(ArchivedV::Funded(a)),
        ),
        !(cur is Paid) ==> step_for("arcbive"@, cur, amount, comment) == Step::Refuse,
{
    lemma_stage_words();
}

/// A grant can be turned down from any state, with the comment as reason.
pub proof fn law_rejection_always_possible(cur: StateV, amount: u32, comment: Option<Seq<char>>)
    ensures
        step_for("reject"@, cur, amount, comment) == Step::Move(
            StateV::Archived(ArchivedV::Rejected(ReasonV::Other(comment_text(comment)))),
        ),
        step_for("formal_reject"@, cur, amount, comment) == Step::Move(
            StateV::Archived(ArchivedV::Rejected(ReasonV::Formal(comment_text(comment)))),
        ),
{
    lemma_stage_names_distinct();
}

/// The history of a process is consistent: the latest move led to the
/// current state, and each move started where the one before it ended.
pub open spec fn history_consistent<T>(p: GrantProcess<T>) -> bool {
    let acts = p.activities@;
    &&& acts.len() > 0 ==> acts[0]@.to == p.state@
    &&& forall|i: int| 0 <= i < acts.len() - 1 ==> #[trigger] acts[i]@.from == acts[i + 1]@.to
}

/// A new process has a consistent history, and every move keeps it so.
pub proof fn law_history_stays_consistent<T: Archivable>(
    p: GrantProcess<T>,
    q: GrantProcess<T>,
    stage: Seq<char>,
    user: Seq<char>,
    amount: u32,
    comment: Option<Seq<char>>,
    when: u64,
    r: Result<Option<(String, String)>, String>,
)
    requires
        history_consistent(p),
        p.moves_to(q, stage, user, amount, comment, when, r),
    ensures
        history_consistent(q),
{
    if let Step::Move(n) = step_for(stage, p.state@, amount, comment) {
        let acts = q.activities@;
        assert forall|i: int| 0 <= i < acts.len() - 1 implies #[trigger] acts[i]@.from == acts[i + 1]@.to by {
            if i > 0 {
                assert(acts[i] == p.activities@[i - 1]);
                assert(acts[i + 1] == p.activities@[i]);
            } else {
                assert(acts[1] == p.activities@[0]);
            }
        }
    }
}

/// A request to move a grant: the stage asked for, by whom, with which
/// amount and comment, and when.
pub struct RequestV {
    pub stage: Seq<char>,
    pub user: Seq<char>,
    pub amount: u32,
    pub comment: Option<Seq<char>>,
    pub when: u64,
}

/// Whether the `i`-th request of a run takes the `i`-th process to the next
/// one, answering with the `i`-th result.
pub open spec fn answers<T: Archivable>(
    ps: Seq<GrantProcess<T>>,
    reqs: Seq<RequestV>,
    rs: Seq<Result<Option<(String, String)>, String>>,
    i: int,
) -> bool {
    ps[i].moves_to(ps[i + 1], reqs[i].stage, reqs[i].user, reqs[i].amount, reqs[i].comment, reqs[i].when, rs[i])
}

/// Whether `ps` are the processes that the requests `reqs` make of `ps[0]`,
/// one after the other, answering `rs`.
pub open spec fn is_run<T: Archivable>(
    ps: Seq<GrantProcess<T>>,
    reqs: Seq<RequestV>,
    rs: Seq<Result<Option<(String, String)>, String>>,
) -> bool {
    &&& ps.len() == reqs.len() + 1
    &&& rs.len() == reqs.len()
    &&& forall|i: int| 0 <= i < reqs.len() ==> #[trigger] answers(ps, reqs, rs, i)
}

/// How many of the first `k` requests of a run changed the grant's state.
pub open spec fn moves_made<T>(ps: Seq<GrantProcess<T>>, reqs: Seq<RequestV>, k: nat) -> nat
    decreases k,
{
    if k == 0 {
        0
    } else {
        let i = k - 1;
        moves_made(ps, reqs, (k - 1) as nat) + if step_for(
            reqs[i].stage,
            ps[i].state@,
            reqs[i].amount,
            reqs[i].comment,
        ) is Move {
            1nat
        } else {
            0nat
        }
    }
}

/// Over any sequence of requests made to a new process: the history stays
/// consistent, the creation time and title never change, a request is
/// answered `Ok` exactly when it is not refused, and the moves recorded are
/// exactly the requests that changed the state.
pub proof fn law_runs_keep_history<T: Archivable>(
    ps: Seq<GrantProcess<T>>,
    reqs: Seq<RequestV>,
    rs: Seq<Result<Option<(String, String)>, String>>,
    k: nat,
)
    requires
        ps[0].activities@.len() == 0,
        is_run(ps, reqs, rs),
        k <= reqs.len(),
    ensures
        history_consistent(ps[k as int]),
        ps[k as int].created == ps[0].created,
        ps[k as int].title == ps[0].title,
        ps[k as int].activities@.len() == moves_made(ps, reqs, k),
        k < reqs.len() ==> (rs[k as int] is Ok <==> step_for(
            reqs[k as int].stage,
            ps[k as int].state@,
            reqs[k as int].amount,
            reqs[k as int].comment,
        ) != Step::Refuse),
    decreases k,
{
    if k < reqs.len() {
        assert(answers(ps, reqs, rs, k as int));
    }
    if k > 0 {
        let i = (k - 1) as int;
        law_runs_keep_history(ps, reqs, rs, (k - 1) as nat);
        assert(answers(ps, reqs, rs, i));
        law_history_stays_consistent(
            ps[i],
            ps[i + 1],
            reqs[i].stage,
            reqs[i].user,
            reqs[i].amount,
            reqs[i].comment,
            reqs[i].when,
            rs[i],
        );
    }
}

/// A process with no moves yet has a consistent history.
pub proof fn law_new_history_consistent<T>(p: GrantProcess<T>)
    requires
        p.activities@.len() == 0,
    ensures
        history_consistent(p),
{
}

/// Once an event grant's applicant and account are anonymised, no move
/// brings their details back.
pub proof fn law_anonymity_is_kept(
    p: GrantProcess<EventGrantDetails>,
    q: GrantProcess<EventGrantDetails>,
    stage: Seq<char>,
    user: Seq<char>,
    amount: u32,
    comment: Option<Seq<char>>,
    when: u64,
    r: Result<Option<(String, String)>, String>,
)
    requires
        p.details.person@ is Anonymised,
        p.details.bank@ is Anonymised,
        p.moves_to(q, stage, user, amount, comment, when, r),
    ensures
        q.details@ == p.details@,
{
}

/// Whether a form key has none of the prefixes an event grant form knows.
pub open spec fn unknown_to_event_form(k: Seq<char>) -> bool {
    !has_prefix(k, "grant_"@) && !has_prefix(k, "id_"@) && !has_prefix(k, "event_"@) && !has_prefix(
        k,
        "person_"@,
    ) && !has_prefix(k, "bank_"@) && !has_prefix(k, "extra_"@)
}

/// Whether a form key has none of the prefixes an activist grant form knows.
pub open spec fn unknown_to_aktivisti_form(k: Seq<char>) -> bool {
    !has_prefix(k, "grant_"@) && !has_prefix(k, "id_"@) && !has_prefix(k, "person_"@) && !has_prefix(
        k,
        "bank_"@,
    ) && !has_prefix(k, "extra_"@)
}

/// Leniently read, an event grant form skips fields it does not know;
/// strictly read, it refuses them.
pub proof fn law_event_form_unknown_fields(items: Seq<(Seq<char>, Seq<char>)>, k: Seq<char>, v: Seq<char>)
    requires
        unknown_to_event_form(k),
    ensures
        EventGrantFormV::from_fields(items.push((k, v)), false) == EventGrantFormV::from_fields(items, false),
        EventGrantFormV::from_fields(items, true) is Ok ==> EventGrantFormV::from_fields(
            items.push((k, v)),
            true,
        ) == Err::<EventGrantFormV, Seq<char>>("Unknown key "@ + k),
{
    assert(items.push((k, v)).drop_last() =~= items);
}

/// Leniently read, an activist grant form skips fields it does not know;
/// strictly read, it refuses them.
pub proof fn law_aktivisti_form_unknown_fields(items: Seq<(Seq<char>, Seq<char>)>, k: Seq<char>, v: Seq<char>)
    requires
        unknown_to_aktivisti_form(k),
    ensures
        AktivistiGrantFormV::from_fields(items.push((k, v)), false) == AktivistiGrantFormV::from_fields(
            items,
            false,
        ),
        AktivistiGrantFormV::from_fields(items, true) is Ok ==> AktivistiGrantFormV::from_fields(
            items.push((k, v)),
            true,
        ) == Err::<AktivistiGrantFormV, Seq<char>>("Unknown key "@ + k),
{
    assert(items.push((k, v)).drop_last() =~= items);
}

/// An applicant who is both non-white and not a man always keeps the quota;
/// otherwise the quota can only be broken for the share the applicant does
/// not add to.
pub proof fn law_quota_breaks_only_for_missing_share(non_white: bool, non_man: bool, entries: Seq<(bool, bool)>)
    ensures
        non_white && non_man ==> quota_of(non_white, non_man, entries) == QuotaState::Within,
        quota_of(non_white, non_man, entries) == QuotaState::BreaksPoc ==> !non_white,
        quota_of(non_white, non_man, entries) == QuotaState::BreaksWomen ==> !non_man,
{
}

/// The quota verdict in full, shares taken in whole percent of the open
/// grants and the new one: the non-white share is broken exactly when the
/// applicant is not non-white and fewer than half are; otherwise the share
/// of non-men is broken exactly when the applicant is a man and fewer than
/// three quarters are not; otherwise the grant keeps the quota.
pub proof fn law_quota_verdict(non_white: bool, non_man: bool, entries: Seq<(bool, bool)>)
    ensures
        ({
            let n = entries.len() + 1;
            let poc = count_non_white(entries) * 100 / n;
            let women = count_non_man(entries) * 100 / n;
            &&& (quota_of(non_white, non_man, entries) == QuotaState::BreaksPoc <==> !non_white && poc < 50)
            &&& (quota_of(non_white, non_man, entries) == QuotaState::BreaksWomen <==> (non_white || poc >= 50)
                && !non_man && women < 75)
            &&& (quota_of(non_white, non_man, entries) == QuotaState::Within <==> (non_white || poc >= 50)
                && (non_man || women >= 75))
        }),
{
}

/// The counts that the quota shares are taken of are the numbers of open
/// grants with each flag set.
pub proof fn law_quota_counts(entries: Seq<(bool, bool)>)
    ensures
        count_non_white(entries) == entries.filter(|e: (bool, bool)| e.0).len(),
        count_non_man(entries) == entries.filter(|e: (bool, bool)| e.1).len(),
    decreases entries.len(),
{
    reveal(Seq::filter);
    if entries.len() > 0 {
        law_quota_counts(entries.drop_last());
    }
}

/// An applicant counts as non-white when some identity they state does,
/// and as not a man when some identity they state does.
pub proof fn law_identity_flags(ids: Seq<Identity>)
    ensures
        identity_flags(ids).0 <==> exists|i: int| 0 <= i < ids.len() && counts_non_white(#[trigger] ids[i]),
        identity_flags(ids).1 <==> exists|i: int| 0 <= i < ids.len() && counts_non_man(#[trigger] ids[i]),
    decreases ids.len(),
{
    if ids.len() > 0 {
        let d = ids.drop_last();
        law_identity_flags(d);
        let last = ids.len() - 1;
        assert forall|i: int| 0 <= i < d.len() implies #[trigger] d[i] == ids[i] by {}
        if identity_flags(ids).0 {
            if counts_non_white(ids.last()) {
                assert(counts_non_white(ids[last]));
            } else {
                let i = choose|i: int| 0 <= i < d.len() && counts_non_white(#[trigger] d[i]);
                assert(counts_non_white(ids[i]));
            }
        }
        if exists|i: int| 0 <= i < ids.len() && counts_non_white(#[trigger] ids[i]) {
            let i = choose|i: int| 0 <= i < ids.len() && counts_non_white(#[trigger] ids[i]);
            if i < last {
                assert(counts_non_white(d[i]));
            }
        }
        if identity_flags(ids).1 {
            if counts_non_man(ids.last()) {
                assert(counts_non_man(ids[last]));
            } else {
                let i = choose|i: int| 0 <= i < d.len() && counts_non_man(#[trigger] d[i]);
                assert(counts_non_man(ids[i]));
            }
        }
        if exists|i: int| 0 <= i < ids.len() && counts_non_man(#[trigger] ids[i]) {
            let i = choose|i: int| 0 <= i < ids.len() && counts_non_man(#[trigger] ids[i]);
            if i < last {
                assert(counts_non_man(d[i]));
            }
        }
    }
}

/// Which single identities make an applicant count as non-white and as
/// not a man; grants count for the quota once they are granted money.
pub proof fn law_quota_counts_whom(i: Identity, st: StateV)
    ensures
        identity_flags(seq![i]).0 <==> (i == Identity::WoC || i == Identity::BIPoC || i == Identity::SintiRoma
            || i == Identity::Muslima || i == Identity::Jewish || i == Identity::NonWhite),
        identity_flags(seq![i]).1 <==> (i == Identity::WoC || i == Identity::Muslima || i == Identity::Trans
            || i == Identity::Woman || i == Identity::Mother || i == Identity::NonMan || i == Identity::Inter
            || i == Identity::Agender),
        relevant(st) <==> (st is Accepted || st is Paid || st == StateV::Archived(ArchivedV::Funded(
            st->Archived_0->Funded_0,
        ))),
{
    assert(seq![i].drop_last() =~= Seq::<Identity>::empty());
    assert(seq![i].last() == i);
    assert(identity_flags(Seq::<Identity>::empty()) == (false, false));
}

/// Asking for the stage a grant is at changes nothing.
pub proof fn law_current_stage_stays(cur: StateV, amount: u32, comment: Option<Seq<char>>)
    ensures
        cur is Draft ==> step_for("draft"@, cur, amount, comment) == Step::Stay,
        cur is Incoming ==> step_for("incoming"@, cur, amount, comment) == Step::Stay,
        cur is Checking ==> step_for("checking"@, cur, amount, comment) == Step::Stay,
        cur is Board ==> step_for("board"@, cur, amount, comment) == Step::Stay,
        cur is Paid ==> step_for("paid"@, cur, amount, comment) == Step::Stay,
        cur is Pending ==> step_for("pending"@, cur, amount, comment) == Step::Stay,
        cur is Archived ==> step_for("archive"@, cur, amount, comment) == Step::Stay,
        cur is Archived ==> step_for("rejected"@, cur, amount, comment) == Step::Stay,
        cur is Archived ==> step_for("retracted"@, cur, amount, comment) == Step::Stay,
{
}

/// Each SMTP auth mechanism is picked by its own name and by no other:
/// `plain`, `login`, `xoauth2`.
pub proof fn law_auth_names(s: Seq<char>)
    ensures
        auth_named(s) == Some(AuthMechanism::Plain) <==> s == "plain"@,
        auth_named(s) == Some(AuthMechanism::Login) <==> s == "login"@,
        auth_named(s) == Some(AuthMechanism::Xoauth2) <==> s == "xoauth2"@,
{
    reveal_strlit("plain");
    reveal_strlit("login");
    reveal_strlit("xoauth2");
    assert("plain"@[0] == 'p');
    assert("login"@[0] == 'l');
    assert("xoauth2"@.len() == 7);
    assert("plain"@.len() == 5);
}

/// Connection reuse: a number (with an optional `+`) that fits in 16 bits
/// limits it to that many e-mails; any other setting lifts the limit
/// exactly when it is `true`, and turns reuse off exactly when it is `false`
/// or `no`.
pub proof fn law_reuse_names(s: Seq<char>)
    ensures
        parse_unsigned(s, u16::MAX as nat) matches Some(v) ==> reuse_named(s) == Some(
            ConnectionReuse::Limited(v as u16),
        ),
        parse_unsigned(s, u16::MAX as nat) is None ==> (reuse_named(s) == Some(ConnectionReuse::Unlimited)
            <==> s == "true"@),
        parse_unsigned(s, u16::MAX as nat) is None ==> (reuse_named(s) == Some(ConnectionReuse::NoReuse)
            <==> (s == "false"@ || s == "no"@)),
{
    reveal_strlit("true");
    reveal_strlit("false");
    reveal_strlit("no");
    assert("true"@.len() == 4);
    assert("false"@.len() == 5);
    assert("no"@.len() == 2);
}

proof fn lemma_dedup_same_elements(s: Seq<u128>)
    ensures
        forall|x: u128|
            #![trigger dedup(s).contains(x)]
            #![trigger s.contains(x)]
            dedup(s).contains(x) <==> s.contains(x),
    decreases s.len(),
{
    if s.len() > 0 {
        let t = s.drop_last();
        lemma_dedup_same_elements(t);
        let d = dedup(t);
        assert(s =~= t.push(s.last()));
        assert forall|x: u128| dedup(s).contains(x) <==> s.contains(x) by {
            if s.contains(x) {
                let i = choose|i: int| 0 <= i < s.len() && s[i] == x;
                if i < s.len() - 1 {
                    assert(t[i] == x);
                    assert(t.contains(x));
                    let j = choose|j: int| 0 <= j < d.len() && d[j] == x;
                    if !(d.len() > 0 && d.last() == s.last()) {
                        assert(dedup(s)[j] == x);
                    }
                } else {
                    if d.len() > 0 && d.last() == s.last() {
                        assert(dedup(s)[d.len() - 1] == x);
                    } else {
                        assert(dedup(s)[d.len() as int] == x);
                    }
                }
            }
            if dedup(s).contains(x) {
                let j = choose|j: int| 0 <= j < dedup(s).len() && dedup(s)[j] == x;
                if j < d.len() {
                    assert(d[j] == x);
                    assert(d.contains(x));
                    let i = choose|i: int| 0 <= i < t.len() && t[i] == x;
                    assert(s[i] == x);
                } else {
                    assert(s[s.len() - 1] == x);
                }
            }
        }
    }
}

proof fn lemma_without_elements(s: Seq<u128>, y: u128)
    ensures
        forall|x: u128|
            #![trigger without(s, y).contains(x)]
            #![trigger s.contains(x)]
            without(s, y).contains(x) <==> (s.contains(x) && x != y),
    decreases s.len(),
{
    if s.len() > 0 {
        let t = s.drop_last();
        lemma_without_elements(t, y);
        let w = without(t, y);
        assert forall|x: u128| without(s, y).contains(x) <==> (s.contains(x) && x != y) by {
            if s.contains(x) && x != y {
                let i = choose|i: int| 0 <= i < s.len() && s[i] == x;
                if i < s.len() - 1 {
                    assert(t[i] == x);
                    assert(t.contains(x));
                    let j = choose|j: int| 0 <= j < w.len() && w[j] == x;
                    assert(without(s, y)[j] == x);
                } else {
                    assert(without(s, y)[w.len() as int] == x);
                }
            }
            if without(s, y).contains(x) {
                let j = choose|j: int| 0 <= j < without(s, y).len() && without(s, y)[j] == x;
                if j < w.len() {
                    assert(w[j] == x);
                    assert(w.contains(x));
                    let i = choose|i: int| 0 <= i < t.len() && t[i] == x;
                    assert(s[i] == x);
                } else {
                    assert(s[s.len() - 1] == x);
                }
            }
        }
    }
}

/// The related grants of a grant are exactly the other grants in its two
/// indices: every one of them is listed, and the grant itself is not.
pub proof fn law_related_are_the_other_indexed(first: Seq<u128>, second: Seq<u128>, own: u128, x: u128)
    ensures
        related_of(first, second, own).contains(x) <==> ((first + second).contains(x) && x != own),
        !related_of(first, second, own).contains(own),
{
    lemma_dedup_same_elements(first + second);
    lemma_without_elements(dedup(first + second), own);
}

} // verus!
