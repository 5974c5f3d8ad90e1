//! The decisions the web pages make around the stored grants: which host
//! links point to, what a move is announced as, which lists are shown, and
//! under which keys grants are indexed.

use vstd::prelude::*;
use vstd::string::*;
use crate::text::{str_eq, join, owned};
use crate::grant::Model;

verus! {

/// The key of the index of open grants.
pub const IDX_OPEN_GRANTS: &'static str = "grants_open";

/// The start of the keys of the indices of related grants.
pub const REL_GRANTS_PREFIX: &'static str = "related_";

/// The key of the index of grants related by `id`.
pub fn related_key(id: &str) -> (r: String)
    ensures
        r@ == REL_GRANTS_PREFIX@ + id@,
{
    join(REL_GRANTS_PREFIX, id)
}

/// The host that links in e-mails point to: the request's `Host` header,
/// else the `VIRTUAL_HOST` setting, else `localhost`.
pub fn choose_hostname(header: Option<String>, virtual_host: Option<String>) -> (r: String)
    ensures
        r@ == match header {
            Some(h) => h@,
            None => match virtual_host {
                Some(v) => v@,
                None => "localhost"@,
            },
        },
{
    match header {
        Some(h) => h,
        None => match virtual_host {
            Some(v) => v,
            None => owned("localhost"),
        },
    }
}

/// Whether `p` occurs in `s`.
pub open spec fn contains_text(s: Seq<char>, p: Seq<char>) -> bool {
    exists|i: int| 0 <= i && i + p.len() <= s.len() && #[trigger] s.subrange(i, i + p.len()) == p
}

/// Whether `p` occurs in `s`, as `str::contains` tells.
pub fn contains(s: &str, p: &str) -> (r: bool)
    ensures
        r == contains_text(s@, p@),
{
    let n = s.unicode_len();
    let m = p.unicode_len();
    if m > n {
        assert forall|i: int| 0 <= i && i + p@.len() <= s@.len() implies #[trigger] s@.subrange(i, i + p@.len()) != p@ by {}
        return false;
    }
    if m == 0 {
        assert(s@.subrange(0, 0 + p@.len() as int) =~= p@);
        return true;
    }
    let mut i: usize = 0;
    while i <= n - m
        invariant
            n == s@.len(),
            m == p@.len(),
            1 <= m <= n,
            i <= n - m + 1,
            forall|j: int| 0 <= j < i ==> #[trigger] s@.subrange(j, j + m) != p@,
        decreases n - m + 1 - i,
    {
        let part = s.substring_char(i, i + m);
        if str_eq(part, p) {
            return true;
        }
        i = i + 1;
    }
    assert forall|j: int| 0 <= j && j + p@.len() <= s@.len() implies #[trigger] s@.subrange(j, j + p@.len()) != p@ by {
        assert(j < i);
    }
    false
}

/// The `show` parameter's text, empty when absent.
pub open spec fn shown(show: Option<String>) -> Seq<char> {
    match show {
        Some(s) => s@,
        None => Seq::empty(),
    }
}

/// Which parts of the list are shown, as the `show` parameter asks:
/// pending grants when it mentions `pending`, archived ones when it
/// mentions `archived`.
pub fn list_flags(show: &Option<String>) -> (r: (bool, bool))
    ensures
        r.0 == contains_text(shown(*show), "pending"@),
        r.1 == contains_text(shown(*show), "archived"@),
{
    let s = match show {
        Some(s) => s.clone(),
        None => String::new(),
    };
    (contains(s.as_str(), "pending"), contains(s.as_str(), "archived"))
}

/// What a move of a grant is announced as: its title and where it now stands.
pub fn moved_message(grant: &Model) -> (r: String)
    ensures
        r@ == "Antrag '"@ + grant.title_v()@ + "' ist jetzt '"@ + grant.state_v().short_name() + "'"@,
{
    let (title, state) = match grant {
        Model::EventGrant(g) => (&g.title, g.state.short_name()),
        Model::AktivistiGrant(g) => (&g.title, g.state.short_name()),
    };
    let mut r = join("Antrag '", title.as_str());
    r.append("' ist jetzt '");
    r.append(state);
    r.append("'");
    r
}

} // verus!

verus! {

/// The short name of the state that an indexed grant stands in.
pub open spec fn entry_state(e: (u128, Model)) -> Seq<char> {
    e.1.state_v().short_name()
}

/// The state names of the entries, each once, in the order they first occur.
pub open spec fn state_names(es: Seq<(u128, Model)>) -> Seq<Seq<char>>
    decreases es.len(),
{
    if es.len() == 0 {
        Seq::empty()
    } else {
        let m = state_names(es.drop_last());
        if m.contains(entry_state(es.last())) {
            m
        } else {
            m.push(entry_state(es.last()))
        }
    }
}

/// The entries whose grant stands in the state named `n`, in order.
pub open spec fn with_state(es: Seq<(u128, Model)>, n: Seq<char>) -> Seq<(u128, Model)>
    decreases es.len(),
{
    if es.len() == 0 {
        Seq::empty()
    } else if entry_state(es.last()) == n {
        with_state(es.drop_last(), n).push(es.last())
    } else {
        with_state(es.drop_last(), n)
    }
}

/// A name that no entry's state has gathers no entries.
proof fn lemma_absent_name_has_no_entries(es: Seq<(u128, Model)>, n: Seq<char>)
    requires
        !state_names(es).contains(n),
    ensures
        with_state(es, n).len() == 0,
    decreases es.len(),
{
    if es.len() > 0 {
        let m = state_names(es.drop_last());
        let x = entry_state(es.last());
        if !m.contains(x) {
            assert(m.push(x)[m.len() as int] == x);
            assert forall|i: int| 0 <= i < m.len() implies m[i] != n by {
                assert(m.push(x)[i] == m[i]);
            }
        } else {
            let k = choose|k: int| 0 <= k < m.len() && m[k] == x;
            assert(state_names(es)[k] == x);
        }
        lemma_absent_name_has_no_entries(es.drop_last(), n);
    }
}

/// The name of the state a grant stands in.
fn state_of(m: &Model) -> (r: &'static str)
    ensures
        r@ == m.state_v().short_name(),
{
    match m {
        Model::EventGrant(g) => g.state.short_name(),
        Model::AktivistiGrant(g) => g.state.short_name(),
    }
}

/// Groups indexed grants by the name of the state they stand in: one group
/// per state name, no name twice, in the order the names first occur, each
/// holding the grants in that state in their index order.
pub fn group_by_state(entries: Vec<(u128, Model)>) -> (r: Vec<(&'static str, Vec<(u128, Model)>)>)
    ensures
        r@.len() == state_names(entries@).len(),
        forall|j1: int, j2: int|
            0 <= j1 < j2 < r@.len() ==> (#[trigger] r@[j1]).0@ != (#[trigger] r@[j2]).0@,
        forall|j: int|
            0 <= j < r@.len() ==> (#[trigger] r@[j]).0@ == state_names(entries@)[j] && r@[j].1@
                == with_state(entries@, state_names(entries@)[j]),
{
    let ghost all = entries@;
    let mut rest = entries;
    let total = rest.len();
    assert(total == all.len());
    let mut names: Vec<&'static str> = Vec::new();
    let mut members: Vec<Vec<(u128, Model)>> = Vec::new();
    let mut i: usize = 0;
    while rest.len() > 0
        invariant
            i <= all.len(),
            all.len() <= usize::MAX,
            rest@ == all.subrange(i as int, all.len() as int),
            names@.len() == state_names(all.subrange(0, i as int)).len(),
            members@.len() == names@.len(),
            forall|j: int| 0 <= j < names@.len() ==> (#[trigger] names@[j])@ == state_names(all.subrange(0, i as int))[j],
            forall|j: int|
                0 <= j < members@.len() ==> (#[trigger] members@[j])@ == with_state(
                    all.subrange(0, i as int),
                    state_names(all.subrange(0, i as int))[j],
                ),
            forall|j1: int, j2: int|
                0 <= j1 < j2 < names@.len() ==> #[trigger] state_names(all.subrange(0, i as int))[j1]
                    != #[trigger] state_names(all.subrange(0, i as int))[j2],
        decreases rest@.len(),
    {
        let ghost p = all.subrange(0, i as int);
        let ghost q = all.subrange(0, i + 1);
        let e = rest.remove(0);
        assert(e == all[i as int]);
        assert(q.drop_last() =~= p);
        assert(q.last() == e);
        let n = state_of(&e.1);
        let mut k: usize = 0;
        let mut found = false;
        while k < names.len()
            invariant_except_break
                forall|j: int| 0 <= j < k ==> (#[trigger] names@[j])@ != n@,
                !found,
            invariant
                k <= names@.len(),
            ensures
                found ==> k < names@.len() && names@[k as int]@ == n@,
                !found ==> forall|j: int| 0 <= j < names@.len() ==> (#[trigger] names@[j])@ != n@,
            decreases names@.len() - k,
        {
            if str_eq(names[k], n) {
                found = true;
                break;
            }
            k = k + 1;
        }
        let ghost sp = state_names(p);
        if found {
            assert(sp.contains(n@)) by {
                assert(sp[k as int] == n@);
            }
            assert(state_names(q) == sp);
            let mut g = members.remove(k);
            g.push(e);
            members.insert(k, g);
            assert forall|j: int| 0 <= j < members@.len() implies (#[trigger] members@[j])@ == with_state(
                q,
                state_names(q)[j],
            ) by {
                if j != k {
                    assert(sp[j] != sp[k as int]);
                }
            }
        } else {
            assert(!sp.contains(n@)) by {
                assert forall|j: int| 0 <= j < sp.len() implies sp[j] != n@ by {
                    assert(names@[j]@ == sp[j]);
                }
            }
            assert(state_names(q) == sp.push(n@));
            proof {
                lemma_absent_name_has_no_entries(p, n@);
            }
            let mut g: Vec<(u128, Model)> = Vec::new();
            g.push(e);
            assert(g@ =~= with_state(q, n@));
            names.push(n);
            members.push(g);
            assert forall|j: int| 0 <= j < members@.len() implies (#[trigger] members@[j])@ == with_state(
                q,
                state_names(q)[j],
            ) by {
                if j < sp.len() {
                    assert(state_names(q)[j] == sp[j]);
                    assert(sp[j] != n@);
                }
            }
        }
        i = i + 1;
    }
    assert(all.subrange(0, all.len() as int) =~= all);
    let ghost sn = state_names(all);
    assert(forall|j1: int, j2: int| 0 <= j1 < j2 < sn.len() ==> #[trigger] sn[j1] != #[trigger] sn[j2]);
    let mut r: Vec<(&'static str, Vec<(u128, Model)>)> = Vec::new();
    let ghost full = members@;
    let mut j: usize = 0;
    while j < names.len()
        invariant
            names@.len() == sn.len(),
            full.len() == sn.len(),
            j <= sn.len(),
            members@ == full.subrange(j as int, full.len() as int),
            forall|t: int| 0 <= t < names@.len() ==> (#[trigger] names@[t])@ == sn[t],
            forall|t: int| 0 <= t < full.len() ==> (#[trigger] full[t])@ == with_state(all, sn[t]),
            r@.len() == j,
            forall|j1: int, j2: int| 0 <= j1 < j2 < sn.len() ==> #[trigger] sn[j1] != #[trigger] sn[j2],
            forall|t: int|
                0 <= t < j ==> (#[trigger] r@[t]).0@ == sn[t] && r@[t].1@ == with_state(all, sn[t]),
        decreases sn.len() - j,
    {
        let g = members.remove(0);
        assert(g == full[j as int]);
        r.push((names[j], g));
        j = j + 1;
    }
    r
}

} // verus!
