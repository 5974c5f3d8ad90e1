//! Random titles for new grant applications, made of icons.

use vstd::prelude::*;
use vstd::string::*;
use crate::outside::choose_random;

verus! {

/// The icons that titles are made of, one after the other, each followed
/// by a space but the last.
pub const ICONS: &'static str = "\
    \u{1f47f} \u{1f479} \u{1f47a} \u{1f921} \u{1f4a9} \u{1f47b} \u{1f480} \u{1f47d} \
    \u{1f47e} \u{1f916} \u{1f383} \u{1f9f3} \u{1f302} \u{1f9f5} \u{1f9f6} \u{1f453} \
    \u{1f576} \u{1f97d} \u{1f97c} \u{1f9ba} \u{1f454} \u{1f455} \u{1f456} \u{1f9e3} \
    \u{1f9e4} \u{1f9e5} \u{1f9e6} \u{1f457} \u{1f458} \u{1f97b} \u{1fa71} \u{1fa72} \
    \u{1fa73} \u{1f459} \u{1f45a} \u{1f45b} \u{1f45c} \u{1f45d} \u{1f392} \u{1f45e} \
    \u{1f45f} \u{1f97e} \u{1f97f} \u{1f460} \u{1f461} \u{1fa70} \u{1f462} \u{1f451} \
    \u{1f452} \u{1f3a9} \u{1f393} \u{1f9e2} \u{26d1} \u{1f48d} \u{1f4bc} \u{1f436} \
    \u{1f439} \u{1f430} \u{1f98a} \u{1f43b} \u{1f43c} \u{1f428} \u{1f42f} \u{1f981} \
    \u{1f42e} \u{1f437} \u{1f43d} \u{1f438} \u{1f435} \u{1f648} \u{1f649} \u{1f64a} \
    \u{1f412} \u{1f414} \u{1f427} \u{1f426} \u{1f424} \u{1f423} \u{1f425} \u{1f986} \
    \u{1f985} \u{1f989} \u{1f987} \u{1f43a} \u{1f417} \u{1f434} \u{1f984} \u{1f41d} \
    \u{1f41b} \u{1f98b} \u{1f40c} \u{1f41e} \u{1f41c} \u{1f99f} \u{1f997} \u{1f577} \
    \u{1f578} \u{1f982} \u{1f422} \u{1f40d} \u{1f98e} \u{1f996} \u{1f995} \u{1f419} \
    \u{1f991} \u{1f990} \u{1f99e} \u{1f980} \u{1f421} \u{1f420} \u{1f41f} \u{1f42c} \
    \u{1f433} \u{1f40b} \u{1f988} \u{1f40a} \u{1f405} \u{1f406} \u{1f993} \u{1f98d} \
    \u{1f9a7} \u{1f418} \u{1f99b} \u{1f98f} \u{1f42a} \u{1f42b} \u{1f992} \u{1f998} \
    \u{1f403} \u{1f402} \u{1f404} \u{1f40e} \u{1f416} \u{1f40f} \u{1f411} \u{1f999} \
    \u{1f410} \u{1f415}\u{200d} \u{1f408} \u{1f413} \u{1f983} \u{1f99a} \u{1f99c} \
    \u{1f9a2} \u{1f9a9} \u{1f54a} \u{1f407} \u{1f99d} \u{1f9a8} \u{1f9a1} \u{1f9a6} \
    \u{1f9a5} \u{1f401} \u{1f400} \u{1f43f} \u{1f994} \u{1f43e} \u{1f409} \u{1f432} \
    \u{1f335} \u{1f384} \u{1f332} \u{1f333} \u{1f334} \u{1f331} \u{1f33f} \u{2618} \
    \u{1f340} \u{1f38d} \u{1f38b} \u{1f343} \u{1f342} \u{1f341} \u{1f344} \u{1f41a} \
    \u{1f33e} \u{1f490} \u{1f337} \u{1f339} \u{1f940} \u{1f33a} \u{1f338} \u{1f33c} \
    \u{1f33b} \u{1f31e} \u{1f31d} \u{1f4ab} \u{2b50}\u{fe0f} \u{1f31f} \u{2728} \
    \u{1f4a5} \u{1f525} \u{1f308} \u{1f4a8} \u{1f4a7} \u{1f4a6} \u{1f30a} \u{1f34f} \
    \u{1f34e} \u{1f350} \u{1f34a} \u{1f34b} \u{1f34c} \u{1f349} \u{1f347} \u{1f353} \
    \u{1f348} \u{1f352} \u{1f351} \u{1f96d} \u{1f34d} \u{1f965} \u{1f95d} \u{1f345} \
    \u{1f346} \u{1f951} \u{1f966} \u{1f96c} \u{1f952} \u{1f336} \u{1f33d} \u{1f955} \
    \u{1f9c4} \u{1f9c5} \u{1f954} \u{1f360} \u{1f950} \u{1f96f} \u{1f35e} \u{1f956} \
    \u{1f968} \u{1f9c0} \u{1f95a} \u{1f373} \u{1f9c8} \u{1f95e} \u{1f9c7} \u{1f953} \
    \u{1f969} \u{1f357} \u{1f356} \u{1f9b4} \u{1f32d} \u{1f354} \u{1f35f} \u{1f355} \
    \u{1f96a} \u{1f959} \u{1f9c6} \u{1f32e} \u{1f32f} \u{1f957} \u{1f958} \u{1f96b} \
    \u{1f35d} \u{1f35c} \u{1f372} \u{1f35b} \u{1f363} \u{1f371} \u{1f95f} \u{1f9aa} \
    \u{1f364} \u{1f359} \u{1f35a} \u{1f358} \u{1f365} \u{1f960} \u{1f96e} \u{1f362} \
    \u{1f361} \u{1f367} \u{1f368} \u{1f366} \u{1f967} \u{1f9c1} \u{1f370} \u{1f382} \
    \u{1f36e} \u{1f36d} \u{1f36c} \u{1f36b} \u{1f37f} \u{1f369} \u{1f36a} \u{1f330} \
    \u{1f95c} \u{1f37c} \u{2615}\u{fe0f} \u{1f375} \u{1f9c3} \u{1f964} \u{1f376} \
    \u{1f37a} \u{1f37b} \u{1f942} \u{1f377} \u{1f943} \u{1f379} \u{1f9c9} \u{1f37e} \
    \u{1f9ca} \u{1f944} \u{1f374} \u{1f963} \u{1f961} \u{1f962} \u{1f9c2} \
    \u{26bd}\u{fe0f} \u{1f3c0} \u{1f3c8} \u{26be}\u{fe0f} \u{1f94e} \u{1f3be} \u{1f3d0} \
    \u{1f3c9} \u{1f94f} \u{1f3b1} \u{1fa80} \u{1f3d3} \u{1f3f8} \u{1f3d2} \u{1f3d1} \
    \u{1f94d} \u{1f3cf} \u{1f945} \u{26f3}\u{fe0f} \u{1fa81} \u{1f3f9} \u{1f3a3} \
    \u{1f93f} \u{1f94a} \u{1f94b} \u{1f3bd} \u{1f6f9} \u{1f6f7} \u{1f94c} \u{1f3ad} \
    \u{1fa70} \u{1f3a8} \u{1f3a4} \u{1f3bc} \u{1f3b9} \u{1f941} \u{1f3b7} \u{1f3ba} \
    \u{1f3b8} \u{1fa95} \u{1f3bb} \u{1f3b2} \u{265f} \u{1f3af} \u{1f4f1} \u{1f4f2} \
    \u{1f4bd} \u{1f4be} \u{1f4bf} \u{1f4c0} \u{1f4fc} \u{1f4f8} \u{1f3a5} \u{1f39e} \
    \u{1f4de} \u{1f4e0} \u{23f0} \u{1f4e1} \u{1f50b} \u{1f50c} \u{1f4a1} \u{1f526} \
    \u{1fa94} \u{1f9ef} \u{1f48e} \u{1f9f0} \u{1f527} \u{1f528} \u{1f529} \u{1f9f1} \
    \u{1f9f2} \u{1f52b} \u{1f4a3} \u{1f9e8} \u{1fa93} \u{1f52a} \u{1f5e1} \
    \u{2694}\u{fe0f} \u{1f6e1} \u{1f6ac} \u{26b0}\u{fe0f} \u{26b1}\u{fe0f} \u{1f3fa} \
    \u{1f52e} \u{1f4ff} \u{1f9ff} \u{1f52d} \u{1f52c} \u{1f573} \u{1fa79} \u{1fa7a} \
    \u{1f48a} \u{1f489} \u{1fa78} \u{1f9ec} \u{1f9a0} \u{1f9eb} \u{1f9ea} \u{1f9f9} \
    \u{1f9fa} \u{1f9fb} \u{1f6bd} \u{1f6b0} \u{1f6bf} \u{1f6c1} \u{1f6c0} \u{1f9fc} \
    \u{1fa92} \u{1f9fd} \u{1f9f4} \u{1f6ce} \u{1f511} \u{1f5dd} \u{1f6aa} \u{1fa91} \
    \u{1f6cb} \u{1f6cf} \u{1f6cc} \u{1f9f8} \u{1f5bc} \u{1f6cd} \u{1f6d2} \u{1f381} \
    \u{1f388} \u{1f38f} \u{1f380} \u{1f38a} \u{1f389} \u{1f38e} \u{1f3ee} \u{1f390} \
    \u{1f9e7}";

/// The parts of `s` between spaces, in order; there is one more part than
/// there are spaces.
pub open spec fn split_spaces(s: Seq<char>) -> Seq<Seq<char>>
    decreases s.len(),
{
    if s.len() == 0 {
        seq![Seq::empty()]
    } else {
        let w = split_spaces(s.drop_last());
        if s.last() == ' ' {
            w.push(Seq::empty())
        } else {
            w.update(w.len() - 1, w.last().push(s.last()))
        }
    }
}

proof fn lemma_split_spaces_not_empty(s: Seq<char>)
    ensures
        split_spaces(s).len() >= 1,
    decreases s.len(),
{
    if s.len() > 0 {
        lemma_split_spaces_not_empty(s.drop_last());
    }
}

/// The texts of a list of string slices.
pub open spec fn texts_of(v: Seq<&'static str>) -> Seq<Seq<char>> {
    v.map_values(|s: &'static str| s@)
}

/// The parts of `s` between spaces.
pub fn split_at_spaces(s: &'static str) -> (r: Vec<&'static str>)
    ensures
        texts_of(r@) == split_spaces(s@),
{
    let n = s.unicode_len();
    let mut r: Vec<&'static str> = Vec::new();
    let mut start: usize = 0;
    let mut i: usize = 0;
    assert(s@.subrange(0, 0) =~= Seq::<char>::empty());
    assert(texts_of(r@) =~= Seq::<Seq<char>>::empty());
    assert(split_spaces(s@.subrange(0, 0)) =~= texts_of(r@).push(s@.subrange(0, 0)));
    while i < n
        invariant
            n == s@.len(),
            start <= i <= n,
            split_spaces(s@.subrange(0, i as int)) == texts_of(r@).push(s@.subrange(start as int, i as int)),
        decreases n - i,
    {
        proof {
            assert(s@.subrange(0, i + 1).drop_last() =~= s@.subrange(0, i as int));
            lemma_split_spaces_not_empty(s@.subrange(0, i as int));
        }
        if s.get_char(i) == ' ' {
            let part = s.substring_char(start, i);
            let ghost before = r@;
            r.push(part);
            assert(texts_of(r@) =~= texts_of(before).push(part@));
            start = i + 1;
            assert(s@.subrange(start as int, i + 1) =~= Seq::<char>::empty());
        } else {
            assert(s@.subrange(start as int, i + 1) =~= s@.subrange(start as int, i as int).push(s@[i as int]));
        }
        i = i + 1;
    }
    let last = s.substring_char(start, n);
    r.push(last);
    assert(s@.subrange(0, n as int) =~= s@);
    assert(texts_of(r@) =~= split_spaces(s@));
    r
}

/// The characters of `parts`, one after the other.
pub open spec fn joined(parts: Seq<Seq<char>>) -> Seq<char>
    decreases parts.len(),
{
    if parts.len() == 0 {
        Seq::empty()
    } else {
        joined(parts.drop_last()) + parts.last()
    }
}

/// Whether `t` is `n` icons, each one of [`ICONS`], one after the other.
pub open spec fn is_icon_title(t: Seq<char>, n: nat) -> bool {
    exists|picks: Seq<Seq<char>>|
        picks.len() == n && (forall|i: int| 0 <= i < n ==> split_spaces(ICONS@).contains(#[trigger] picks[i]))
            && t == joined(picks)
}

/// A title of `len` icons drawn at random.
pub fn make_random_title(len: u8) -> (r: String)
    ensures
        is_icon_title(r@, len as nat),
{
    let icons = split_at_spaces(ICONS);
    proof {
        lemma_split_spaces_not_empty(ICONS@);
    }
    let mut s = String::new();
    let ghost mut picks: Seq<Seq<char>> = Seq::empty();
    let mut i: u8 = 0;
    while i < len
        invariant
            texts_of(icons@) == split_spaces(ICONS@),
            icons@.len() >= 1,
            i <= len,
            picks.len() == i,
            forall|j: int| 0 <= j < i ==> split_spaces(ICONS@).contains(#[trigger] picks[j]),
            s@ == joined(picks),
        decreases len - i,
    {
        match choose_random(icons.as_slice()) {
            Some(x) => {
                s.append(x);
                proof {
                    let k = choose|k: int| 0 <= k < icons@.len() && icons@[k] == x;
                    assert(texts_of(icons@)[k] == x@);
                    let before = picks;
                    picks = picks.push(x@);
                    assert(picks.drop_last() =~= before);
                }
            },
            None => {},
        }
        i = i + 1;
    }
    s
}

} // verus!
