//! String helpers with exact contracts over `Seq<char>` views.

use vstd::prelude::*;
use vstd::string::*;

verus! {

/// Whether two string slices hold the same characters.
pub fn str_eq(a: &str, b: &str) -> (r: bool)
    ensures
        r == (a@ == b@),
{
    let n = a.unicode_len();
    if n != b.unicode_len() {
        return false;
    }
    let mut i: usize = 0;
    while i < n
        invariant
            n == a@.len(),
            n == b@.len(),
            i <= n,
            forall|j: int| 0 <= j < i ==> a@[j] == b@[j],
        decreases n - i,
    {
        if a.get_char(i) != b.get_char(i) {
            return false;
        }
        i = i + 1;
    }
    assert(a@ =~= b@);
    true
}

/// Whether `s` begins with `prefix`.
pub fn starts_with(s: &str, prefix: &str) -> (r: bool)
    ensures
        r == (prefix@.len() <= s@.len() && s@.subrange(0, prefix@.len() as int) == prefix@),
{
    let n = prefix.unicode_len();
    if n > s.unicode_len() {
        return false;
    }
    let mut i: usize = 0;
    while i < n
        invariant
            n == prefix@.len(),
            n <= s@.len(),
            i <= n,
            forall|j: int| 0 <= j < i ==> s@[j] == prefix@[j],
        decreases n - i,
    {
        if s.get_char(i) != prefix.get_char(i) {
            assert(s@.subrange(0, n as int)[i as int] != prefix@[i as int]);
            return false;
        }
        i = i + 1;
    }
    assert(s@.subrange(0, n as int) =~= prefix@);
    true
}

} // verus!

verus! {

/// The lower-case hexadecimal digit for a value below sixteen.
pub open spec fn hex_digit(n: int) -> char {
    seq!['0', '1', '2', '3', '4', '5', '6', '7', '8', '9', 'a', 'b', 'c', 'd', 'e', 'f'][n]
}

/// Two lower-case hexadecimal digits per byte, high nibble first.
pub open spec fn hex_lower(data: Seq<u8>) -> Seq<char>
    decreases data.len(),
{
    if data.len() == 0 {
        Seq::empty()
    } else {
        hex_lower(data.drop_last()) + seq![
            hex_digit(data.last() as int / 16),
            hex_digit(data.last() as int % 16),
        ]
    }
}

/// Hex rendering takes two digits per byte.
pub proof fn lemma_hex_lower_len(data: Seq<u8>)
    ensures
        hex_lower(data).len() == 2 * data.len(),
    decreases data.len(),
{
    if data.len() > 0 {
        lemma_hex_lower_len(data.drop_last());
    }
}

fn hex_char(n: u8) -> (r: String)
    requires
        n < 16,
    ensures
        r@ == seq![hex_digit(n as int)],
{
    let digits = "0123456789abcdef";
    proof {
        reveal_strlit("0123456789abcdef");
    }
    let one = digits.substring_char(n as usize, n as usize + 1);
    let r = String::from_str(one);
    assert(r@ =~= seq![hex_digit(n as int)]);
    r
}

/// Lower-case hexadecimal rendering of `data`.
pub fn to_hex_lower(data: &Vec<u8>) -> (r: String)
    ensures
        r@ == hex_lower(data@),
{
    let mut r = String::new();
    let mut i: usize = 0;
    while i < data.len()
        invariant
            i <= data@.len(),
            r@ == hex_lower(data@.subrange(0, i as int)),
        decreases data@.len() - i,
    {
        let b = data[i];
        let hi = hex_char(b / 16);
        let lo = hex_char(b % 16);
        r.append(hi.as_str());
        r.append(lo.as_str());
        proof {
            let s = data@.subrange(0, i + 1);
            assert(s.drop_last() =~= data@.subrange(0, i as int));
        }
        i = i + 1;
    }
    assert(data@.subrange(0, data@.len() as int) =~= data@);
    r
}

} // verus!

verus! {

/// Decimal digits of `n`, most significant first, without leading zeros.
pub open spec fn decimal(n: nat) -> Seq<char>
    decreases n,
{
    if n < 10 {
        seq![hex_digit(n as int)]
    } else {
        decimal(n / 10) + seq![hex_digit((n % 10) as int)]
    }
}

/// Decimal rendering of `n`, as `Display` and `Debug` write it.
pub fn to_decimal(n: u32) -> (r: String)
    ensures
        r@ == decimal(n as nat),
{
    let mut m = n;
    let mut r = String::new();
    while m >= 10
        invariant
            decimal(n as nat) == decimal(m as nat) + r@,
        decreases m,
    {
        let mut t = hex_char((m % 10) as u8);
        t.append(r.as_str());
        proof {
            assert(decimal(m as nat) == decimal((m / 10) as nat) + seq![hex_digit((m % 10) as int)]);
            assert(decimal(m as nat) + r@ =~= decimal((m / 10) as nat) + t@);
        }
        r = t;
        m = m / 10;
    }
    let mut t = hex_char(m as u8);
    t.append(r.as_str());
    t
}

/// `s` with every space character taken out.
pub open spec fn without_spaces(s: Seq<char>) -> Seq<char>
    decreases s.len(),
{
    if s.len() == 0 {
        Seq::empty()
    } else if s.last() == ' ' {
        without_spaces(s.drop_last())
    } else {
        without_spaces(s.drop_last()).push(s.last())
    }
}

/// Takes every space character out of `s`, as `s.replace(" ", "")` does.
pub fn remove_spaces(s: &str) -> (r: String)
    ensures
        r@ == without_spaces(s@),
{
    let n = s.unicode_len();
    let mut r = String::new();
    let mut i: usize = 0;
    while i < n
        invariant
            n == s@.len(),
            i <= n,
            r@ == without_spaces(s@.subrange(0, i as int)),
        decreases n - i,
    {
        let c = s.get_char(i);
        proof {
            assert(s@.subrange(0, i + 1).drop_last() =~= s@.subrange(0, i as int));
        }
        if c != ' ' {
            let one = s.substring_char(i, i + 1);
            r.append(one);
            assert(r@ =~= without_spaces(s@.subrange(0, i + 1)));
        }
        i = i + 1;
    }
    assert(s@.subrange(0, n as int) =~= s@);
    r
}

/// `s` as an owned string.
pub fn owned(s: &str) -> (r: String)
    ensures
        r@ == s@,
{
    String::from_str(s)
}

/// The concatenation of `a` and `b`.
pub fn join(a: &str, b: &str) -> (r: String)
    ensures
        r@ == a@ + b@,
{
    let mut r = String::from_str(a);
    r.append(b);
    r
}

/// The part of `s` after its first `n` characters.
pub fn skip_chars(s: &str, n: usize) -> (r: &str)
    requires
        n <= s@.len(),
    ensures
        r@ == s@.skip(n as int),
{
    let len = s.unicode_len();
    let r = s.substring_char(n, len);
    assert(r@ =~= s@.skip(n as int));
    r
}

} // verus!
