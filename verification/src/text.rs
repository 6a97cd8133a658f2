//! Text building blocks: decimal numerals, character replacement,
//! substring search and path joining, over `String` and `&str`.

use vstd::prelude::*;
use vstd::string::*;

verus! {

/// The character that stands for the decimal digit `d`.
pub open spec fn digit_char(d: int) -> char
    recommends
        0 <= d < 10,
{
    seq!['0', '1', '2', '3', '4', '5', '6', '7', '8', '9'][d]
}

/// The decimal numeral of a natural number, without leading zeros.
pub open spec fn nat_decimal(n: nat) -> Seq<char>
    decreases n,
{
    if n < 10 {
        seq![digit_char(n as int)]
    } else {
        nat_decimal(n / 10).push(digit_char((n % 10) as int))
    }
}

/// The decimal numeral of an integer, with a leading `-` when it is negative.
pub open spec fn int_decimal(i: int) -> Seq<char> {
    if i < 0 {
        seq!['-'] + nat_decimal((-i) as nat)
    } else {
        nat_decimal(i as nat)
    }
}

/// Calls `String::push`. Claimed of it, as its documentation says: the
/// string afterwards is the old one with `c` appended.
#[verifier::external_body]
pub(crate) fn push_char(s: &mut String, c: char)
    ensures
        final(s)@ == old(s)@.push(c),
{
    s.push(c)
}

fn digit(d: u64) -> (c: char)
    requires
        d < 10,
    ensures
        c == digit_char(d as int),
{
    match d {
        0 => '0',
        1 => '1',
        2 => '2',
        3 => '3',
        4 => '4',
        5 => '5',
        6 => '6',
        7 => '7',
        8 => '8',
        _ => '9',
    }
}

/// Appends the decimal numeral of `n` to `s`.
pub fn push_u64_decimal(s: &mut String, n: u64)
    ensures
        final(s)@ == old(s)@ + nat_decimal(n as nat),
    decreases n,
{
    if n >= 10 {
        push_u64_decimal(s, n / 10);
    }
    push_char(s, digit(n % 10));
    assert(final(s)@ =~= old(s)@ + nat_decimal(n as nat));
}

/// Appends the decimal numeral of `i` to `s`.
pub fn push_i32_decimal(s: &mut String, i: i32)
    ensures
        final(s)@ == old(s)@ + int_decimal(i as int),
{
    if i < 0 {
        push_char(s, '-');
        let magnitude: u64 = (0i64 - (i as i64)) as u64;
        push_u64_decimal(s, magnitude);
        assert(final(s)@ =~= old(s)@ + int_decimal(i as int));
    } else {
        push_u64_decimal(s, i as u64);
    }
}

/// The characters of a string, in order.
pub fn chars_of(s: &str) -> (v: Vec<char>)
    ensures
        v@ == s@,
{
    let mut v: Vec<char> = Vec::new();
    for c in it: s.chars()
        invariant
            it.seq() == s@,
            v@ == it.seq().take(it.index() as int),
    {
        v.push(c);
        assert(v@ =~= it.seq().take(it.index() + 1));
    }
    assert(v@ =~= s@);
    v
}

/// `s` with every occurrence of the character `from` replaced by `to`.
pub open spec fn replace_char(s: Seq<char>, from: char, to: Seq<char>) -> Seq<char>
    decreases s.len(),
{
    if s.len() == 0 {
        Seq::empty()
    } else {
        let rest = replace_char(s.drop_last(), from, to);
        if s.last() == from {
            rest + to
        } else {
            rest.push(s.last())
        }
    }
}

/// Returns `s` with every occurrence of the character `from` replaced by
/// the text `to` (the one-character case of `str::replace`).
pub fn replace_char_exec(s: &str, from: char, to: &str) -> (r: String)
    ensures
        r@ == replace_char(s@, from, to@),
{
    let cs = chars_of(s);
    let mut r = String::new();
    let mut i: usize = 0;
    while i < cs.len()
        invariant
            i <= cs@.len(),
            cs@ == s@,
            r@ == replace_char(cs@.take(i as int), from, to@),
        decreases cs@.len() - i,
    {
        let c = cs[i];
        assert(cs@.take(i + 1).drop_last() =~= cs@.take(i as int));
        if c == from {
            r.append(to);
        } else {
            push_char(&mut r, c);
        }
        i = i + 1;
    }
    assert(cs@.take(i as int) =~= s@);
    r
}

/// `needle` stands in `hay` starting at position `i`.
pub open spec fn occurs_at(hay: Seq<char>, needle: Seq<char>, i: int) -> bool {
    &&& 0 <= i
    &&& i + needle.len() <= hay.len()
    &&& hay.subrange(i, i + needle.len()) == needle
}

/// `needle` is a substring of `hay` (the empty text is a substring of any text).
pub open spec fn contains_text(hay: Seq<char>, needle: Seq<char>) -> bool {
    exists|i: int| occurs_at(hay, needle, i)
}

fn occurs_at_exec(hay: &Vec<char>, needle: &Vec<char>, i: usize) -> (b: bool)
    requires
        i + needle@.len() <= hay@.len(),
    ensures
        b == occurs_at(hay@, needle@, i as int),
{
    let hay_len: usize = hay.len();
    let mut j: usize = 0;
    while j < needle.len()
        invariant
            hay_len == hay@.len(),
            i + needle@.len() <= hay@.len(),
            j <= needle@.len(),
            forall|k: int| 0 <= k < j ==> hay@[i + k] == needle@[k],
        decreases needle@.len() - j,
    {
        if hay[i + j] != needle[j] {
            assert(hay@.subrange(i as int, i + needle@.len())[j as int] != needle@[j as int]);
            return false;
        }
        j = j + 1;
    }
    assert(hay@.subrange(i as int, i + needle@.len()) =~= needle@);
    true
}

/// Whether `needle` is a substring of `hay` (as `str::contains` with a
/// text pattern).
pub fn contains_exec(hay: &str, needle: &str) -> (b: bool)
    ensures
        b == contains_text(hay@, needle@),
{
    let h = chars_of(hay);
    let n = chars_of(needle);
    if n.len() > h.len() {
        return false;
    }
    let last: usize = h.len() - n.len();
    let mut i: usize = 0;
    while i < last
        invariant
            h@ == hay@,
            n@ == needle@,
            last == h@.len() - n@.len(),
            i <= last,
            forall|k: int| 0 <= k < i ==> !occurs_at(hay@, needle@, k),
        decreases last - i,
    {
        if occurs_at_exec(&h, &n, i) {
            return true;
        }
        i = i + 1;
    }
    occurs_at_exec(&h, &n, last)
}

/// `base` and `part` joined as `Path::join` joins a relative part: with a
/// `/` between them unless `base` is empty or already ends in one.
pub open spec fn path_join(base: Seq<char>, part: Seq<char>) -> Seq<char> {
    if base.len() == 0 {
        part
    } else if base.last() == '/' {
        base + part
    } else {
        base + seq!['/'] + part
    }
}

/// Joins a relative path part to a base path.
pub fn path_join_exec(base: &str, part: &str) -> (r: String)
    ensures
        r@ == path_join(base@, part@),
{
    let n: usize = base.unicode_len();
    let mut r = base.to_owned();
    if n == 0 {
        r.append(part);
        assert(r@ =~= path_join(base@, part@));
        return r;
    }
    if base.get_char(n - 1) != '/' {
        push_char(&mut r, '/');
    }
    r.append(part);
    r
}

/// Replacing `from` by a text without `c` leaves no `c` behind, when `c`
/// is `from` or `s` held no `c` to begin with.
pub proof fn lemma_replace_char_excludes(s: Seq<char>, from: char, to: Seq<char>, c: char)
    requires
        !to.contains(c),
        c == from || !s.contains(c),
    ensures
        !replace_char(s, from, to).contains(c),
    decreases s.len(),
{
    if s.len() > 0 {
        let rest = s.drop_last();
        if !s.contains(c) {
            assert forall|k: int| 0 <= k < rest.len() implies rest[k] != c by {
                assert(s[k] == rest[k]);
            }
        }
        lemma_replace_char_excludes(rest, from, to, c);
        let r = replace_char(rest, from, to);
        if s.last() == from {
            assert forall|k: int| 0 <= k < (r + to).len() implies (r + to)[k] != c by {
                if k >= r.len() {
                    assert(to[k - r.len()] == (r + to)[k]);
                }
            }
        } else {
            assert(s[s.len() - 1] == s.last());
            assert forall|k: int| 0 <= k < r.push(s.last()).len() implies r.push(s.last())[k] != c by {
                if k == r.len() {
                    assert(r.push(s.last())[k] == s.last());
                }
            }
        }
    }
}

/// Replacing a character distributes over concatenation.
pub proof fn lemma_replace_char_concat(a: Seq<char>, b: Seq<char>, from: char, to: Seq<char>)
    ensures
        replace_char(a + b, from, to) == replace_char(a, from, to) + replace_char(b, from, to),
    decreases b.len(),
{
    if b.len() == 0 {
        assert(a + b =~= a);
        assert(replace_char(a, from, to) + replace_char(b, from, to) =~= replace_char(a, from, to));
    } else {
        assert((a + b).drop_last() =~= a + b.drop_last());
        assert((a + b).last() == b.last());
        lemma_replace_char_concat(a, b.drop_last(), from, to);
        let ra = replace_char(a, from, to);
        let rb = replace_char(b.drop_last(), from, to);
        if b.last() == from {
            assert(ra + rb + to =~= ra + (rb + to));
        } else {
            assert((ra + rb).push(b.last()) =~= ra + rb.push(b.last()));
        }
    }
}

/// A text without the character `from` is left unchanged.
pub proof fn lemma_replace_char_absent(s: Seq<char>, from: char, to: Seq<char>)
    requires
        !s.contains(from),
    ensures
        replace_char(s, from, to) == s,
    decreases s.len(),
{
    if s.len() > 0 {
        assert(s[s.len() - 1] == s.last());
        assert(!s.drop_last().contains(from)) by {
            assert forall|k: int| 0 <= k < s.drop_last().len() implies s.drop_last()[k] != from by {
                assert(s[k] == s.drop_last()[k]);
            }
        }
        lemma_replace_char_absent(s.drop_last(), from, to);
        assert(s.drop_last().push(s.last()) =~= s);
    }
}

} // verus!
