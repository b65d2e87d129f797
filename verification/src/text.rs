//! Character-level text utilities: conversion between strings and character
//! vectors, trimming, word splitting, joining and decimal rendering.
//!
//! Every function is specified over `Seq<char>`, the view of a string.
use vstd::prelude::*;
use vstd::std_specs::iter::IteratorSpec;

verus! {

/// The characters that Unicode classes as white space (`White_Space`).
pub open spec fn is_space(c: char) -> bool {
    ||| ('\u{9}' <= c && c <= '\u{d}')
    ||| c == ' '
    ||| c == '\u{85}'
    ||| c == '\u{a0}'
    ||| c == '\u{1680}'
    ||| ('\u{2000}' <= c && c <= '\u{200a}')
    ||| c == '\u{2028}'
    ||| c == '\u{2029}'
    ||| c == '\u{202f}'
    ||| c == '\u{205f}'
    ||| c == '\u{3000}'
}

/// Decides whether `c` is a white-space character.
pub fn char_is_space(c: char) -> (b: bool)
    ensures
        b == is_space(c),
{
    ('\u{9}' <= c && c <= '\u{d}') || c == ' ' || c == '\u{85}' || c == '\u{a0}' || c
        == '\u{1680}' || ('\u{2000}' <= c && c <= '\u{200a}') || c == '\u{2028}' || c
        == '\u{2029}' || c == '\u{202f}' || c == '\u{205f}' || c == '\u{3000}'
}

/// The characters of `s`, in order.
pub fn chars_of(s: &str) -> (v: Vec<char>)
    ensures
        v@ == s@,
{
    broadcast use vstd::string::axiom_spec_iter, vstd::string::next_postcondition;

    let mut it = s.chars();
    let mut v: Vec<char> = Vec::new();
    loop
        invariant
            it.obeys_prophetic_iter_laws(),
            it.decrease() is Some,
            v@ + it.remaining() == s@,
        ensures
            v@ == s@,
        decreases it.decrease()->0,
    {
        let ghost before = it.remaining();
        let ghost acc = v@;
        match it.next() {
            Some(c) => {
                v.push(c);
                assert(v@ + it.remaining() =~= acc + before);
            },
            None => {
                assert(v@ =~= v@ + it.remaining());
                break ;
            },
        }
    }
    v
}

/// Appends the characters `v[from..to]` to `out`.
pub fn push_chars(out: &mut String, v: &Vec<char>, from: usize, to: usize)
    requires
        from <= to <= v@.len(),
    ensures
        final(out)@ == old(out)@ + v@.subrange(from as int, to as int),
{
    let mut i: usize = from;
    while i < to
        invariant
            from <= i <= to <= v@.len(),
            out@ == old(out)@ + v@.subrange(from as int, i as int),
        decreases to - i,
    {
        out.push(v[i]);
        i = i + 1;
        assert(out@ =~= old(out)@ + v@.subrange(from as int, i as int));
    }
}

/// The string made of the characters of `v`.
pub fn string_of(v: &Vec<char>) -> (s: String)
    ensures
        s@ == v@,
{
    let mut s = String::new();
    push_chars(&mut s, v, 0, v.len());
    assert(v@.subrange(0, v@.len() as int) =~= v@);
    assert(Seq::<char>::empty() + v@ =~= v@);
    s
}

/// Whether two strings hold the same characters.
pub fn str_eq(a: &str, b: &str) -> (r: bool)
    ensures
        r == (a@ == b@),
{
    let x = a.to_owned();
    let y = b.to_owned();
    x == y
}

/// `p` is a prefix of `s`.
pub open spec fn has_prefix(s: Seq<char>, p: Seq<char>) -> bool {
    p.len() <= s.len() && s.subrange(0, p.len() as int) == p
}

/// Decides whether `s` begins with `p`.
pub fn starts_with(s: &Vec<char>, p: &Vec<char>) -> (r: bool)
    ensures
        r == has_prefix(s@, p@),
{
    if p.len() > s.len() {
        return false;
    }
    let mut i: usize = 0;
    while i < p.len()
        invariant
            i <= p@.len() <= s@.len(),
            s@.subrange(0, i as int) == p@.subrange(0, i as int),
        decreases p@.len() - i,
    {
        if s[i] != p[i] {
            proof {
                let k = i as int;
                assert(s@.subrange(0, p@.len() as int)[k] == s@[k]);
            }
            return false;
        }
        i = i + 1;
        assert(s@.subrange(0, i as int) =~= s@.subrange(0, i - 1).push(s@[i - 1]));
        assert(p@.subrange(0, i as int) =~= p@.subrange(0, i - 1).push(p@[i - 1]));
    }
    assert(p@.subrange(0, p@.len() as int) =~= p@);
    true
}

/// `s` without its leading white space.
pub open spec fn trim_start_spec(s: Seq<char>) -> Seq<char>
    decreases s.len(),
{
    if s.len() > 0 && is_space(s[0]) {
        trim_start_spec(s.drop_first())
    } else {
        s
    }
}

/// `s` without its trailing white space.
pub open spec fn trim_end_spec(s: Seq<char>) -> Seq<char>
    decreases s.len(),
{
    if s.len() > 0 && is_space(s.last()) {
        trim_end_spec(s.drop_last())
    } else {
        s
    }
}

/// `s` without leading and trailing white space.
pub open spec fn trimmed(s: Seq<char>) -> Seq<char> {
    trim_end_spec(trim_start_spec(s))
}

/// Removes leading and trailing white space.
pub fn trim_chars(v: &Vec<char>) -> (r: Vec<char>)
    ensures
        r@ == trimmed(v@),
{
    let n: usize = v.len();
    let mut start: usize = 0;
    assert(v@.subrange(0, n as int) =~= v@);
    while start < n && char_is_space(v[start])
        invariant
            start <= n == v@.len(),
            trim_start_spec(v@) == trim_start_spec(v@.subrange(start as int, n as int)),
        decreases n - start,
    {
        assert(v@.subrange(start as int, n as int).drop_first() =~= v@.subrange(
            start + 1,
            n as int,
        ));
        start = start + 1;
    }
    assert(trim_start_spec(v@) == v@.subrange(start as int, n as int));
    let mut end: usize = n;
    while end > start && char_is_space(v[end - 1])
        invariant
            start <= end <= n == v@.len(),
            trimmed(v@) == trim_end_spec(v@.subrange(start as int, end as int)),
        decreases end - start,
    {
        assert(v@.subrange(start as int, end as int).drop_last() =~= v@.subrange(
            start as int,
            end - 1,
        ));
        end = end - 1;
    }
    let mut r: Vec<char> = Vec::new();
    let mut i: usize = start;
    while i < end
        invariant
            start <= i <= end <= v@.len(),
            r@ == v@.subrange(start as int, i as int),
        decreases end - i,
    {
        r.push(v[i]);
        i = i + 1;
        assert(r@ =~= v@.subrange(start as int, i as int));
    }
    r
}

/// Removes leading and trailing white space.
pub fn trim(s: &str) -> (r: String)
    ensures
        r@ == trimmed(s@),
{
    let v = chars_of(s);
    let t = trim_chars(&v);
    string_of(&t)
}

/// The words of `s` from position `i` on, where `cur` holds the characters
/// of the word that is open at `i`.
pub open spec fn words_from(s: Seq<char>, i: int, cur: Seq<char>) -> Seq<Seq<char>>
    decreases s.len() - i,
{
    if i < 0 || i >= s.len() {
        if cur.len() > 0 {
            seq![cur]
        } else {
            Seq::empty()
        }
    } else if is_space(s[i]) {
        if cur.len() > 0 {
            seq![cur] + words_from(s, i + 1, Seq::empty())
        } else {
            words_from(s, i + 1, Seq::empty())
        }
    } else {
        words_from(s, i + 1, cur.push(s[i]))
    }
}

/// The maximal runs of characters of `s` that hold no white space, in order.
pub open spec fn words(s: Seq<char>) -> Seq<Seq<char>> {
    words_from(s, 0, Seq::empty())
}

/// The views of a vector of strings.
pub open spec fn strings_view(v: Seq<String>) -> Seq<Seq<char>> {
    v.map_values(|s: String| s@)
}

/// Splits `v` at white space into its words.
pub fn split_words(v: &Vec<char>) -> (r: Vec<String>)
    ensures
        strings_view(r@) == words(v@),
{
    let mut out: Vec<String> = Vec::new();
    let mut cur = String::new();
    let mut i: usize = 0;
    assert(strings_view(out@) =~= Seq::<Seq<char>>::empty());
    assert(strings_view(out@) + words_from(v@, 0, cur@) =~= words(v@));
    while i < v.len()
        invariant
            i <= v@.len(),
            strings_view(out@) + words_from(v@, i as int, cur@) == words(v@),
        decreases v@.len() - i,
    {
        let ghost prev = strings_view(out@);
        let c = v[i];
        if char_is_space(c) {
            if !cur.as_str().is_empty() {
                let ghost w = cur@;
                out.push(cur);
                cur = String::new();
                assert(strings_view(out@) =~= prev.push(w));
                assert(prev.push(w) + words_from(v@, i + 1, Seq::empty()) =~= prev + (seq![w]
                    + words_from(v@, i + 1, Seq::empty())));
            } else {
                assert(cur@ =~= Seq::<char>::empty());
            }
            assert(strings_view(out@) + words_from(v@, i + 1, cur@) == words(v@));
        } else {
            cur.push(c);
            assert(strings_view(out@) + words_from(v@, i + 1, cur@) == words(v@));
        }
        i = i + 1;
    }
    if !cur.as_str().is_empty() {
        let ghost prev = strings_view(out@);
        let ghost w = cur@;
        out.push(cur);
        assert(strings_view(out@) =~= prev.push(w));
        assert(prev.push(w) =~= prev + seq![w]);
    } else {
        assert(strings_view(out@) + Seq::<Seq<char>>::empty() =~= strings_view(out@));
    }
    out
}

/// `s` from position `i` on with every run of line feeds cut to two, where
/// `run` line feeds stand directly before `i` in the result.
pub open spec fn squeeze_from(s: Seq<char>, i: int, run: nat) -> Seq<char>
    decreases s.len() - i,
{
    if i < 0 || i >= s.len() {
        Seq::empty()
    } else if s[i] == '\n' {
        if run >= 2 {
            squeeze_from(s, i + 1, run)
        } else {
            seq!['\n'] + squeeze_from(s, i + 1, run + 1)
        }
    } else {
        seq![s[i]] + squeeze_from(s, i + 1, 0)
    }
}

/// `s` with every run of three or more line feeds cut to two.
pub open spec fn squeezed(s: Seq<char>) -> Seq<char> {
    squeeze_from(s, 0, 0)
}

/// Cuts every run of three or more line feeds to two.
pub fn squeeze_blank_lines(v: &Vec<char>) -> (r: Vec<char>)
    ensures
        r@ == squeezed(v@),
{
    let mut out: Vec<char> = Vec::new();
    let mut run: u8 = 0;
    let mut i: usize = 0;
    assert(out@ + squeeze_from(v@, 0, 0) =~= squeezed(v@));
    while i < v.len()
        invariant
            i <= v@.len(),
            run <= 2,
            out@ + squeeze_from(v@, i as int, run as nat) == squeezed(v@),
        decreases v@.len() - i,
    {
        let ghost prev = out@;
        let c = v[i];
        if c == '\n' {
            if run < 2 {
                out.push(c);
                run = run + 1;
                assert(out@ + squeeze_from(v@, i + 1, run as nat) =~= prev + (seq!['\n']
                    + squeeze_from(v@, i + 1, run as nat)));
            }
        } else {
            out.push(c);
            run = 0;
            assert(out@ + squeeze_from(v@, i + 1, 0) =~= prev + (seq![c] + squeeze_from(
                v@,
                i + 1,
                0,
            )));
        }
        i = i + 1;
    }
    assert(out@ + Seq::<char>::empty() =~= out@);
    out
}

/// The items of `items` with `sep` between each two neighbours.
pub open spec fn joined(items: Seq<Seq<char>>, sep: Seq<char>) -> Seq<char>
    decreases items.len(),
{
    if items.len() == 0 {
        Seq::empty()
    } else if items.len() == 1 {
        items[0]
    } else {
        joined(items.drop_last(), sep) + sep + items.last()
    }
}

/// Concatenates `items`, putting `sep` between each two neighbours.
pub fn join(items: &Vec<String>, sep: &str) -> (r: String)
    ensures
        r@ == joined(strings_view(items@), sep@),
{
    let mut out = String::new();
    let mut i: usize = 0;
    while i < items.len()
        invariant
            i <= items@.len(),
            out@ == joined(strings_view(items@).subrange(0, i as int), sep@),
        decreases items@.len() - i,
    {
        let ghost part = strings_view(items@).subrange(0, i as int);
        let ghost next = strings_view(items@).subrange(0, i + 1);
        assert(next.drop_last() =~= part);
        assert(next.last() == items@[i as int]@);
        if i > 0 {
            out.append(sep);
        } else {
            assert(Seq::<char>::empty() + items@[0]@ =~= items@[0]@);
        }
        out.append(items[i].as_str());
        i = i + 1;
    }
    assert(strings_view(items@).subrange(0, items@.len() as int) =~= strings_view(items@));
    out
}

/// The decimal digit for `d`.
pub open spec fn digit_char(d: int) -> char {
    if d == 0 {
        '0'
    } else if d == 1 {
        '1'
    } else if d == 2 {
        '2'
    } else if d == 3 {
        '3'
    } else if d == 4 {
        '4'
    } else if d == 5 {
        '5'
    } else if d == 6 {
        '6'
    } else if d == 7 {
        '7'
    } else if d == 8 {
        '8'
    } else {
        '9'
    }
}

/// The decimal digits of `n`, most significant first, without leading zeros.
pub open spec fn digits(n: nat) -> Seq<char>
    decreases n,
{
    if n < 10 {
        seq![digit_char(n as int)]
    } else {
        digits(n / 10).push(digit_char((n % 10) as int))
    }
}

/// The decimal rendering of `n`, with a minus sign for negative numbers.
pub open spec fn decimal(n: int) -> Seq<char> {
    if n < 0 {
        seq!['-'] + digits((-n) as nat)
    } else {
        digits(n as nat)
    }
}

fn digit_of(d: u64) -> (c: char)
    requires
        d < 10,
    ensures
        c == digit_char(d as int),
{
    if d == 0 {
        '0'
    } else if d == 1 {
        '1'
    } else if d == 2 {
        '2'
    } else if d == 3 {
        '3'
    } else if d == 4 {
        '4'
    } else if d == 5 {
        '5'
    } else if d == 6 {
        '6'
    } else if d == 7 {
        '7'
    } else if d == 8 {
        '8'
    } else {
        '9'
    }
}

/// Appends the decimal digits of `n` to `out`.
fn push_digits(out: &mut String, n: u64)
    ensures
        final(out)@ == old(out)@ + digits(n as nat),
    decreases n,
{
    if n < 10 {
        out.push(digit_of(n));
        assert(out@ =~= old(out)@ + digits(n as nat));
    } else {
        push_digits(out, n / 10);
        out.push(digit_of(n % 10));
        assert(out@ =~= old(out)@ + digits(n as nat));
    }
}

/// Renders `n` in decimal.
pub fn int_to_string(n: i64) -> (r: String)
    ensures
        r@ == decimal(n as int),
{
    let mut out = String::new();
    if n < 0 {
        out.push('-');
        let m: u64 = (-(n + 1)) as u64 + 1;
        assert(m == -(n as int));
        push_digits(&mut out, m);
        assert(out@ =~= seq!['-'] + digits((-(n as int)) as nat));
    } else {
        push_digits(&mut out, n as u64);
        assert(out@ =~= digits(n as nat));
    }
    out
}

/// Renders `n` in decimal.
pub fn nat_to_string(n: u64) -> (r: String)
    ensures
        r@ == digits(n as nat),
{
    let mut out = String::new();
    push_digits(&mut out, n);
    assert(out@ =~= digits(n as nat));
    out
}

/// The text `true` or `false`.
pub open spec fn bool_text(b: bool) -> Seq<char> {
    if b {
        "true"@
    } else {
        "false"@
    }
}

/// Renders a boolean as `true` or `false`.
pub fn bool_to_string(b: bool) -> (r: String)
    ensures
        r@ == bool_text(b),
{
    if b {
        "true".to_owned()
    } else {
        "false".to_owned()
    }
}

} // verus!
