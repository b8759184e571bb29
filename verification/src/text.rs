//! Character-level helpers on strings, used to build the messages that the
//! WeChat Pay protocol signs and the headers that it sends.

use vstd::prelude::*;

verus! {

/// `String::push` appends one character at the end of the string.
pub assume_specification[ String::push ](s: &mut String, ch: char)
    ensures
        final(s)@ == old(s)@.push(ch),
;

/// Copies the characters of `s` into a vector.
pub fn chars_of(s: &str) -> (v: Vec<char>)
    ensures
        v@ == s@,
{
    let n = s.unicode_len();
    let mut v: Vec<char> = Vec::new();
    let mut i: usize = 0;
    while i < n
        invariant
            n == s@.len(),
            i <= n,
            v@ == s@.subrange(0, i as int),
        decreases n - i,
    {
        let c = s.get_char(i);
        v.push(c);
        i = i + 1;
        assert(v@ == s@.subrange(0, i as int));
    }
    assert(v@ == s@);
    v
}

/// Builds a string from a sequence of characters.
pub fn string_of(v: &Vec<char>) -> (s: String)
    ensures
        s@ == v@,
{
    let mut s = String::new();
    let mut i: usize = 0;
    while i < v.len()
        invariant
            i <= v.len(),
            s@ == v@.subrange(0, i as int),
        decreases v.len() - i,
    {
        s.push(v[i]);
        i = i + 1;
        assert(s@ == v@.subrange(0, i as int));
    }
    assert(s@ == v@);
    s
}

} // verus!

verus! {

/// The decimal digit character for `d` (`0 <= d < 10`).
pub open spec fn digit_char(d: int) -> char {
    ((d + 48) as u8) as char
}

/// The decimal digits of a natural number, most significant first, with no
/// leading zeros (`0` is the single digit `"0"`).
pub open spec fn decimal_digits(n: nat) -> Seq<char>
    decreases n,
{
    if n < 10 {
        seq![digit_char(n as int)]
    } else {
        decimal_digits(n / 10).push(digit_char((n % 10) as int))
    }
}

/// The decimal text of an integer, as Rust's `Display` writes it: a `-` sign
/// before the digits of the magnitude for negative numbers.
pub open spec fn decimal_text(x: int) -> Seq<char> {
    if x < 0 {
        seq!['-'] + decimal_digits((-x) as nat)
    } else {
        decimal_digits(x as nat)
    }
}

fn digit_of(d: u8) -> (c: char)
    requires
        d < 10,
    ensures
        c == digit_char(d as int),
{
    (d + 48) as char
}

/// Writes the decimal digits of `n` at the end of `out`.
fn push_decimal_digits(out: &mut Vec<char>, n: u64)
    ensures
        final(out)@ == old(out)@ + decimal_digits(n as nat),
    decreases n,
{
    if n < 10 {
        out.push(digit_of(n as u8));
    } else {
        push_decimal_digits(out, n / 10);
        out.push(digit_of((n % 10) as u8));
        assert(old(out)@ + decimal_digits(n as nat) == old(out)@ + decimal_digits((n / 10) as nat)
            + seq![digit_char((n % 10) as int)]);
    }
}

/// The decimal text of a signed 64-bit integer (what `i64::to_string` gives).
pub fn i64_to_decimal(x: i64) -> (s: String)
    ensures
        s@ == decimal_text(x as int),
{
    let mut out: Vec<char> = Vec::new();
    if x < 0 {
        out.push('-');
        let m: u64 = if x == i64::MIN {
            9223372036854775808u64
        } else {
            (-x) as u64
        };
        push_decimal_digits(&mut out, m);
    } else {
        push_decimal_digits(&mut out, x as u64);
    }
    string_of(&out)
}

} // verus!

verus! {

/// `pat` occurs in `s` starting at position `i`.
pub open spec fn occurs_at(s: Seq<char>, pat: Seq<char>, i: int) -> bool {
    0 <= i && i + pat.len() <= s.len() && s.subrange(i, i + pat.len()) == pat
}

/// `pat` occurs somewhere in `s` (what `str::contains` tests).
pub open spec fn contains_text(s: Seq<char>, pat: Seq<char>) -> bool {
    exists|i: int| occurs_at(s, pat, i)
}

/// The pieces of `s` between occurrences of `sep`, as `str::split` yields
/// them: `k` separators give `k + 1` pieces, some of which may be empty.
pub open spec fn split_by(s: Seq<char>, sep: char) -> Seq<Seq<char>>
    decreases s.len(),
{
    if s.len() == 0 {
        seq![Seq::<char>::empty()]
    } else {
        let prev = split_by(s.drop_last(), sep);
        if s.last() == sep {
            prev.push(Seq::<char>::empty())
        } else {
            prev.update(prev.len() - 1, prev.last().push(s.last()))
        }
    }
}

/// The first piece that contains `pat` (what `Iterator::find` returns).
pub open spec fn first_containing(pieces: Seq<Seq<char>>, pat: Seq<char>) -> Option<Seq<char>>
    decreases pieces.len(),
{
    if pieces.len() == 0 {
        None
    } else if contains_text(pieces[0], pat) {
        Some(pieces[0])
    } else {
        first_containing(pieces.drop_first(), pat)
    }
}

pub proof fn lemma_split_nonempty(s: Seq<char>, sep: char)
    ensures
        split_by(s, sep).len() >= 1,
    decreases s.len(),
{
    if s.len() > 0 {
        lemma_split_nonempty(s.drop_last(), sep);
    }
}

/// Splitting at a separator splits the pieces.
pub proof fn lemma_split_at_sep(a: Seq<char>, sep: char, b: Seq<char>)
    ensures
        split_by(a + seq![sep] + b, sep) == split_by(a, sep) + split_by(b, sep),
    decreases b.len(),
{
    let s = a + seq![sep] + b;
    if b.len() == 0 {
        assert(s.drop_last() == a);
        assert(split_by(b, sep) == seq![Seq::<char>::empty()]);
        assert(split_by(s, sep) == split_by(a, sep) + split_by(b, sep));
    } else {
        let b0 = b.drop_last();
        assert(s.drop_last() == a + seq![sep] + b0);
        lemma_split_at_sep(a, sep, b0);
        lemma_split_nonempty(b0, sep);
        lemma_split_nonempty(a, sep);
        let pa = split_by(a, sep);
        let pb = split_by(b0, sep);
        assert(b.drop_last() == b0);
        if b.last() == sep {
            assert(split_by(s, sep) == (pa + pb).push(Seq::<char>::empty()));
            assert((pa + pb).push(Seq::<char>::empty()) == pa + pb.push(Seq::<char>::empty()));
        } else {
            let prev = pa + pb;
            assert(split_by(s, sep) == prev.update(prev.len() - 1, prev.last().push(b.last())));
            assert(prev.update(prev.len() - 1, prev.last().push(b.last())) == pa + pb.update(
                pb.len() - 1,
                pb.last().push(b.last()),
            ));
        }
    }
}

pub proof fn lemma_first_containing_append(x: Seq<Seq<char>>, y: Seq<Seq<char>>, pat: Seq<char>)
    ensures
        first_containing(x + y, pat) == (match first_containing(x, pat) {
            Some(p) => Some(p),
            None => first_containing(y, pat),
        }),
    decreases x.len(),
{
    if x.len() > 0 {
        assert((x + y)[0] == x[0]);
        assert((x + y).drop_first() == x.drop_first() + y);
        lemma_first_containing_append(x.drop_first(), y, pat);
    } else {
        assert(x + y == y);
    }
}

pub proof fn lemma_first_containing_some(pieces: Seq<Seq<char>>, pat: Seq<char>, k: int)
    requires
        0 <= k < pieces.len(),
        contains_text(pieces[k], pat),
    ensures
        first_containing(pieces, pat) is Some,
    decreases pieces.len(),
{
    if !contains_text(pieces[0], pat) {
        assert(pieces.drop_first()[k - 1] == pieces[k]);
        lemma_first_containing_some(pieces.drop_first(), pat, k - 1);
    }
}

/// A text without separator is a single piece.
pub proof fn lemma_split_no_sep(s: Seq<char>, sep: char)
    requires
        !s.contains(sep),
    ensures
        split_by(s, sep) == seq![s],
    decreases s.len(),
{
    if s.len() > 0 {
        let s0 = s.drop_last();
        assert forall|c: char| s0.contains(c) implies s.contains(c) by {
            let k = choose|k: int| 0 <= k < s0.len() && s0[k] == c;
            assert(s[k] == c);
        }
        lemma_split_no_sep(s0, sep);
        assert(s.last() != sep) by {
            assert(s[s.len() - 1] == s.last());
        }
        assert(s0.push(s.last()) == s);
    } else {
        assert(s == Seq::<char>::empty());
    }
}

/// The first position of `c` in a text that contains it.
pub proof fn lemma_first_index(s: Seq<char>, c: char) -> (j: int)
    requires
        s.contains(c),
    ensures
        0 <= j < s.len(),
        s[j] == c,
        forall|m: int| 0 <= m < j ==> s[m] != c,
    decreases s.len(),
{
    if s[0] == c {
        0
    } else {
        let t = s.drop_first();
        let k = choose|k: int| 0 <= k < s.len() && s[k] == c;
        assert(t[k - 1] == c);
        let j0 = lemma_first_index(t, c);
        assert forall|m: int| 0 <= m < j0 + 1 implies s[m] != c by {
            if m > 0 {
                assert(s[m] == t[m - 1]);
            }
        }
        j0 + 1
    }
}

/// When `pat` holds no separator, a text that contains `pat` has a piece that
/// contains it.
pub proof fn lemma_piece_contains(s: Seq<char>, sep: char, pat: Seq<char>)
    requires
        contains_text(s, pat),
        !pat.contains(sep),
    ensures
        first_containing(split_by(s, sep), pat) is Some,
    decreases s.len(),
{
    let i = choose|i: int| occurs_at(s, pat, i);
    if !s.contains(sep) {
        lemma_split_no_sep(s, sep);
        assert(split_by(s, sep)[0] == s);
    } else {
        let j = lemma_first_index(s, sep);
        let a = s.subrange(0, j);
        let b = s.subrange(j + 1, s.len() as int);
        assert(s =~= a + seq![sep] + b);
        assert(!a.contains(sep)) by {
            if a.contains(sep) {
                let m = choose|m: int| 0 <= m < a.len() && a[m] == sep;
                assert(s[m] == sep);
            }
        }
        lemma_split_at_sep(a, sep, b);
        lemma_split_no_sep(a, sep);
        lemma_first_containing_append(split_by(a, sep), split_by(b, sep), pat);
        if i + pat.len() <= j {
            assert(a.subrange(i, i + pat.len()) == pat);
            assert(occurs_at(a, pat, i));
            assert(split_by(a, sep)[0] == a);
        } else {
            assert(i > j) by {
                if i <= j {
                    assert(pat[j - i] == s[j]);
                }
            }
            assert(b.subrange(i - j - 1, i - j - 1 + pat.len()) == pat);
            assert(occurs_at(b, pat, i - j - 1));
            lemma_piece_contains(b, sep, pat);
        }
    }
}

} // verus!

verus! {

/// Whether `pat` occurs in `s` at position `i`.
pub fn occurs_at_exec(s: &Vec<char>, pat: &Vec<char>, i: usize) -> (b: bool)
    ensures
        b == occurs_at(s@, pat@, i as int),
{
    if i > s.len() || pat.len() > s.len() - i {
        return false;
    }
    let mut k: usize = 0;
    while k < pat.len()
        invariant
            i + pat.len() <= s.len(),
            k <= pat.len(),
            forall|m: int| 0 <= m < k ==> s@[i + m] == pat@[m],
        decreases pat.len() - k,
    {
        if s[i + k] != pat[k] {
            assert(s@.subrange(i as int, i + pat.len())[k as int] != pat@[k as int]);
            return false;
        }
        k = k + 1;
    }
    assert(s@.subrange(i as int, i + pat.len()) =~= pat@);
    true
}

/// Whether `pat` occurs anywhere in `s`.
pub fn contains_exec(s: &Vec<char>, pat: &Vec<char>) -> (b: bool)
    ensures
        b == contains_text(s@, pat@),
{
    let mut i: usize = 0;
    loop
        invariant
            i <= s.len(),
            forall|m: int| 0 <= m < i ==> !occurs_at(s@, pat@, m),
        ensures
            forall|m: int| 0 <= m <= s.len() ==> !occurs_at(s@, pat@, m),
        decreases s.len() - i,
    {
        if occurs_at_exec(s, pat, i) {
            return true;
        }
        if i == s.len() {
            break;
        }
        i = i + 1;
    }
    assert forall|m: int| !occurs_at(s@, pat@, m) by {
        if 0 <= m <= s.len() {
        }
    }
    false
}

/// The first piece of `s`, cut at `sep`, that contains `pat`.
pub fn find_piece(s: &Vec<char>, sep: char, pat: &Vec<char>) -> (r: Option<Vec<char>>)
    ensures
        match r {
            Some(p) => first_containing(split_by(s@, sep), pat@) == Some(p@),
            None => first_containing(split_by(s@, sep), pat@) is None,
        },
{
    let ghost mut done: Seq<Seq<char>> = Seq::empty();
    let mut cur: Vec<char> = Vec::new();
    let mut i: usize = 0;
    while i < s.len()
        invariant
            i <= s.len(),
            split_by(s@.subrange(0, i as int), sep) == done.push(cur@),
            first_containing(done, pat@) is None,
            !cur@.contains(sep),
        decreases s.len() - i,
    {
        let c = s[i];
        let ghost prefix = s@.subrange(0, i as int);
        assert(s@.subrange(0, i + 1).drop_last() == prefix);
        if c == sep {
            if contains_exec(&cur, pat) {
                proof {
                    let rest = s@.subrange(i + 1, s@.len() as int);
                    assert(s@ =~= prefix + seq![sep] + rest);
                    lemma_split_at_sep(prefix, sep, rest);
                    lemma_first_containing_append(done, seq![cur@], pat@);
                    lemma_first_containing_append(done.push(cur@), split_by(rest, sep), pat@);
                    assert(done + seq![cur@] == done.push(cur@));
                    assert(first_containing(seq![cur@], pat@) == Some(cur@));
                }
                return Some(cur);
            }
            proof {
                lemma_first_containing_append(done, seq![cur@], pat@);
                assert(done + seq![cur@] == done.push(cur@));
                assert(seq![cur@].drop_first().len() == 0);
                assert(first_containing(seq![cur@].drop_first(), pat@) is None);
            }
            proof {
                done = done.push(cur@);
            }
            cur = Vec::new();
            assert(split_by(s@.subrange(0, i + 1), sep) == done.push(cur@));
        } else {
            let ghost before = cur@;
            cur.push(c);
            assert(done.push(cur@) == split_by(prefix, sep).update(
                split_by(prefix, sep).len() - 1,
                split_by(prefix, sep).last().push(c),
            ));
            assert forall|x: char| cur@.contains(x) implies x != sep by {
                let m = choose|m: int| 0 <= m < cur@.len() && cur@[m] == x;
                if m < cur@.len() - 1 {
                    assert(before[m] == x);
                }
            }
        }
        i = i + 1;
    }
    assert(s@.subrange(0, s@.len() as int) == s@);
    proof {
        lemma_first_containing_append(done, seq![cur@], pat@);
        assert(done + seq![cur@] == done.push(cur@));
        assert(seq![cur@].drop_first().len() == 0);
        assert(seq![cur@][0] == cur@);
        assert(first_containing(seq![cur@].drop_first(), pat@) is None);
    }
    if contains_exec(&cur, pat) {
        Some(cur)
    } else {
        None
    }
}

} // verus!

verus! {

/// The upper-case form of an ASCII lower-case letter; other characters are
/// unchanged.
pub open spec fn ascii_upper(c: char) -> char {
    if 'a' <= c && c <= 'z' {
        (((c as u8) - 32) as u8) as char
    } else {
        c
    }
}

/// `s` without the characters `drop` (what `str::replace(drop, "")` gives).
pub open spec fn remove_char(s: Seq<char>, drop: char) -> Seq<char>
    decreases s.len(),
{
    if s.len() == 0 {
        Seq::empty()
    } else if s.last() == drop {
        remove_char(s.drop_last(), drop)
    } else {
        remove_char(s.drop_last(), drop).push(s.last())
    }
}

/// `s` with its ASCII letters in upper case.
pub open spec fn ascii_uppercase(s: Seq<char>) -> Seq<char> {
    s.map_values(|c: char| ascii_upper(c))
}

/// Removing a character distributes over concatenation.
pub proof fn lemma_remove_char_append(a: Seq<char>, b: Seq<char>, drop: char)
    ensures
        remove_char(a + b, drop) == remove_char(a, drop) + remove_char(b, drop),
    decreases b.len(),
{
    if b.len() == 0 {
        assert(a + b == a);
    } else {
        assert((a + b).drop_last() == a + b.drop_last());
        lemma_remove_char_append(a, b.drop_last(), drop);
    }
}

/// A text without `drop` is unchanged by removing it.
pub proof fn lemma_remove_char_absent(s: Seq<char>, drop: char)
    requires
        forall|i: int| 0 <= i < s.len() ==> s[i] != drop,
    ensures
        remove_char(s, drop) == s,
    decreases s.len(),
{
    if s.len() > 0 {
        lemma_remove_char_absent(s.drop_last(), drop);
        assert(s.drop_last().push(s.last()) == s);
    }
}

fn ascii_upper_exec(c: char) -> (u: char)
    ensures
        u == ascii_upper(c),
{
    if 'a' <= c && c <= 'z' {
        ((c as u8) - 32) as char
    } else {
        c
    }
}

/// `s` without the characters `drop`.
pub fn remove_char_exec(s: &str, drop: char) -> (r: String)
    ensures
        r@ == remove_char(s@, drop),
{
    let v = chars_of(s);
    let mut out: Vec<char> = Vec::new();
    let mut i: usize = 0;
    while i < v.len()
        invariant
            v@ == s@,
            i <= v.len(),
            out@ == remove_char(v@.subrange(0, i as int), drop),
        decreases v.len() - i,
    {
        assert(v@.subrange(0, i + 1).drop_last() == v@.subrange(0, i as int));
        if v[i] != drop {
            out.push(v[i]);
        }
        i = i + 1;
    }
    assert(v@.subrange(0, v@.len() as int) == v@);
    string_of(&out)
}

/// `s` with its ASCII letters in upper case.
pub fn ascii_uppercase_exec(s: &str) -> (r: String)
    ensures
        r@ == ascii_uppercase(s@),
{
    let v = chars_of(s);
    let mut out: Vec<char> = Vec::new();
    let mut i: usize = 0;
    while i < v.len()
        invariant
            v@ == s@,
            i <= v.len(),
            out@ == ascii_uppercase(v@.subrange(0, i as int)),
        decreases v.len() - i,
    {
        out.push(ascii_upper_exec(v[i]));
        i = i + 1;
        assert(out@ =~= ascii_uppercase(v@.subrange(0, i as int)));
    }
    assert(v@.subrange(0, v@.len() as int) == v@);
    string_of(&out)
}

/// The pieces of a text hold no separator, and only characters of the text.
pub proof fn lemma_split_pieces(s: Seq<char>, sep: char)
    ensures
        forall|k: int, x: char|
            #![trigger split_by(s, sep)[k].contains(x)]
            0 <= k < split_by(s, sep).len() && split_by(s, sep)[k].contains(x) ==> x != sep
                && s.contains(x),
    decreases s.len(),
{
    lemma_split_nonempty(s, sep);
    if s.len() > 0 {
        let s0 = s.drop_last();
        lemma_split_pieces(s0, sep);
        lemma_split_nonempty(s0, sep);
        let prev = split_by(s0, sep);
        let ps = split_by(s, sep);
        assert forall|k: int, x: char|
            #![trigger ps[k].contains(x)]
            0 <= k < ps.len() && ps[k].contains(x) implies x != sep && s.contains(x) by {
            let m = choose|m: int| 0 <= m < ps[k].len() && ps[k][m] == x;
            if s.last() == sep {
                if k < prev.len() {
                    assert(ps[k] == prev[k]);
                    assert(prev[k].contains(x));
                    let j = choose|j: int| 0 <= j < s0.len() && s0[j] == x;
                    assert(s[j] == x);
                }
            } else {
                if k < prev.len() - 1 {
                    assert(ps[k] == prev[k]);
                    assert(prev[k].contains(x));
                    let j = choose|j: int| 0 <= j < s0.len() && s0[j] == x;
                    assert(s[j] == x);
                } else {
                    assert(ps[k] == prev.last().push(s.last()));
                    if m < prev.last().len() {
                        assert(prev[prev.len() - 1].contains(x)) by {
                            assert(prev.last()[m] == x);
                        }
                        let j = choose|j: int| 0 <= j < s0.len() && s0[j] == x;
                        assert(s[j] == x);
                    } else {
                        assert(x == s.last());
                        assert(s[s.len() - 1] == x);
                    }
                }
            }
        }
    }
}

/// What `first_containing` finds is one of the pieces, and contains the
/// pattern.
pub proof fn lemma_first_containing_member(pieces: Seq<Seq<char>>, pat: Seq<char>)
    ensures
        first_containing(pieces, pat) matches Some(p) ==> contains_text(p, pat) && exists|k: int|
            0 <= k < pieces.len() && #[trigger] pieces[k] == p,
    decreases pieces.len(),
{
    if pieces.len() > 0 && !contains_text(pieces[0], pat) {
        lemma_first_containing_member(pieces.drop_first(), pat);
        if let Some(p) = first_containing(pieces, pat) {
            let k = choose|k: int| 0 <= k < pieces.drop_first().len() && #[trigger] pieces.drop_first()[k] == p;
            assert(pieces[k + 1] == p);
        }
    } else if pieces.len() > 0 {
        assert(pieces[0] == pieces[0]);
    }
}

} // verus!
