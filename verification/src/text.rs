//! Verified building blocks for the source text that the generators emit:
//! concatenation, joining, character replacement, searching, trimming and
//! line splitting, each specified over `Seq<char>`.
use vstd::prelude::*;

verus! {

use vstd::string::StrSliceExecFns;
use vstd::string::StringExecFns;

/// Relies on std's `String::push`: appends exactly one character.
pub assume_specification[ String::push ](s: &mut String, ch: char)
    ensures
        final(s)@ == old(s)@ + seq![ch],
;

/// Character-wise equality of two string slices.
pub fn str_eq(a: &str, b: &str) -> (r: bool)
    ensures
        r == (a@ == b@),
{
    let alen = a.unicode_len();
    let blen = b.unicode_len();
    if alen != blen {
        return false;
    }
    let mut i: usize = 0;
    while i < alen
        invariant
            0 <= i <= alen,
            alen == a@.len(),
            alen == b@.len(),
            forall|j: int| 0 <= j < i ==> a@[j] == b@[j],
        decreases alen - i,
    {
        if a.get_char(i) != b.get_char(i) {
            return false;
        }
        i = i + 1;
    }
    proof {
        assert(a@ =~= b@);
    }
    true
}

pub open spec fn replace_char_seq(s: Seq<char>, from: char, to: char) -> Seq<char> {
    s.map_values(|c: char| if c == from { to } else { c })
}

/// Replaces every occurrence of one character by another.
pub fn replace_char(s: &str, from: char, to: char) -> (r: String)
    ensures
        r@ == replace_char_seq(s@, from, to),
{
    let n = s.unicode_len();
    let mut r = String::new();
    let mut i: usize = 0;
    while i < n
        invariant
            0 <= i <= n,
            n == s@.len(),
            r@ =~= replace_char_seq(s@.take(i as int), from, to),
        decreases n - i,
    {
        let c = s.get_char(i);
        if c == from {
            r.push(to);
        } else {
            r.push(c);
        }
        proof {
            assert(r@ =~= replace_char_seq(s@.take(i + 1 as int), from, to));
        }
        i = i + 1;
    }
    proof {
        assert(s@.take(n as int) =~= s@);
    }
    r
}

/// The pieces of `parts` joined with `sep` between consecutive pieces.
pub open spec fn join_seq(parts: Seq<Seq<char>>, sep: Seq<char>) -> Seq<char>
    decreases parts.len(),
{
    if parts.len() == 0 {
        Seq::empty()
    } else if parts.len() == 1 {
        parts[0]
    } else {
        join_seq(parts.drop_last(), sep) + sep + parts.last()
    }
}

/// Joins owned strings with a separator.
pub fn join_all(parts: &Vec<String>, sep: &str) -> (r: String)
    ensures
        r@ == join_seq(parts@.map_values(|p: String| p@), sep@),
{
    let ghost views = parts@.map_values(|p: String| p@);
    let mut r = String::new();
    let mut i: usize = 0;
    while i < parts.len()
        invariant
            0 <= i <= parts.len(),
            views == parts@.map_values(|p: String| p@),
            views.len() == parts@.len(),
            r@ =~= join_seq(views.take(i as int), sep@),
        decreases parts.len() - i,
    {
        if i > 0 {
            r.append(sep);
        }
        r.append(parts[i].as_str());
        proof {
            assert(views.take(i + 1 as int).drop_last() =~= views.take(i as int));
            assert(views.take(i + 1 as int).last() == views[i as int]);
            assert(r@ =~= join_seq(views.take(i + 1 as int), sep@));
        }
        i = i + 1;
    }
    proof {
        assert(views.take(parts@.len() as int) =~= views);
    }
    r
}

/// Whether `s` holds the character `c`.
pub fn contains_char(s: &str, c: char) -> (r: bool)
    ensures
        r == s@.contains(c),
{
    let n = s.unicode_len();
    let mut i: usize = 0;
    while i < n
        invariant
            0 <= i <= n,
            n == s@.len(),
            forall|j: int| 0 <= j < i ==> s@[j] != c,
        decreases n - i,
    {
        if s.get_char(i) == c {
            return true;
        }
        i = i + 1;
    }
    false
}

/// Whether `p` stands at the front of `s`.
pub fn starts_with(s: &str, p: &str) -> (r: bool)
    ensures
        r == p@.is_prefix_of(s@),
{
    let n = s.unicode_len();
    let m = p.unicode_len();
    if m > n {
        proof {
            assert(!p@.is_prefix_of(s@));
        }
        return false;
    }
    let mut i: usize = 0;
    while i < m
        invariant
            0 <= i <= m,
            m == p@.len(),
            n == s@.len(),
            m <= n,
            forall|j: int| 0 <= j < i ==> s@[j] == p@[j],
        decreases m - i,
    {
        if s.get_char(i) != p.get_char(i) {
            proof {
                assert(s@.subrange(0, m as int)[i as int] == s@[i as int]);
            }
            return false;
        }
        i = i + 1;
    }
    proof {
        assert(p@ =~= s@.subrange(0, m as int));
    }
    true
}

/// Whether `p` stands at the back of `s`.
pub fn ends_with(s: &str, p: &str) -> (r: bool)
    ensures
        r == p@.is_suffix_of(s@),
{
    let n = s.unicode_len();
    let m = p.unicode_len();
    if m > n {
        proof {
            assert(!p@.is_suffix_of(s@));
        }
        return false;
    }
    let mut i: usize = 0;
    while i < m
        invariant
            0 <= i <= m,
            m == p@.len(),
            n == s@.len(),
            m <= n,
            forall|j: int| 0 <= j < i ==> s@[n - m + j] == p@[j],
        decreases m - i,
    {
        if s.get_char(n - m + i) != p.get_char(i) {
            proof {
                assert(s@.subrange(n - m, n as int)[i as int] == s@[n - m + i]);
            }
            return false;
        }
        i = i + 1;
    }
    proof {
        assert(p@ =~= s@.subrange(n - m, n as int));
    }
    true
}

/// Whether `p` stands somewhere inside `s`.
pub open spec fn contains_seq(s: Seq<char>, p: Seq<char>) -> bool {
    exists|i: int| 0 <= i && i + p.len() <= s.len() && #[trigger] s.subrange(i, i + p.len()) == p
}

fn match_at(s: &str, p: &str, at: usize) -> (r: bool)
    requires
        at + p@.len() <= s@.len(),
    ensures
        r == (s@.subrange(at as int, at + p@.len()) == p@),
{
    let m = p.unicode_len();
    let n = s.unicode_len();
    let mut i: usize = 0;
    while i < m
        invariant
            0 <= i <= m,
            m == p@.len(),
            n == s@.len(),
            at + m <= n,
            forall|j: int| 0 <= j < i ==> s@[at + j] == p@[j],
        decreases m - i,
    {
        if s.get_char(at + i) != p.get_char(i) {
            proof {
                assert(s@.subrange(at as int, at + p@.len())[i as int] == s@[at + i]);
            }
            return false;
        }
        i = i + 1;
    }
    proof {
        assert(s@.subrange(at as int, at + p@.len()) =~= p@);
    }
    true
}

/// Substring search, specified as the existence of a matching offset.
pub fn contains_str(s: &str, p: &str) -> (r: bool)
    ensures
        r == contains_seq(s@, p@),
{
    let n = s.unicode_len();
    let m = p.unicode_len();
    if m > n {
        return false;
    }
    if m == 0 {
        proof {
            assert(s@.subrange(0, 0 + p@.len() as int) =~= p@);
            assert(contains_seq(s@, p@));
        }
        return true;
    }
    let mut i: usize = 0;
    while i <= n - m
        invariant
            0 <= i <= n - m + 1,
            0 < m <= n,
            n == s@.len(),
            m == p@.len(),
            forall|k: int| 0 <= k < i ==> #[trigger] s@.subrange(k, k + p@.len()) != p@,
        decreases n - i,
    {
        if match_at(s, p, i) {
            return true;
        }
        i = i + 1;
    }
    false
}

/// Whether one of the owned strings equals `x`.
pub fn vec_contains_string(v: &Vec<String>, x: &str) -> (r: bool)
    ensures
        r == v@.map_values(|p: String| p@).contains(x@),
{
    let ghost views = v@.map_values(|p: String| p@);
    let mut i: usize = 0;
    while i < v.len()
        invariant
            0 <= i <= v.len(),
            views == v@.map_values(|p: String| p@),
            views.len() == v@.len(),
            forall|j: int| 0 <= j < i ==> views[j] != x@,
        decreases v.len() - i,
    {
        if str_eq(v[i].as_str(), x) {
            proof {
                assert(views[i as int] == x@);
            }
            return true;
        }
        i = i + 1;
    }
    false
}

/// The decimal digit character for one digit value.
pub open spec fn digit_char(d: nat) -> char {
    if d == 0 {
        '0'
    } else if d == 1 {
        '1'
    } else if d == 2 {
        '2'
    } else if d == 3 {
        '3'
    } else if d == 4 {
        '4'
    } else if d == 5 {
        '5'
    } else if d == 6 {
        '6'
    } else if d == 7 {
        '7'
    } else if d == 8 {
        '8'
    } else {
        '9'
    }
}

/// The decimal rendering of a natural number.
pub open spec fn dec_str(n: nat) -> Seq<char>
    decreases n,
{
    if n < 10 {
        seq![digit_char(n)]
    } else {
        dec_str(n / 10).push(digit_char(n % 10))
    }
}

/// Renders a number in decimal.
pub fn usize_to_string(n: usize) -> (r: String)
    ensures
        r@ == dec_str(n as nat),
    decreases n,
{
    let d = n % 10;
    let c: char = if d == 0 {
        '0'
    } else if d == 1 {
        '1'
    } else if d == 2 {
        '2'
    } else if d == 3 {
        '3'
    } else if d == 4 {
        '4'
    } else if d == 5 {
        '5'
    } else if d == 6 {
        '6'
    } else if d == 7 {
        '7'
    } else if d == 8 {
        '8'
    } else {
        '9'
    };
    if n < 10 {
        let mut s = String::new();
        s.push(c);
        proof {
            assert(s@ =~= dec_str(n as nat));
        }
        s
    } else {
        let mut s = usize_to_string(n / 10);
        s.push(c);
        s
    }
}

/// The whitespace characters that the formatter strips.
pub open spec fn is_space(c: char) -> bool {
    c == ' ' || c == '\t' || c == '\r' || c == '\n'
}

fn is_space_exec(c: char) -> (r: bool)
    ensures
        r == is_space(c),
{
    c == ' ' || c == '\t' || c == '\r' || c == '\n'
}

pub open spec fn trim_front_seq(s: Seq<char>) -> Seq<char>
    decreases s.len(),
{
    if s.len() > 0 && is_space(s[0]) {
        trim_front_seq(s.drop_first())
    } else {
        s
    }
}

pub open spec fn trim_back_seq(s: Seq<char>) -> Seq<char>
    decreases s.len(),
{
    if s.len() > 0 && is_space(s.last()) {
        trim_back_seq(s.drop_last())
    } else {
        s
    }
}

/// The string with leading and trailing whitespace removed.
pub open spec fn trim_seq(s: Seq<char>) -> Seq<char> {
    trim_back_seq(trim_front_seq(s))
}

proof fn lemma_trim_front_at(s: Seq<char>, a: int)
    requires
        0 <= a <= s.len(),
        forall|j: int| 0 <= j < a ==> is_space(s[j]),
        a == s.len() || !is_space(s[a]),
    ensures
        trim_front_seq(s) == s.subrange(a, s.len() as int),
    decreases a,
{
    if a == 0 {
        if s.len() > 0 && is_space(s[0]) {
            assert(false);
        }
        assert(s.subrange(0, s.len() as int) =~= s);
    } else {
        assert(is_space(s[0]));
        let t = s.drop_first();
        assert(t =~= s.subrange(1, s.len() as int));
        lemma_trim_front_at(t, a - 1);
        assert(t.subrange(a - 1, t.len() as int) =~= s.subrange(a, s.len() as int));
    }
}

proof fn lemma_trim_back_at(s: Seq<char>, b: int)
    requires
        0 <= b <= s.len(),
        forall|j: int| b <= j < s.len() ==> is_space(s[j]),
        b == 0 || !is_space(s[b - 1]),
    ensures
        trim_back_seq(s) == s.subrange(0, b),
    decreases s.len() - b,
{
    if b == s.len() {
        if s.len() > 0 && is_space(s.last()) {
            assert(false);
        }
        assert(s.subrange(0, s.len() as int) =~= s);
    } else {
        assert(is_space(s.last()));
        let t = s.drop_last();
        assert(t =~= s.subrange(0, s.len() - 1));
        lemma_trim_back_at(t, b);
        assert(t.subrange(0, b) =~= s.subrange(0, b));
    }
}

/// Removes whitespace from both ends.
pub fn trim(s: &str) -> (r: String)
    ensures
        r@ == trim_seq(s@),
{
    let n = s.unicode_len();
    let mut a: usize = 0;
    while a < n && is_space_exec(s.get_char(a))
        invariant
            0 <= a <= n,
            n == s@.len(),
            forall|j: int| 0 <= j < a ==> is_space(s@[j]),
        decreases n - a,
    {
        a = a + 1;
    }
    if a == n {
        proof {
            lemma_trim_front_at(s@, a as int);
            assert(s@.subrange(n as int, n as int).len() == 0);
            lemma_trim_back_at(s@.subrange(n as int, n as int), 0);
            assert(trim_seq(s@) =~= Seq::<char>::empty());
        }
        return String::new();
    }
    let mut b: usize = n;
    while b > a && is_space_exec(s.get_char(b - 1))
        invariant
            a <= b <= n,
            n == s@.len(),
            a < n,
            !is_space(s@[a as int]),
            forall|j: int| b <= j < n ==> is_space(s@[j]),
        decreases b,
    {
        b = b - 1;
    }
    let r = s.substring_char(a, b).to_owned();
    proof {
        lemma_trim_front_at(s@, a as int);
        let t = s@.subrange(a as int, n as int);
        assert(b > a);
        assert(!is_space(t[(b - a - 1) as int]));
        lemma_trim_back_at(t, b - a);
        assert(t.subrange(0, b - a) =~= s@.subrange(a as int, b as int));
    }
    r
}

/// The pieces of `s` between newline characters; one piece more than there
/// are newlines, in order.
pub open spec fn split_lines_seq(s: Seq<char>) -> Seq<Seq<char>>
    decreases s.len(),
{
    if s.len() == 0 {
        seq![Seq::<char>::empty()]
    } else if s[0] == '\n' {
        seq![Seq::<char>::empty()] + split_lines_seq(s.drop_first())
    } else {
        let rest = split_lines_seq(s.drop_first());
        seq![seq![s[0]] + rest[0]] + rest.drop_first()
    }
}

proof fn lemma_split_lines_len(s: Seq<char>)
    ensures
        split_lines_seq(s).len() >= 1,
    decreases s.len(),
{
    if s.len() > 0 {
        lemma_split_lines_len(s.drop_first());
    }
}

proof fn lemma_split_lines_push(s: Seq<char>, c: char)
    ensures
        c == '\n' ==> split_lines_seq(s.push(c)) == split_lines_seq(s) + seq![
            Seq::<char>::empty(),
        ],
        c != '\n' ==> split_lines_seq(s.push(c)) == split_lines_seq(s).drop_last() + seq![
            split_lines_seq(s).last().push(c),
        ],
    decreases s.len(),
{
    lemma_split_lines_len(s);
    if s.len() == 0 {
        reveal_with_fuel(split_lines_seq, 3);
        if c == '\n' {
            assert(s.push(c)[0] == '\n');
            assert(s.push(c).drop_first() =~= Seq::<char>::empty());
            assert(split_lines_seq(s.push(c)) =~~= split_lines_seq(s) + seq![
                Seq::<char>::empty(),
            ]);
        } else {
            assert(s.push(c)[0] == c);
            assert(s.push(c).drop_first() =~= Seq::<char>::empty());
            assert(split_lines_seq(s.push(c)) =~~= split_lines_seq(s).drop_last() + seq![
                split_lines_seq(s).last().push(c),
            ]);
        }
    } else {
        let t = s.drop_first();
        lemma_split_lines_push(t, c);
        lemma_split_lines_len(t);
        assert(s.push(c).drop_first() =~= t.push(c));
        if s[0] == '\n' {
            assert(s.push(c)[0] == '\n');
            if c == '\n' {
                assert(split_lines_seq(s.push(c)) =~~= split_lines_seq(s) + seq![
                    Seq::<char>::empty(),
                ]);
            } else {
                assert((seq![Seq::<char>::empty()] + split_lines_seq(t)).drop_last() =~~= seq![
                    Seq::<char>::empty(),
                ] + split_lines_seq(t).drop_last());
                assert(split_lines_seq(s.push(c)) =~~= split_lines_seq(s).drop_last() + seq![
                    split_lines_seq(s).last().push(c),
                ]);
            }
        } else {
            assert(s.push(c)[0] == s[0]);
            let rest = split_lines_seq(t);
            let restp = split_lines_seq(t.push(c));
            if c == '\n' {
                assert(restp[0] == rest[0]);
                assert((seq![seq![s[0]] + restp[0]] + restp.drop_first()) =~~= (seq![
                    seq![s[0]] + rest[0],
                ] + rest.drop_first()) + seq![Seq::<char>::empty()]);
            } else {
                if rest.len() == 1 {
                    assert(restp[0] == rest[0].push(c));
                    assert((seq![seq![s[0]] + restp[0]] + restp.drop_first()) =~~= (seq![
                        seq![s[0]] + rest[0],
                    ] + rest.drop_first()).drop_last() + seq![
                        ((seq![seq![s[0]] + rest[0]] + rest.drop_first()).last()).push(c),
                    ]);
                } else {
                    assert(restp[0] == rest[0]);
                    assert(restp.drop_first() =~~= rest.drop_first().drop_last() + seq![
                        rest.last().push(c),
                    ]);
                    assert((seq![seq![s[0]] + restp[0]] + restp.drop_first()) =~~= (seq![
                        seq![s[0]] + rest[0],
                    ] + rest.drop_first()).drop_last() + seq![
                        ((seq![seq![s[0]] + rest[0]] + rest.drop_first()).last()).push(c),
                    ]);
                }
            }
        }
    }
}

/// Splits `s` at newline characters.
pub fn split_lines(s: &str) -> (r: Vec<String>)
    ensures
        r@.map_values(|p: String| p@) == split_lines_seq(s@),
{
    let n = s.unicode_len();
    let mut out: Vec<String> = Vec::new();
    let mut cur = String::new();
    let mut i: usize = 0;
    proof {
        assert(out@.map_values(|p: String| p@) + seq![cur@] =~~= split_lines_seq(s@.take(0)));
    }
    while i < n
        invariant
            0 <= i <= n,
            n == s@.len(),
            out@.map_values(|p: String| p@) + seq![cur@] =~= split_lines_seq(s@.take(i as int)),
        decreases n - i,
    {
        let c = s.get_char(i);
        proof {
            assert(s@.take(i + 1 as int) =~= s@.take(i as int).push(s@[i as int]));
            lemma_split_lines_push(s@.take(i as int), s@[i as int]);
            lemma_split_lines_len(s@.take(i as int));
        }
        if c == '\n' {
            out.push(cur);
            cur = String::new();
            proof {
                assert(out@.map_values(|p: String| p@) + seq![cur@] =~~= split_lines_seq(s@.take(
                    i + 1 as int,
                )));
            }
        } else {
            cur.push(c);
            proof {
                let prev = split_lines_seq(s@.take(i as int));
                assert((out@.map_values(|p: String| p@) + seq![cur@]).drop_last() =~~= prev.drop_last());
                assert(out@.map_values(|p: String| p@) + seq![cur@] =~~= split_lines_seq(s@.take(
                    i + 1 as int,
                )));
            }
        }
        i = i + 1;
    }
    out.push(cur);
    proof {
        assert(s@.take(n as int) =~= s@);
        assert(out@.map_values(|p: String| p@) =~~= split_lines_seq(s@));
    }
    out
}

/// A substring of a text stays one when more text follows.
pub proof fn lemma_contains_prefix(a: Seq<char>, b: Seq<char>, p: Seq<char>)
    requires
        contains_seq(a, p),
    ensures
        contains_seq(a + b, p),
{
    let i = choose|i: int|
        0 <= i && i + p.len() <= a.len() && #[trigger] a.subrange(i, i + p.len()) == p;
    assert((a + b).subrange(i, i + p.len() as int) =~= a.subrange(i, i + p.len() as int));
}

/// A substring of a substring is a substring of the whole.
pub proof fn lemma_contains_trans(s: Seq<char>, t: Seq<char>, p: Seq<char>)
    requires
        contains_seq(s, t),
        contains_seq(t, p),
    ensures
        contains_seq(s, p),
{
    let i = choose|i: int|
        0 <= i && i + t.len() <= s.len() && #[trigger] s.subrange(i, i + t.len()) == t;
    let j = choose|j: int|
        0 <= j && j + p.len() <= t.len() && #[trigger] t.subrange(j, j + p.len()) == p;
    assert(s.subrange(i + j, i + j + p.len() as int) =~= t.subrange(j, j + p.len() as int));
}

/// Every joined part is a substring of the join.
pub proof fn lemma_join_contains(parts: Seq<Seq<char>>, sep: Seq<char>, i: int)
    requires
        0 <= i < parts.len(),
    ensures
        contains_seq(join_seq(parts, sep), parts[i]),
    decreases parts.len(),
{
    let j = join_seq(parts, sep);
    let p = parts[i];
    if parts.len() == 1 {
        assert(j == parts[0]);
        assert(j.subrange(0, 0int + p.len()) =~= p);
        assert(contains_seq(j, p));
    } else if i == parts.len() - 1 {
        let head = join_seq(parts.drop_last(), sep) + sep;
        assert(j =~= head + parts.last());
        let off = head.len() as int;
        assert(j.subrange(off, off + p.len()) =~= p);
        assert(contains_seq(j, p));
    } else {
        lemma_join_contains(parts.drop_last(), sep, i);
        assert(parts.drop_last()[i] == p);
        lemma_contains_prefix(join_seq(parts.drop_last(), sep), sep + parts.last(), p);
        assert(join_seq(parts.drop_last(), sep) + (sep + parts.last()) =~= j);
        assert(contains_seq(j, p));
    }
}

/// Splitting at lines distributes over a newline between two texts.
pub proof fn lemma_split_lines_app(x: Seq<char>, y: Seq<char>)
    ensures
        split_lines_seq(x + seq!['\n'] + y) == split_lines_seq(x) + split_lines_seq(y),
    decreases x.len(),
{
    let s = x + seq!['\n'] + y;
    if x.len() == 0 {
        assert(s =~= seq!['\n'] + y);
        assert(s[0] == '\n');
        assert(s.drop_first() =~= y);
        assert(split_lines_seq(s) == seq![Seq::<char>::empty()] + split_lines_seq(y));
        assert(x =~= Seq::<char>::empty());
        assert(split_lines_seq(x) == seq![Seq::<char>::empty()]);
    } else {
        assert(s[0] == x[0]);
        assert(s.drop_first() =~= x.drop_first() + seq!['\n'] + y);
        lemma_split_lines_app(x.drop_first(), y);
        let rest_s = split_lines_seq(s.drop_first());
        let rest_x = split_lines_seq(x.drop_first());
        assert(rest_s == rest_x + split_lines_seq(y));
        lemma_split_lines_len(x.drop_first());
        if x[0] == '\n' {
            assert(split_lines_seq(s) == seq![Seq::<char>::empty()] + rest_s);
            assert(split_lines_seq(x) == seq![Seq::<char>::empty()] + rest_x);
            assert(split_lines_seq(s) =~~= split_lines_seq(x) + split_lines_seq(y));
        } else {
            assert(rest_s[0] == rest_x[0]);
            assert(rest_s.drop_first() =~~= rest_x.drop_first() + split_lines_seq(y));
            assert(split_lines_seq(s) == seq![seq![s[0]] + rest_s[0]] + rest_s.drop_first());
            assert(split_lines_seq(x) == seq![seq![x[0]] + rest_x[0]] + rest_x.drop_first());
            assert(split_lines_seq(s) =~~= split_lines_seq(x) + split_lines_seq(y));
        }
    }
}

/// A text without line breaks splits into itself alone.
pub proof fn lemma_split_lines_single(l: Seq<char>)
    requires
        !l.contains('\n'),
    ensures
        split_lines_seq(l) == seq![l],
    decreases l.len(),
{
    if l.len() == 0 {
        assert(split_lines_seq(l) =~~= seq![l]);
    } else {
        assert(l[0] != '\n');
        assert(!l.drop_first().contains('\n')) by {
            if l.drop_first().contains('\n') {
                let i = choose|i: int|
                    0 <= i < l.drop_first().len() && l.drop_first()[i] == '\n';
                assert(l[i + 1] == '\n');
                assert(l.contains('\n'));
            }
        }
        lemma_split_lines_single(l.drop_first());
        let rest = split_lines_seq(l.drop_first());
        assert(rest == seq![l.drop_first()]);
        assert(seq![l[0]] + rest[0] =~= l);
        assert(split_lines_seq(l) =~~= seq![l]);
    }
}

/// A three-part line without a line break in any part has none as a whole.
pub proof fn lemma_no_newline_concat(a: Seq<char>, b: Seq<char>, c: Seq<char>)
    requires
        !a.contains('\n'),
        !b.contains('\n'),
        !c.contains('\n'),
    ensures
        !(a + b + c).contains('\n'),
{
    let l = a + b + c;
    if l.contains('\n') {
        let i = choose|i: int| 0 <= i < l.len() && l[i] == '\n';
        if i < a.len() {
            assert(a[i] == '\n');
            assert(a.contains('\n'));
        } else if i < a.len() + b.len() {
            assert(b[i - a.len()] == '\n');
            assert(b.contains('\n'));
        } else {
            assert(c[i - a.len() - b.len()] == '\n');
            assert(c.contains('\n'));
        }
    }
}

/// Trimming a line of `a` leading whitespace characters whose visible text
/// neither starts nor ends in whitespace keeps exactly that text.
pub proof fn lemma_trim_at(s: Seq<char>, a: int)
    requires
        0 <= a <= s.len(),
        forall|j: int| 0 <= j < a ==> is_space(#[trigger] s[j]),
        a == s.len() || !is_space(s[a]),
        a == s.len() || !is_space(s.last()),
    ensures
        trim_seq(s) == s.subrange(a, s.len() as int),
{
    lemma_trim_front_at(s, a);
    let t = s.subrange(a, s.len() as int);
    if a == s.len() {
        assert(t =~= Seq::<char>::empty());
    } else {
        assert(t.last() == s.last());
        lemma_trim_back_at(t, t.len() as int);
        assert(t.subrange(0, t.len() as int) =~= t);
    }
}

/// `n` levels of four-space indentation.
pub open spec fn indent_pad_seq(n: nat) -> Seq<char>
    decreases n,
{
    if n == 0 {
        Seq::empty()
    } else {
        indent_pad_seq((n - 1) as nat) + "    "@
    }
}

/// Builds the indentation prefix for `n` nesting levels.
pub fn indent_pad(n: usize) -> (r: String)
    ensures
        r@ == indent_pad_seq(n as nat),
{
    let mut r = String::new();
    let mut i: usize = 0;
    while i < n
        invariant
            0 <= i <= n,
            r@ =~= indent_pad_seq(i as nat),
        decreases n - i,
    {
        r.append("    ");
        i = i + 1;
    }
    r
}

} // verus!
