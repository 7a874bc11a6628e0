//! Text utilities the protocol engine is built on: whitespace
//! classification, trimming, whitespace tokenization, joining with a
//! separator, and decimal formatting of counters, each as a spec
//! function with a verified executable counterpart.

use vstd::prelude::*;

verus! {

/// The characters the grammar treats as whitespace: the ASCII blanks.
/// Lines arrive split on CRLF, so these are the separators a command
/// line can actually carry.
pub open spec fn is_space(c: char) -> bool {
    c == ' ' || c == '\t' || c == '\r' || c == '\n' || c == '\u{b}' || c == '\u{c}'
}

/// The character for one decimal digit value.
pub open spec fn digit_char(d: nat) -> char {
    if d == 0 {
        '0'
    } else if d == 1 {
        '1'
    } else if d == 2 {
        '2'
    } else if d == 3 {
        '3'
    } else if d == 4 {
        '4'
    } else if d == 5 {
        '5'
    } else if d == 6 {
        '6'
    } else if d == 7 {
        '7'
    } else if d == 8 {
        '8'
    } else {
        '9'
    }
}

/// The decimal representation of a number, most significant digit
/// first, with no leading zeros (a single `'0'` for zero).
pub open spec fn dec_rep(n: nat) -> Seq<char>
    decreases n,
{
    if n < 10 {
        seq![digit_char(n)]
    } else {
        dec_rep(n / 10) + seq![digit_char(n % 10)]
    }
}

fn digit_str(d: u64) -> (r: &'static str)
    requires
        d < 10,
    ensures
        r@ =~= seq![digit_char(d as nat)],
{
    proof {
        reveal_strlit("0");
        reveal_strlit("1");
        reveal_strlit("2");
        reveal_strlit("3");
        reveal_strlit("4");
        reveal_strlit("5");
        reveal_strlit("6");
        reveal_strlit("7");
        reveal_strlit("8");
        reveal_strlit("9");
    }
    if d == 0 {
        "0"
    } else if d == 1 {
        "1"
    } else if d == 2 {
        "2"
    } else if d == 3 {
        "3"
    } else if d == 4 {
        "4"
    } else if d == 5 {
        "5"
    } else if d == 6 {
        "6"
    } else if d == 7 {
        "7"
    } else if d == 8 {
        "8"
    } else {
        "9"
    }
}

/// Formats a number in decimal, as [`dec_rep`] describes.
pub fn u64_to_string(n: u64) -> (r: String)
    ensures
        r@ == dec_rep(n as nat),
    decreases n,
{
    if n < 10 {
        String::from_str(digit_str(n))
    } else {
        let high = u64_to_string(n / 10);
        high.concat(digit_str(n % 10))
    }
}

/// The longest whitespace-free prefix of `s`.
pub open spec fn first_token(s: Seq<char>) -> Seq<char>
    decreases s.len(),
{
    if s.len() == 0 || is_space(s[0]) {
        Seq::empty()
    } else {
        seq![s[0]] + first_token(s.drop_first())
    }
}

pub proof fn lemma_first_token_len(s: Seq<char>)
    ensures
        first_token(s).len() <= s.len(),
        s.len() > 0 && !is_space(s[0]) ==> first_token(s).len() >= 1,
    decreases s.len(),
{
    if s.len() > 0 && !is_space(s[0]) {
        lemma_first_token_len(s.drop_first());
    }
}

/// The whitespace-separated tokens of `s`, in order.
pub open spec fn tokens_of(s: Seq<char>) -> Seq<Seq<char>>
    decreases s.len(),
    via tokens_of_decreases
{
    if s.len() == 0 {
        Seq::empty()
    } else if is_space(s[0]) {
        tokens_of(s.drop_first())
    } else {
        seq![first_token(s)] + tokens_of(s.skip(first_token(s).len() as int))
    }
}

#[via_fn]
proof fn tokens_of_decreases(s: Seq<char>) {
    if s.len() > 0 && !is_space(s[0]) {
        lemma_first_token_len(s);
    }
}

/// `first_token` is exactly the prefix that a left-to-right scan for
/// the first whitespace character finds.
pub proof fn lemma_first_token_is_scan(s: Seq<char>, j: int)
    requires
        0 <= j <= s.len(),
        forall|k: int| 0 <= k < j ==> !is_space(s[k]),
        j == s.len() || is_space(s[j]),
    ensures
        first_token(s) =~= s.take(j),
    decreases j,
{
    if j == 0 {
    } else {
        lemma_first_token_is_scan(s.drop_first(), j - 1);
        assert(s.drop_first().take(j - 1) =~= s.take(j).drop_first());
    }
}

/// Skipping a leading whitespace character leaves the tokens unchanged.
pub proof fn lemma_tokens_skip_space(s: Seq<char>, i: int)
    requires
        0 <= i < s.len(),
        is_space(s[i]),
    ensures
        tokens_of(s.skip(i)) == tokens_of(s.skip(i + 1)),
{
    assert(s.skip(i).drop_first() =~= s.skip(i + 1));
}

/// A token found by scanning from `i` to the first whitespace at `j`
/// is the head of the tokens of the suffix at `i`.
pub proof fn lemma_tokens_step(s: Seq<char>, i: int, j: int)
    requires
        0 <= i < j <= s.len(),
        forall|k: int| i <= k < j ==> !is_space(s[k]),
        j == s.len() || is_space(s[j]),
    ensures
        tokens_of(s.skip(i)) == seq![s.subrange(i, j)] + tokens_of(s.skip(j)),
{
    let suf = s.skip(i);
    assert(forall|k: int| 0 <= k < j - i ==> !is_space(suf[k]));
    lemma_first_token_is_scan(suf, j - i);
    lemma_first_token_len(suf);
    assert(suf.take(j - i) =~= s.subrange(i, j));
    assert(suf.skip(j - i) =~= s.skip(j));
}

/// Splits a line into its whitespace-separated tokens.
pub fn tokenize(line: &str) -> (r: Vec<String>)
    ensures
        r.deep_view() == tokens_of(line@),
{
    let n = line.unicode_len();
    let mut tokens: Vec<String> = Vec::new();
    let mut i: usize = 0;
    proof {
        assert(line@.skip(0) =~= line@);
        assert(tokens.deep_view() =~= Seq::<Seq<char>>::empty());
    }
    while i < n
        invariant
            n == line@.len(),
            0 <= i <= n,
            tokens.deep_view() + tokens_of(line@.skip(i as int)) =~= tokens_of(line@),
        decreases n - i,
    {
        let c = line.get_char(i);
        if c == ' ' || c == '\t' || c == '\r' || c == '\n' || c == '\u{b}' || c == '\u{c}' {
            proof {
                lemma_tokens_skip_space(line@, i as int);
            }
            i = i + 1;
        } else {
            let start = i;
            let mut j = i + 1;
            while j < n
                invariant
                    n == line@.len(),
                    start < j <= n,
                    forall|k: int| start <= k < j ==> !is_space(line@[k]),
                ensures
                    start < j <= n,
                    forall|k: int| start <= k < j ==> !is_space(line@[k]),
                    j == n || is_space(line@[j as int]),
                decreases n - j,
            {
                let c2 = line.get_char(j);
                if c2 == ' ' || c2 == '\t' || c2 == '\r' || c2 == '\n' || c2 == '\u{b}'
                    || c2 == '\u{c}' {
                    break ;
                }
                j = j + 1;
            }
            let word = line.substring_char(start, j).to_owned();
            proof {
                lemma_tokens_step(line@, start as int, j as int);
            }
            let ghost old_tokens = tokens.deep_view();
            tokens.push(word);
            proof {
                assert(tokens.deep_view() =~= old_tokens.push(word@));
                assert(old_tokens.push(word@) =~= old_tokens + seq![line@.subrange(
                    start as int,
                    j as int,
                )]);
            }
            i = j;
        }
    }
    proof {
        assert(tokens_of(line@.skip(n as int)) =~= Seq::<Seq<char>>::empty());
        assert(tokens.deep_view() + Seq::<Seq<char>>::empty() =~= tokens.deep_view());
    }
    tokens
}

/// `s` without its leading whitespace.
pub open spec fn trim_front(s: Seq<char>) -> Seq<char>
    decreases s.len(),
{
    if s.len() > 0 && is_space(s[0]) {
        trim_front(s.drop_first())
    } else {
        s
    }
}

/// `s` without its trailing whitespace.
pub open spec fn trim_back(s: Seq<char>) -> Seq<char>
    decreases s.len(),
{
    if s.len() > 0 && is_space(s.last()) {
        trim_back(s.drop_last())
    } else {
        s
    }
}

/// `s` without surrounding whitespace.
pub open spec fn trim_spec(s: Seq<char>) -> Seq<char> {
    trim_back(trim_front(s))
}

proof fn lemma_trim_front_is_scan(s: Seq<char>, b: int)
    requires
        0 <= b <= s.len(),
        forall|k: int| 0 <= k < b ==> is_space(s[k]),
        b == s.len() || !is_space(s[b]),
    ensures
        trim_front(s) =~= s.skip(b),
    decreases b,
{
    if b == 0 {
        assert(s.skip(0) =~= s);
    } else {
        lemma_trim_front_is_scan(s.drop_first(), b - 1);
        assert(s.drop_first().skip(b - 1) =~= s.skip(b));
    }
}

proof fn lemma_trim_back_is_scan(s: Seq<char>, e: int)
    requires
        0 <= e <= s.len(),
        forall|k: int| e <= k < s.len() ==> is_space(s[k]),
        e == 0 || !is_space(s[e - 1]),
    ensures
        trim_back(s) =~= s.take(e),
    decreases s.len() - e,
{
    if e == s.len() {
        assert(s.take(e) =~= s);
    } else {
        lemma_trim_back_is_scan(s.drop_last(), e);
        assert(s.drop_last().take(e) =~= s.take(e));
    }
}

/// Removes surrounding whitespace, as [`trim_spec`] describes.
pub fn trim(s: &str) -> (r: String)
    ensures
        r@ == trim_spec(s@),
{
    let n = s.unicode_len();
    let mut b: usize = 0;
    while b < n
        invariant
            n == s@.len(),
            0 <= b <= n,
            forall|k: int| 0 <= k < b ==> is_space(s@[k]),
        ensures
            0 <= b <= n,
            forall|k: int| 0 <= k < b ==> is_space(s@[k]),
            b == n || !is_space(s@[b as int]),
        decreases n - b,
    {
        let c = s.get_char(b);
        if !(c == ' ' || c == '\t' || c == '\r' || c == '\n' || c == '\u{b}' || c == '\u{c}') {
            break ;
        }
        b = b + 1;
    }
    proof {
        lemma_trim_front_is_scan(s@, b as int);
    }
    if b == n {
        proof {
            assert(trim_back(s@.skip(b as int)) =~= s@.skip(b as int));
        }
        return String::new();
    }
    let mut e: usize = n;
    while e > b + 1
        invariant
            n == s@.len(),
            0 <= b < e <= n,
            !is_space(s@[b as int]),
            forall|k: int| e <= k < n ==> is_space(s@[k]),
        ensures
            b < e <= n,
            forall|k: int| e <= k < n ==> is_space(s@[k]),
            !is_space(s@[e - 1]),
        decreases e,
    {
        let c = s.get_char(e - 1);
        if !(c == ' ' || c == '\t' || c == '\r' || c == '\n' || c == '\u{b}' || c == '\u{c}') {
            break ;
        }
        e = e - 1;
    }
    proof {
        let suf = s@.skip(b as int);
        lemma_trim_back_is_scan(suf, e - b);
        assert(suf.take(e - b) =~= s@.subrange(b as int, e as int));
    }
    let out = s.substring_char(b, e);
    out.to_owned()
}

/// The parts joined with `sep` between each two of them.
pub open spec fn join_with(parts: Seq<Seq<char>>, sep: Seq<char>) -> Seq<char>
    decreases parts.len(),
{
    if parts.len() == 0 {
        Seq::empty()
    } else if parts.len() == 1 {
        parts[0]
    } else {
        parts[0] + sep + join_with(parts.drop_first(), sep)
    }
}

pub proof fn lemma_join_push(parts: Seq<Seq<char>>, sep: Seq<char>, p: Seq<char>)
    ensures
        parts.len() == 0 ==> join_with(parts.push(p), sep) == p,
        parts.len() > 0 ==> join_with(parts.push(p), sep) == join_with(parts, sep) + sep + p,
    decreases parts.len(),
{
    if parts.len() == 0 {
        assert(join_with(parts.push(p), sep) == parts.push(p)[0]);
        assert(parts.push(p)[0] == p);
    } else if parts.len() == 1 {
        assert(parts.push(p).drop_first() =~= seq![p]);
        assert(join_with(seq![p], sep) == seq![p][0]);
        assert(parts.push(p)[0] == parts[0]);
        assert(join_with(parts.push(p), sep) == parts[0] + sep + p);
    } else {
        lemma_join_push(parts.drop_first(), sep, p);
        assert(parts.push(p).drop_first() =~= parts.drop_first().push(p));
        assert(join_with(parts, sep) + sep + p =~= parts[0] + sep + (join_with(
            parts.drop_first(),
            sep,
        ) + sep + p));
    }
}

/// Joins the parts with `sep`, as [`join_with`] describes.
pub fn join_strings(parts: &Vec<String>, sep: &str) -> (r: String)
    ensures
        r@ == join_with(parts.deep_view(), sep@),
{
    let mut out = String::new();
    let mut i: usize = 0;
    while i < parts.len()
        invariant
            0 <= i <= parts.deep_view().len(),
            parts.deep_view().len() == parts@.len(),
            out@ == join_with(parts.deep_view().take(i as int), sep@),
        decreases parts@.len() - i,
    {
        if i > 0 {
            out.append(sep);
        }
        out.append(parts[i].as_str());
        proof {
            let pre = parts.deep_view().take(i as int);
            lemma_join_push(pre, sep@, parts.deep_view()[i as int]);
            assert(pre.push(parts.deep_view()[i as int]) =~= parts.deep_view().take(i + 1));
        }
        i = i + 1;
    }
    proof {
        assert(parts.deep_view().take(parts.deep_view().len() as int) =~= parts.deep_view());
    }
    out
}

/// Whether a string equals a given literal, usable where only the
/// view equality matters.
pub fn str_eq(a: &String, b: &str) -> (r: bool)
    ensures
        r == (a@ == b@),
{
    a.eq(&String::from_str(b))
}

} // verus!
