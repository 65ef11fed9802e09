//! Character-level text utilities: space-separated token splitting and
//! unsigned decimal parsing with the semantics of `usize::from_str`.

use vstd::prelude::*;

verus! {

/// The tokens of `s` separated by single space characters, exactly as
/// `str::split(' ')` yields them: an empty string gives one empty token, and
/// two adjacent spaces give an empty token between them.
pub open spec fn split_spaces(s: Seq<char>) -> Seq<Seq<char>>
    decreases s.len(),
{
    if s.len() == 0 {
        seq![Seq::<char>::empty()]
    } else {
        let prev = split_spaces(s.drop_last());
        if s.last() == ' ' {
            prev.push(Seq::<char>::empty())
        } else {
            prev.update(prev.len() - 1, prev.last().push(s.last()))
        }
    }
}

pub proof fn lemma_split_spaces_nonempty(s: Seq<char>)
    ensures
        split_spaces(s).len() >= 1,
    decreases s.len(),
{
    if s.len() > 0 {
        lemma_split_spaces_nonempty(s.drop_last());
    }
}

/// Tokens joined with a single space between each two.
pub open spec fn join_spaces(toks: Seq<Seq<char>>) -> Seq<char>
    decreases toks.len(),
{
    if toks.len() == 0 {
        Seq::empty()
    } else if toks.len() == 1 {
        toks[0]
    } else {
        join_spaces(toks.drop_last()) + seq![' '] + toks.last()
    }
}

/// Splitting at spaces loses nothing: joining the tokens with single spaces
/// gives back the string, and no token holds a space.
pub proof fn lemma_split_spaces_join(s: Seq<char>)
    ensures
        join_spaces(split_spaces(s)) == s,
        forall|i: int, j: int|
            0 <= i < split_spaces(s).len() && 0 <= j < split_spaces(s)[i].len() ==> #[trigger] split_spaces(s)[i][j] != ' ',
    decreases s.len(),
{
    if s.len() > 0 {
        let p = s.drop_last();
        let c = s.last();
        lemma_split_spaces_join(p);
        lemma_split_spaces_nonempty(p);
        let t = split_spaces(p);
        if c == ' ' {
            assert(split_spaces(s).drop_last() =~= t);
            assert(join_spaces(split_spaces(s)) =~= s);
        } else {
            let u = split_spaces(s);
            assert(u.drop_last() =~= t.drop_last());
            if t.len() == 1 {
                assert(u.len() == 1);
                assert(join_spaces(t) == t[0]);
                assert(t[0] == p);
                assert(u[0] == p.push(c));
                assert(s =~= p.push(c));
                assert(join_spaces(u) == u[0]);
            } else {
                let front = join_spaces(t.drop_last()) + seq![' '];
                assert(u.len() == t.len());
                assert(u.last() == t.last().push(c));
                assert(join_spaces(u) == front + t.last().push(c));
                assert(p == front + t.last());
                assert(front + t.last().push(c) =~= (front + t.last()).push(c));
                assert(s =~= p.push(c));
            }
            assert forall|i: int, j: int|
                0 <= i < u.len() && 0 <= j < u[i].len() implies #[trigger] u[i][j] != ' ' by {
                if i == u.len() - 1 && j == u[i].len() - 1 {
                    assert(u[i][j] == c);
                } else if i == u.len() - 1 {
                    assert(u[i][j] == t[i][j]);
                } else {
                    assert(u[i] == t[i]);
                }
            }
        }
    }
}

/// An ASCII decimal digit.
pub open spec fn is_digit(c: char) -> bool {
    '0' <= c && c <= '9'
}

pub open spec fn digit_value(c: char) -> int {
    c as int - '0' as int
}

pub open spec fn all_digits(d: Seq<char>) -> bool {
    forall|i: int| 0 <= i < d.len() ==> #[trigger] is_digit(d[i])
}

/// The number that a sequence of decimal digits denotes.
pub open spec fn digits_value(d: Seq<char>) -> int
    decreases d.len(),
{
    if d.len() == 0 {
        0
    } else {
        digits_value(d.drop_last()) * 10 + digit_value(d.last())
    }
}

/// The digits of a token after an optional leading `+`.
pub open spec fn unsigned_digits(t: Seq<char>) -> Seq<char> {
    if t.len() > 0 && t[0] == '+' {
        t.drop_first()
    } else {
        t
    }
}

/// What `usize::from_str` gives for a token: an optional `+`, then at least
/// one ASCII digit and nothing else, denoting a value that fits in `usize`.
pub open spec fn parse_usize(t: Seq<char>) -> Option<usize> {
    let d = unsigned_digits(t);
    if d.len() > 0 && all_digits(d) && digits_value(d) <= usize::MAX {
        Some(digits_value(d) as usize)
    } else {
        None
    }
}

/// All tokens of a space-separated list parsed as `usize`, or `None` when one
/// of them does not parse.
pub open spec fn parse_usize_list(s: Seq<char>) -> Option<Seq<usize>> {
    let toks = split_spaces(s);
    if forall|i: int| 0 <= i < toks.len() ==> (#[trigger] parse_usize(toks[i])) is Some {
        Some(Seq::new(toks.len(), |i: int| parse_usize(toks[i]).unwrap()))
    } else {
        None
    }
}

proof fn lemma_digits_value_nonneg(d: Seq<char>)
    requires
        all_digits(d),
    ensures
        digits_value(d) >= 0,
    decreases d.len(),
{
    if d.len() > 0 {
        assert(all_digits(d.drop_last())) by {
            assert forall|i: int| 0 <= i < d.drop_last().len() implies #[trigger] is_digit(
                d.drop_last()[i],
            ) by {
                assert(is_digit(d[i]));
            }
        }
        lemma_digits_value_nonneg(d.drop_last());
        assert(is_digit(d[d.len() - 1]));
    }
}

/// A longer digit string never denotes a smaller number than its prefix.
proof fn lemma_digits_value_prefix(d: Seq<char>, k: int)
    requires
        all_digits(d),
        0 <= k <= d.len(),
    ensures
        digits_value(d.take(k)) <= digits_value(d),
    decreases d.len() - k,
{
    if k < d.len() {
        lemma_digits_value_prefix(d, k + 1);
        let p = d.take(k + 1);
        assert(p.drop_last() =~= d.take(k));
        assert(all_digits(d.take(k))) by {
            assert forall|i: int| 0 <= i < d.take(k).len() implies #[trigger] is_digit(
                d.take(k)[i],
            ) by {
                assert(is_digit(d[i]));
            }
        }
        lemma_digits_value_nonneg(d.take(k));
        assert(is_digit(d[k]));
    } else {
        assert(d.take(k) =~= d);
    }
}

/// The characters of a string, one element per `char`.
pub fn chars_of(s: &str) -> (r: Vec<char>)
    ensures
        r@ == s@,
{
    let mut r: Vec<char> = Vec::new();
    for c in it: s.chars()
        invariant
            r@ == it.seq().take(it.index() as int),
    {
        r.push(c);
    }
    r
}

/// Whether two character vectors hold the same characters.
pub fn chars_equal(a: &Vec<char>, b: &Vec<char>) -> (r: bool)
    ensures
        r == (a@ == b@),
{
    if a.len() != b.len() {
        return false;
    }
    let mut i: usize = 0;
    while i < a.len()
        invariant
            a@.len() == b@.len(),
            0 <= i <= a@.len(),
            forall|j: int| 0 <= j < i ==> a@[j] == b@[j],
        decreases a@.len() - i,
    {
        if a[i] != b[i] {
            return false;
        }
        i = i + 1;
    }
    assert(a@ =~= b@);
    true
}

/// Split a character sequence at every space, as `str::split(' ')` does.
pub fn split_spaces_exec(s: &Vec<char>) -> (r: Vec<Vec<char>>)
    ensures
        r@.len() == split_spaces(s@).len(),
        forall|i: int| 0 <= i < r@.len() ==> #[trigger] r@[i]@ == split_spaces(s@)[i],
{
    let mut done: Vec<Vec<char>> = Vec::new();
    let mut current: Vec<char> = Vec::new();
    let mut i: usize = 0;
    assert(s@.take(0) =~= Seq::<char>::empty());
    while i < s.len()
        invariant
            0 <= i <= s@.len(),
            done@.len() + 1 == split_spaces(s@.take(i as int)).len(),
            forall|j: int| 0 <= j < done@.len() ==> #[trigger] done@[j]@ == split_spaces(
                s@.take(i as int),
            )[j],
            current@ == split_spaces(s@.take(i as int)).last(),
        decreases s@.len() - i,
    {
        let ghost prev = split_spaces(s@.take(i as int));
        proof {
            lemma_split_spaces_nonempty(s@.take(i as int));
            assert(s@.take(i + 1).drop_last() =~= s@.take(i as int));
        }
        let c = s[i];
        if c == ' ' {
            let finished = current;
            done.push(finished);
            current = Vec::new();
            assert(current@ =~= Seq::<char>::empty());
        } else {
            current.push(c);
        }
        i = i + 1;
    }
    let ghost toks = split_spaces(s@);
    assert(s@.take(s@.len() as int) =~= s@);
    proof {
        lemma_split_spaces_nonempty(s@);
    }
    let last = current;
    done.push(last);
    done
}

/// Parse one token as `usize::from_str` does.
pub fn parse_usize_token(t: &Vec<char>) -> (r: Option<usize>)
    ensures
        r == parse_usize(t@),
{
    let start: usize = if t.len() > 0 && t[0] == '+' {
        1
    } else {
        0
    };
    let ghost d = unsigned_digits(t@);
    assert(d =~= t@.subrange(start as int, t@.len() as int));
    if start >= t.len() {
        return None;
    }
    let mut acc: usize = 0;
    let mut i: usize = start;
    while i < t.len()
        invariant
            start <= i <= t@.len(),
            d == unsigned_digits(t@),
            d =~= t@.subrange(start as int, t@.len() as int),
            acc == digits_value(d.take(i - start)),
            all_digits(d.take(i - start)),
        decreases t@.len() - i,
    {
        let c = t[i];
        let ghost k: int = i - start;
        assert(d[k] == c);
        if !('0' <= c && c <= '9') {
            assert(!all_digits(d)) by {
                assert(!is_digit(d[k]));
            }
            return None;
        }
        let dv: u32 = (c as u32) - ('0' as u32);
        assert(d.take(k + 1).drop_last() =~= d.take(k));
        assert(all_digits(d.take(k + 1))) by {
            assert forall|j: int| 0 <= j < d.take(k + 1).len() implies #[trigger] is_digit(
                d.take(k + 1)[j],
            ) by {
                if j < k {
                    assert(d.take(k + 1)[j] == d.take(k)[j]);
                }
            }
        }
        let next = match acc.checked_mul(10) {
            Some(m) => m.checked_add(dv as usize),
            None => None,
        };
        match next {
            Some(n) => {
                acc = n;
            },
            None => {
                proof {
                    if all_digits(d) {
                        lemma_digits_value_prefix(d, k + 1);
                    }
                }
                return None;
            },
        }
        i = i + 1;
    }
    assert(d.take(d.len() as int) =~= d);
    Some(acc)
}

/// Parse a space-separated list of unsigned integers, as
/// `s.split(' ').map(str::parse::<usize>).collect::<Result<Vec<_>, _>>()`
/// does, giving `None` where that gives an error.
pub fn parse_usize_list_exec(s: &str) -> (r: Option<Vec<usize>>)
    ensures
        match parse_usize_list(s@) {
            Some(v) => r is Some && r.unwrap()@ == v,
            None => r is None,
        },
{
    let cs = chars_of(s);
    let toks = split_spaces_exec(&cs);
    let ghost spec_toks = split_spaces(s@);
    let mut out: Vec<usize> = Vec::new();
    let mut i: usize = 0;
    while i < toks.len()
        invariant
            cs@ == s@,
            spec_toks == split_spaces(s@),
            toks@.len() == spec_toks.len(),
            forall|j: int| 0 <= j < toks@.len() ==> #[trigger] toks@[j]@ == spec_toks[j],
            0 <= i <= toks@.len(),
            out@.len() == i,
            forall|j: int|
                0 <= j < i ==> (#[trigger] parse_usize(spec_toks[j])) == Some(out@[j]),
        decreases toks@.len() - i,
    {
        match parse_usize_token(&toks[i]) {
            Some(n) => {
                out.push(n);
            },
            None => {
                assert(parse_usize(spec_toks[i as int]) is None);
                return None;
            },
        }
        i = i + 1;
    }
    assert(out@ =~= Seq::new(spec_toks.len(), |j: int| parse_usize(spec_toks[j]).unwrap()));
    Some(out)
}

} // verus!
