//! Text utilities: Unicode whitespace, trimming, and decimal numerals.

use vstd::prelude::*;
use vstd::string::StringExecFns;

verus! {

/// The characters with the Unicode `White_Space` property.
pub open spec fn white_space(c: char) -> bool {
    ||| '\u{9}' <= c <= '\u{D}'
    ||| c == ' '
    ||| c == '\u{85}'
    ||| c == '\u{A0}'
    ||| c == '\u{1680}'
    ||| '\u{2000}' <= c <= '\u{200A}'
    ||| c == '\u{2028}'
    ||| c == '\u{2029}'
    ||| c == '\u{202F}'
    ||| c == '\u{205F}'
    ||| c == '\u{3000}'
}

/// Decides whether `c` has the Unicode `White_Space` property.
pub fn is_white_space(c: char) -> (b: bool)
    ensures
        b == white_space(c),
{
    ('\u{9}' <= c && c <= '\u{D}') || c == ' ' || c == '\u{85}' || c == '\u{A0}' || c == '\u{1680}'
        || ('\u{2000}' <= c && c <= '\u{200A}') || c == '\u{2028}' || c == '\u{2029}' || c
        == '\u{202F}' || c == '\u{205F}' || c == '\u{3000}'
}

/// `s` without its leading whitespace.
pub open spec fn trim_start(s: Seq<char>) -> Seq<char>
    decreases s.len(),
{
    if s.len() > 0 && white_space(s.first()) {
        trim_start(s.drop_first())
    } else {
        s
    }
}

/// `s` without its trailing whitespace.
pub open spec fn trim_end(s: Seq<char>) -> Seq<char>
    decreases s.len(),
{
    if s.len() > 0 && white_space(s.last()) {
        trim_end(s.drop_last())
    } else {
        s
    }
}

/// `s` without its leading and trailing whitespace.
pub open spec fn trimmed(s: Seq<char>) -> Seq<char> {
    trim_end(trim_start(s))
}

/// Every character of `s` is whitespace.
pub open spec fn blank(s: Seq<char>) -> bool {
    forall|i: int| 0 <= i < s.len() ==> white_space(#[trigger] s[i])
}

/// `trim_start` drops exactly the whitespace before the first other character.
pub proof fn lemma_trim_start(s: Seq<char>, a: int)
    requires
        0 <= a <= s.len(),
        blank(s.subrange(0, a)),
        a < s.len() ==> !white_space(s[a]),
    ensures
        trim_start(s) == s.subrange(a, s.len() as int),
    decreases a,
{
    if a == 0 {
        assert(s.subrange(0, s.len() as int) =~= s);
    } else {
        assert(s.subrange(0, a)[0] == s[0]);
        let rest = s.drop_first();
        assert forall|i: int| 0 <= i < a - 1 implies white_space(
            #[trigger] rest.subrange(0, a - 1)[i],
        ) by {
            assert(s.subrange(0, a)[i + 1] == rest.subrange(0, a - 1)[i]);
        }
        lemma_trim_start(rest, a - 1);
        assert(rest.subrange(a - 1, rest.len() as int) =~= s.subrange(a, s.len() as int));
    }
}

/// `trim_end` drops exactly the whitespace after the last other character.
pub proof fn lemma_trim_end(s: Seq<char>, b: int)
    requires
        0 <= b <= s.len(),
        blank(s.subrange(b, s.len() as int)),
        0 < b ==> !white_space(s[b - 1]),
    ensures
        trim_end(s) == s.subrange(0, b),
    decreases s.len() - b,
{
    if b == s.len() {
        assert(s.subrange(0, b) =~= s);
    } else {
        let n = s.len() as int;
        assert(s.subrange(b, n)[n - 1 - b] == s.last());
        let rest = s.drop_last();
        assert forall|i: int| 0 <= i < n - 1 - b implies white_space(
            #[trigger] rest.subrange(b, n - 1)[i],
        ) by {
            assert(s.subrange(b, n)[i] == rest.subrange(b, n - 1)[i]);
        }
        lemma_trim_end(rest, b);
        assert(rest.subrange(0, b) =~= s.subrange(0, b));
    }
}

/// Trimming keeps the stretch from the first to the last character that is
/// not whitespace.
pub proof fn lemma_trimmed_is_core(s: Seq<char>, a: int, b: int)
    requires
        0 <= a < b <= s.len(),
        blank(s.subrange(0, a)),
        blank(s.subrange(b, s.len() as int)),
        !white_space(s[a]),
        !white_space(s[b - 1]),
    ensures
        trimmed(s) == s.subrange(a, b),
{
    let n = s.len() as int;
    lemma_trim_start(s, a);
    let t = s.subrange(a, n);
    assert(t.subrange(b - a, t.len() as int) =~= s.subrange(b, n));
    lemma_trim_end(t, b - a);
    assert(t.subrange(0, b - a) =~= s.subrange(a, b));
}

/// Trimming a text of whitespace alone leaves nothing.
pub proof fn lemma_trimmed_blank(s: Seq<char>)
    requires
        blank(s),
    ensures
        trimmed(s) == Seq::<char>::empty(),
{
    let n = s.len() as int;
    assert(s.subrange(0, n) =~= s);
    lemma_trim_start(s, n);
    assert(s.subrange(n, n) =~= Seq::<char>::empty());
}

/// If trimming leaves nothing, there was nothing but whitespace.
pub proof fn lemma_trimmed_empty(s: Seq<char>)
    requires
        trimmed(s).len() == 0,
    ensures
        blank(s),
{
    lemma_trim_end_empty(trim_start(s));
    lemma_trim_start_blank(s);
}

proof fn lemma_trim_end_empty(s: Seq<char>)
    requires
        trim_end(s).len() == 0,
    ensures
        blank(s),
    decreases s.len(),
{
    if s.len() > 0 {
        lemma_trim_end_empty(s.drop_last());
        assert forall|i: int| 0 <= i < s.len() implies white_space(#[trigger] s[i]) by {
            if i < s.len() - 1 {
                assert(s[i] == s.drop_last()[i]);
            }
        }
    }
}

proof fn lemma_trim_start_blank(s: Seq<char>)
    requires
        blank(trim_start(s)),
    ensures
        blank(s),
    decreases s.len(),
{
    if s.len() > 0 && white_space(s.first()) {
        lemma_trim_start_blank(s.drop_first());
        assert forall|i: int| 0 <= i < s.len() implies white_space(#[trigger] s[i]) by {
            if i > 0 {
                assert(s[i] == s.drop_first()[i - 1]);
            }
        }
    }
}

/// Returns `s` without its leading and trailing whitespace.
pub fn trim(s: &str) -> (t: &str)
    ensures
        t@ == trimmed(s@),
{
    let len = s.unicode_len();
    let mut start: usize = 0;
    let mut end: usize = 0;
    let mut idx: usize = 0;
    for c in it: s.chars()
        invariant
            it.seq() == s@,
            len == s@.len(),
            idx == it.index(),
            start <= end <= idx,
            forall|i: int| 0 <= i < idx && !(start <= i < end) ==> white_space(#[trigger] s@[i]),
            end > 0 ==> !white_space(s@[start as int]) && !white_space(s@[end - 1]),
    {
        if !is_white_space(c) {
            if end == 0 {
                start = idx;
            }
            end = idx + 1;
        }
        idx = idx + 1;
    }
    proof {
        if end == 0 {
            lemma_trimmed_blank(s@);
        } else {
            lemma_trimmed_is_core(s@, start as int, end as int);
        }
    }
    s.substring_char(start, end)
}

/// The character for the decimal digit `d`.
pub open spec fn digit(d: nat) -> char
    recommends
        d < 10,
{
    ('0' as nat + d) as char
}

/// The decimal numeral of `n`, without sign or leading zeros.
pub open spec fn decimal(n: nat) -> Seq<char>
    decreases n,
{
    if n < 10 {
        seq![digit(n)]
    } else {
        decimal(n / 10).push(digit(n % 10))
    }
}

/// The one-character text of the decimal digit `d`.
fn digit_text(d: u8) -> (t: &'static str)
    requires
        d < 10,
    ensures
        t@ == seq![digit(d as nat)],
{
    let t = match d {
        0 => "0",
        1 => "1",
        2 => "2",
        3 => "3",
        4 => "4",
        5 => "5",
        6 => "6",
        7 => "7",
        8 => "8",
        _ => "9",
    };
    proof {
        reveal_strlit("0");
        reveal_strlit("1");
        reveal_strlit("2");
        reveal_strlit("3");
        reveal_strlit("4");
        reveal_strlit("5");
        reveal_strlit("6");
        reveal_strlit("7");
        reveal_strlit("8");
        reveal_strlit("9");
        assert(t@ =~= seq![digit(d as nat)]);
    }
    t
}

/// Appends the decimal numeral of `n` to `out`.
pub fn push_decimal(out: &mut String, n: u64)
    ensures
        final(out)@ == old(out)@ + decimal(n as nat),
    decreases n,
{
    if n >= 10 {
        push_decimal(out, n / 10);
    }
    out.append(digit_text((n % 10) as u8));
    proof {
        if n >= 10 {
            assert(old(out)@ + decimal((n / 10) as nat) + seq![digit((n % 10) as nat)] =~= old(
                out,
            )@ + decimal(n as nat));
        }
    }
}

} // verus!
