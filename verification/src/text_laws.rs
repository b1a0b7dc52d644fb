//! What holds of texts, paths, ids and pairs.

use vstd::prelude::*;

use crate::text::{has_prefix, is_whitespace, stands_at};

verus! {

proof fn lemma_trims_start(s: Seq<char>)
    ensures
        exists|n: int|
            #![trigger s.skip(n)]
            0 <= n <= s.len() && crate::text::trim_start(s) == s.skip(n) && forall|j: int|
                0 <= j < n ==> is_whitespace(#[trigger] s[j]),
        crate::text::trim_start(s).len() > 0 ==> !is_whitespace(crate::text::trim_start(s)[0]),
    decreases s.len(),
{
    if s.len() > 0 && is_whitespace(s[0]) {
        let t = s.skip(1);
        lemma_trims_start(t);
        let m = choose|n: int|
            #![trigger t.skip(n)]
            0 <= n <= t.len() && crate::text::trim_start(t) == t.skip(n) && forall|j: int|
                0 <= j < n ==> is_whitespace(#[trigger] t[j]);
        assert(s.skip(m + 1) =~= t.skip(m));
        assert forall|j: int| 0 <= j < m + 1 implies is_whitespace(#[trigger] s[j]) by {
            if j > 0 {
                assert(t[j - 1] == s[j]);
            }
        }
    } else {
        assert(s.skip(0) =~= s);
    }
}

proof fn lemma_trims_end(s: Seq<char>)
    ensures
        exists|n: int|
            #![trigger s.take(n)]
            0 <= n <= s.len() && crate::text::trim_end(s) == s.take(n) && forall|j: int|
                n <= j < s.len() ==> is_whitespace(#[trigger] s[j]),
    decreases s.len(),
{
    if s.len() > 0 && is_whitespace(s.last()) {
        let t = s.drop_last();
        lemma_trims_end(t);
        let n = choose|n: int|
            #![trigger t.take(n)]
            0 <= n <= t.len() && crate::text::trim_end(t) == t.take(n) && forall|j: int|
                n <= j < t.len() ==> is_whitespace(#[trigger] t[j]);
        assert(s.take(n) =~= t.take(n));
        assert forall|j: int| n <= j < s.len() implies is_whitespace(#[trigger] s[j]) by {
            if j < s.len() - 1 {
                assert(t[j] == s[j]);
            }
        }
    } else {
        assert(s.take(s.len() as int) =~= s);
    }
}

/// Trimming takes away whitespace at both ends and nothing else.
pub proof fn law_only_whitespace_is_trimmed(s: &str, r: &str)
    requires
        call_ensures(crate::text::trim, (s,), r),
    ensures
        exists|a: int, b: int| #[trigger]
            s@.subrange(a, b) == r@ && 0 <= a <= b <= s@.len() && (forall|j: int|
                (0 <= j < a || b <= j < s@.len()) ==> is_whitespace(#[trigger] s@[j])),
        r@.len() > 0 ==> !is_whitespace(r@[0]) && !is_whitespace(r@.last()),
{
    let t = crate::text::trim_start(s@);
    lemma_trims_start(s@);
    lemma_trims_end(t);
    let a = choose|n: int|
        #![trigger s@.skip(n)]
        0 <= n <= s@.len() && t == s@.skip(n) && forall|j: int|
            0 <= j < n ==> is_whitespace(#[trigger] s@[j]);
    let n = choose|n: int|
        #![trigger t.take(n)]
        0 <= n <= t.len() && crate::text::trim_end(t) == t.take(n) && forall|j: int|
            n <= j < t.len() ==> is_whitespace(#[trigger] t[j]);
    assert(s@.subrange(a, a + n) =~= r@);
    assert forall|j: int| (0 <= j < a || a + n <= j < s@.len()) implies is_whitespace(
        #[trigger] s@[j],
    ) by {
        if j >= a {
            assert(t[j - a] == s@[j]);
        }
    }
    crate::text::law_trim_is_idempotent(s@);
}

/// Blanks, tabs and line ends are whitespace; letters, digits and signs are not.
pub proof fn law_whitespace_is_told(c: char, r: bool)
    requires
        call_ensures(crate::text::is_whitespace_char, (c,), r),
    ensures
        c == ' ' || c == '\t' || c == '\n' || c == '\r' || c == '\u{b}' || c == '\u{c}' ==> r,
        c == '\u{85}' || c == '\u{a0}' || c == '\u{1680}' || c == '\u{2028}' || c == '\u{2029}' || c
            == '\u{202f}' || c == '\u{205f}' || c == '\u{3000}' ==> r,
        '\u{2000}' <= c <= '\u{200a}' ==> r,
        '!' <= c <= '~' ==> !r,
        (c as u32) < 9 || (c as u32) > 0x3000 ==> !r,
{
}

/// The codes below the blank and from delete up to the second set are controls.
pub proof fn law_controls_are_told(c: char, r: bool)
    requires
        call_ensures(crate::text::is_control_char, (c,), r),
    ensures
        (c as u32) < 32 ==> r,
        ' ' <= c <= '~' ==> !r,
        127 <= c as u32 <= 159 ==> r,
        c as u32 >= 160 ==> !r,
{
}

/// Lowercase keeps every place: a capital becomes its small letter and anything
/// else stays.
pub proof fn law_lowercase_keeps_places(s: &str, r: String, i: int)
    requires
        call_ensures(crate::text::to_lower, (s,), r),
        0 <= i < s@.len(),
    ensures
        r@.len() == s@.len(),
        !('A' <= s@[i] <= 'Z') ==> r@[i] == s@[i],
        'A' <= s@[i] <= 'Z' ==> r@[i] as int - 'a' as int == s@[i] as int - 'A' as int && 'a'
            <= r@[i] <= 'z',
{
    let c = s@[i];
    if 'A' <= c <= 'Z' {
        assert(r@[i] == ((c as u32) + 32) as char);
    }
}

/// A text is split at its first separator, and joined again it is the text.
pub proof fn law_a_split_joins_again(s: &str, sep: char, r: Option<(&str, &str)>)
    requires
        call_ensures(crate::text::str_split_once, (s, sep), r),
    ensures
        r is Some == s@.contains(sep),
        r is Some ==> (r->0).0@ + seq![sep] + (r->0).1@ == s@ && !(r->0).0@.contains(sep),
{
    crate::text::lemma_find_from(s@, sep, 0);
    let at = crate::text::find_from(s@, sep, 0);
    if at < s@.len() {
        assert(s@[at] == sep);
        assert(s@.take(at) + seq![sep] + s@.skip(at + 1) =~= s@);
    }
}

/// A prefix and what follows it make the text.
pub proof fn law_a_prefix_comes_off(s: &str, prefix: &str, begins: bool, r: Option<&str>)
    requires
        call_ensures(crate::text::starts_with, (s, prefix), begins),
        call_ensures(crate::text::strip_prefix, (s, prefix), r),
    ensures
        r is Some == begins,
        r is Some ==> prefix@ + r->0@ == s@,
        begins == exists|rest: Seq<char>| s@ == #[trigger] (prefix@ + rest),
{
    if has_prefix(s@, prefix@) {
        assert(prefix@ + s@.skip(prefix@.len() as int) =~= s@);
    }
    if exists|rest: Seq<char>| s@ == #[trigger] (prefix@ + rest) {
        let rest = choose|rest: Seq<char>| s@ == #[trigger] (prefix@ + rest);
        assert((prefix@ + rest).take(prefix@.len() as int) =~= prefix@);
    }
}

proof fn lemma_after_last(s: Seq<char>, c: char, to: int)
    requires
        0 <= to <= s.len(),
    ensures
        0 <= crate::text::after_last(s, c, to) <= to,
        crate::text::after_last(s, c, to) > 0 ==> s[crate::text::after_last(s, c, to) - 1] == c,
        forall|j: int| crate::text::after_last(s, c, to) <= j < to ==> s[j] != c,
    decreases to,
{
    if to > 0 && s[to - 1] != c {
        lemma_after_last(s, c, to - 1);
    }
}

/// What stands before the first mark, and after the last, holds no mark and reaches
/// up to one, or is the whole text.
pub proof fn law_texts_are_cut_at_marks(s: &str, c: char, before: &str, after: &str, at: usize)
    requires
        call_ensures(crate::text::before_first_char, (s, c), before),
        call_ensures(crate::text::after_last_char, (s, c), after),
        call_ensures(crate::text::find_char, (s, c), at),
    ensures
        !before@.contains(c) && !after@.contains(c),
        before@.len() == at,
        has_prefix(s@, before@),
        before@ == s@ || s@[before@.len() as int] == c,
        after@.len() <= s@.len() && s@.skip(s@.len() - after@.len()) == after@,
        after@ == s@ || s@[s@.len() - after@.len() - 1] == c,
{
    crate::text::lemma_find_from(s@, c, 0);
    lemma_after_last(s@, c, s@.len() as int);
    let p = crate::text::after_last(s@, c, s@.len() as int);
    assert(s@.skip(0) =~= s@);
    assert(s@.take(s@.len() as int) =~= s@);
    if after@.contains(c) {
        let k = choose|k: int| 0 <= k < after@.len() && after@[k] == c;
        assert(s@[p + k] == c);
    }
    assert(s@.skip(s@.len() - after@.len()) =~= after@);
}

/// A text is found where it stands between two others.
pub proof fn law_a_part_is_found(s: &str, part: &str, r: bool, a: Seq<char>, b: Seq<char>)
    requires
        call_ensures(crate::text::contains, (s, part), r),
    ensures
        s@ == a + part@ + b ==> r,
        part@.len() > s@.len() ==> !r,
        r ==> exists|x: Seq<char>, y: Seq<char>| s@ == #[trigger] (x + part@ + y),
{
    if s@ == a + part@ + b {
        assert(s@.subrange(a.len() as int, (a.len() + part@.len()) as int) =~= part@);
        assert(stands_at(s@, part@, a.len() as int));
    }
    if r {
        let at = choose|at: int| stands_at(s@, part@, at);
        let x = s@.take(at);
        let y = s@.skip(at + part@.len());
        assert(s@ =~= x + part@ + y);
    }
}

/// The number that digits write.
pub open spec fn written_number(s: Seq<char>) -> int
    decreases s.len(),
{
    if s.len() == 0 {
        0
    } else {
        10 * written_number(s.drop_last()) + (s.last() as int - '0' as int)
    }
}

proof fn lemma_written(n: nat)
    ensures
        written_number(crate::text::decimal(n)) == n,
        crate::text::decimal(n).len() > 0,
        n > 0 ==> crate::text::decimal(n)[0] != '0',
        n == 0 ==> crate::text::decimal(n) == seq!['0'],
    decreases n,
{
    let s = crate::text::decimal(n);
    if n < 10 {
        assert(s.last() as int == '0' as int + n);
        assert(s.drop_last().len() == 0);
        assert(written_number(s.drop_last()) == 0);
    } else {
        lemma_written(n / 10);
        assert(s.drop_last() =~= crate::text::decimal(n / 10));
        assert(s.last() as int == '0' as int + n % 10);
        assert(s[0] == crate::text::decimal(n / 10)[0]);
    }
}

/// A number is written by its digits, without a zero in front.
pub proof fn law_numbers_are_written_in_digits(n: u64, r: String, m: i32, signed: String)
    requires
        call_ensures(crate::text::to_decimal, (n,), r),
        call_ensures(crate::text::to_signed_decimal, (m,), signed),
    ensures
        written_number(r@) == n,
        n > 0 ==> r@[0] != '0',
        r@.len() > 0,
        m >= 0 ==> written_number(signed@) == m,
        m < 0 ==> signed@.len() > 1 && signed@[0] == '-' && written_number(signed@.skip(1)) == -m,
{
    lemma_written(n as nat);
    if m < 0 {
        lemma_written((-m) as nat);
        assert(signed@.skip(1) =~= crate::text::decimal((-m) as nat));
    } else {
        lemma_written(m as nat);
    }
}

/// Texts in a row stand in their order.
pub proof fn law_texts_are_joined_in_order(
    a: &str,
    b: &str,
    c: &str,
    d: &str,
    e: &str,
    two: String,
    three: String,
    four: String,
    five: String,
    less: String,
)
    requires
        call_ensures(crate::text::cat2, (a, b), two),
        call_ensures(crate::text::cat3, (a, b, c), three),
        call_ensures(crate::text::cat4, (a, b, c, d), four),
        call_ensures(crate::text::cat5, (a, b, c, d, e), five),
        call_ensures(crate::text::drop_last_char, (a,), less),
    ensures
        two@ == a@ + b@,
        three@ == two@ + c@,
        four@ == three@ + d@,
        five@ == four@ + e@,
        a@.len() > 0 ==> less@.push(a@.last()) == a@,
        a@.len() == 0 ==> less@.len() == 0,
{
    if a@.len() > 0 {
        assert(a@.drop_last().push(a@.last()) =~= a@);
    }
}

proof fn lemma_precedes_at(a: Seq<char>, b: Seq<char>, i: int)
    requires
        0 <= i <= a.len(),
        i < b.len(),
        forall|j: int| 0 <= j < i ==> a[j] == b[j],
        i < a.len() ==> a[i] != b[i],
    ensures
        crate::text::precedes(a, b) == (i == a.len() || a[i] < b[i]),
    decreases i,
{
    if i > 0 {
        assert(a[0] == b[0]);
        assert forall|j: int| 0 <= j < i - 1 implies a.skip(1)[j] == b.skip(1)[j] by {
            assert(a[j + 1] == b[j + 1]);
        }
        lemma_precedes_at(a.skip(1), b.skip(1), i - 1);
    }
}

/// Texts are ordered by the first place at which they differ; a text comes before
/// those it begins.
pub proof fn law_texts_are_ordered_by_their_first_difference(a: &str, b: &str, r: bool, i: int)
    requires
        call_ensures(crate::text::str_precedes, (a, b), r),
        0 <= i <= a@.len(),
        i < b@.len(),
        forall|j: int| 0 <= j < i ==> a@[j] == b@[j],
    ensures
        i == a@.len() ==> r,
        i < a@.len() && a@[i] < b@[i] ==> r,
        i < a@.len() && a@[i] > b@[i] ==> !r,
{
    if i == a@.len() || a@[i] != b@[i] {
        lemma_precedes_at(a@, b@, i);
    }
}

} // verus!
