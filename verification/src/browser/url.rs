//! Checks and normalizes URLs before they reach the `agent-browser` program.
//!
//! Every navigation ends up as a positional argument of a program, so a value
//! starting with `-` would be read as a flag rather than a URL. That is the one
//! input here that is a correctness problem rather than a taste problem, and it is
//! rejected outright.

use vstd::prelude::*;

use crate::text::{
    cat2, cat3, chars_of, find_char, is_whitespace_char, starts_with, to_lower, trim,
};

verus! {

/// The value begins with a scheme a browser pane navigates to.
pub open spec fn allowed(lowered: Seq<char>) -> bool {
    ||| crate::text::has_prefix(lowered, "http://"@)
    ||| crate::text::has_prefix(lowered, "https://"@)
    ||| crate::text::has_prefix(lowered, "file://"@)
    ||| crate::text::has_prefix(lowered, "about:"@)
}

/// An ASCII letter.
pub open spec fn is_letter(c: char) -> bool {
    'a' <= c <= 'z' || 'A' <= c <= 'Z'
}

/// An ASCII digit.
pub open spec fn is_digit(c: char) -> bool {
    '0' <= c <= '9'
}

/// A character a scheme may hold.
pub open spec fn is_scheme_char(c: char) -> bool {
    is_letter(c) || is_digit(c) || c == '+' || c == '-' || c == '.'
}

/// The value carries a scheme: a letter and more scheme characters before the
/// first colon, and no digit behind it — `localhost:3000` is a host and a port.
pub open spec fn scheme_shape(s: Seq<char>) -> bool {
    let colon = crate::text::find_from(s, ':', 0);
    &&& 0 < colon < s.len()
    &&& is_letter(s[0])
    &&& forall|j: int| 0 <= j < colon ==> is_scheme_char(#[trigger] s[j])
    &&& !(colon + 1 < s.len() && is_digit(s[colon + 1]))
}

/// The value holds whitespace.
pub open spec fn has_whitespace(s: Seq<char>) -> bool {
    exists|j: int| 0 <= j < s.len() && crate::text::is_whitespace(#[trigger] s[j])
}

/// The URL to navigate to, or why it is refused.
pub open spec fn normalized(url: Seq<char>) -> Result<Seq<char>, Seq<char>> {
    let bare = crate::text::trimmed(url);
    if bare.len() == 0 {
        Err("url is empty"@)
    } else if bare[0] == '-' {
        Err("url must not start with '-': "@ + bare)
    } else if has_whitespace(bare) {
        Err("url must not contain whitespace: "@ + bare)
    } else if allowed(crate::text::lowered(bare)) {
        Ok(bare)
    } else if scheme_shape(crate::text::lowered(bare)) {
        Err(
            "unsupported url scheme: "@ + bare
                + " (allowed: http://, https://, file://, about:)"@,
        )
    } else {
        Ok("https://"@ + bare)
    }
}

fn is_allowed(lowered: &str) -> (r: bool)
    ensures
        r == allowed(lowered@),
{
    starts_with(lowered, "http://") || starts_with(lowered, "https://") || starts_with(
        lowered,
        "file://",
    ) || starts_with(lowered, "about:")
}

fn letter(c: char) -> (r: bool)
    ensures
        r == is_letter(c),
{
    ('a' <= c && c <= 'z') || ('A' <= c && c <= 'Z')
}

fn digit(c: char) -> (r: bool)
    ensures
        r == is_digit(c),
{
    '0' <= c && c <= '9'
}

/// Whether the value already carries a `scheme:` prefix, as opposed to being a
/// bare host or path.
pub fn has_scheme(lowered: &str) -> (r: bool)
    ensures
        r == scheme_shape(lowered@),
{
    let chars = chars_of(lowered);
    let colon = find_char(lowered, ':');
    proof {
        crate::text::lemma_find_from(lowered@, ':', 0);
    }
    if colon >= chars.len() || colon == 0 || !letter(chars[0]) {
        return false;
    }
    let mut i: usize = 0;
    while i < colon
        invariant
            i <= colon < chars.len(),
            chars@ == lowered@,
            colon == crate::text::find_from(lowered@, ':', 0),
            forall|j: int| 0 <= j < i ==> is_scheme_char(#[trigger] lowered@[j]),
        decreases colon - i,
    {
        let c = chars[i];
        if !(letter(c) || digit(c) || c == '+' || c == '-' || c == '.') {
            assert(!is_scheme_char(lowered@[i as int]));
            return false;
        }
        i += 1;
    }
    !(colon + 1 < chars.len() && digit(chars[colon + 1]))
}

fn contains_whitespace(s: &str) -> (r: bool)
    ensures
        r == has_whitespace(s@),
{
    let chars = chars_of(s);
    let mut i: usize = 0;
    while i < chars.len()
        invariant
            i <= chars.len(),
            chars@ == s@,
            forall|j: int| 0 <= j < i ==> !crate::text::is_whitespace(#[trigger] s@[j]),
        decreases chars.len() - i,
    {
        if is_whitespace_char(chars[i]) {
            assert(crate::text::is_whitespace(s@[i as int]));
            return true;
        }
        i += 1;
    }
    false
}

/// Returns the URL to navigate to, or a reason it was refused.
///
/// A bare host (`example.com`) gets `https://`, matching what every address bar
/// does; anything with a scheme must have an allowed one. Others — script, data
/// and application schemes — are refused: a pane is driven by whoever can reach
/// the socket API, and the allowed schemes are those where that is just browsing.
pub fn normalize(url: &str) -> (r: Result<String, String>)
    ensures
        match r {
            Ok(text) => normalized(url@) == Ok::<Seq<char>, Seq<char>>(text@),
            Err(reason) => normalized(url@) == Err::<Seq<char>, Seq<char>>(reason@),
        },
{
    let bare = trim(url);
    if bare.is_empty() {
        return Err("url is empty".to_owned());
    }
    if bare.get_char(0) == '-' {
        return Err(cat2("url must not start with '-': ", bare));
    }
    if contains_whitespace(bare) {
        return Err(cat2("url must not contain whitespace: ", bare));
    }
    let lowered = to_lower(bare);
    if is_allowed(lowered.as_str()) {
        return Ok(bare.to_owned());
    }
    if has_scheme(lowered.as_str()) {
        return Err(
            cat3(
                "unsupported url scheme: ",
                bare,
                " (allowed: http://, https://, file://, about:)",
            ),
        );
    }
    Ok(cat2("https://", bare))
}

/// What comes out of normalizing is safe to hand on: it is not empty, holds no
/// whitespace, is not shaped like a flag, has an allowed scheme, and normalizing
/// it again changes nothing.
pub proof fn law_normalized_urls_are_final(url: Seq<char>)
    requires
        normalized(url) is Ok,
    ensures
        ({
            let out = normalized(url)->Ok_0;
            &&& out.len() > 0
            &&& out[0] != '-'
            &&& !has_whitespace(out)
            &&& allowed(crate::text::lowered(out))
            &&& normalized(out) == Ok::<Seq<char>, Seq<char>>(out)
        }),
{
    let bare = crate::text::trimmed(url);
    let out = normalized(url)->Ok_0;
    let low = crate::text::lowered(out);
    reveal_strlit("https://");
    if !allowed(crate::text::lowered(bare)) {
        assert(out == "https://"@ + bare);
        assert forall|j: int| 0 <= j < out.len() implies !crate::text::is_whitespace(
            #[trigger] out[j],
        ) by {
            if j < 8 {
                assert(out[j] == "https://"@[j]);
            } else {
                assert(out[j] == bare[j - 8]);
            }
        }
        assert(low.take(8) =~= "https://"@);
        assert(crate::text::has_prefix(low, "https://"@));
    }
    assert(!crate::text::is_whitespace(out[0]) && !crate::text::is_whitespace(out.last()));
    crate::text::lemma_trim_fixed(out);
}

} // verus!
