//! The numbers in public ids.
//!
//! Workspaces, tabs and panes are numbered from 1. A number is written in
//! bijective base 32: digits without zero, then capital letters without those
//! that read like a digit. The tenth pane of `w1` is `w1:pA`.

use vstd::prelude::*;
use vstd::string::*;

use crate::text::{chars_of, strip_prefix};

verus! {

/// What a symbol counts, from 1 to 32; `None` for a character that is none.
pub open spec fn symbol_value(c: char) -> Option<nat> {
    if '1' <= c <= '9' {
        Some((c as nat - '0' as nat) as nat)
    } else if 'A' <= c <= 'H' {
        Some((c as nat - 'A' as nat + 10) as nat)
    } else if 'J' <= c <= 'K' {
        Some((c as nat - 'J' as nat + 18) as nat)
    } else if 'M' <= c <= 'N' {
        Some((c as nat - 'M' as nat + 20) as nat)
    } else if 'P' <= c <= 'Z' {
        Some((c as nat - 'P' as nat + 22) as nat)
    } else {
        None
    }
}

/// The symbol that counts `v`.
pub open spec fn symbol(v: nat) -> char {
    if v <= 9 {
        ('0' as nat + v) as char
    } else if v <= 17 {
        (('A' as nat + v) - 10) as char
    } else if v <= 19 {
        (('J' as nat + v) - 18) as char
    } else if v <= 21 {
        (('M' as nat + v) - 20) as char
    } else {
        (('P' as nat + v) - 22) as char
    }
}

/// Every character is a symbol.
pub open spec fn is_numeral(s: Seq<char>) -> bool {
    forall|i: int| 0 <= i < s.len() ==> symbol_value(#[trigger] s[i]) is Some
}

/// The number a numeral stands for; 0 for the empty one.
pub open spec fn number_of(s: Seq<char>) -> nat
    decreases s.len(),
{
    if s.len() == 0 {
        0
    } else {
        number_of(s.drop_last()) * 32 + symbol_value(s.last())->0
    }
}

/// The numeral for a number; empty for 0.
pub open spec fn numeral(n: nat) -> Seq<char>
    decreases n,
{
    if n == 0 {
        Seq::empty()
    } else {
        numeral(((n - 1) / 32) as nat).push(symbol(((n - 1) % 32 + 1) as nat))
    }
}

/// The number that text decodes to.
pub open spec fn decoded(s: Seq<char>) -> Option<nat> {
    if is_numeral(s) && number_of(s) <= usize::MAX {
        Some(number_of(s))
    } else {
        None
    }
}

/// The public id of pane `n` of a workspace.
pub open spec fn pane_id(workspace: Seq<char>, n: nat) -> Seq<char> {
    workspace + ":p"@ + numeral(n)
}

/// The workspace that a pane id names; `None` for a target that is not a pane
/// id.
pub open spec fn workspace_of_pane(target: Seq<char>) -> Option<Seq<char>> {
    match crate::text::split_once(target, ':') {
        Some((workspace, pane)) => if workspace.len() > 0 && pane.len() > 1 && pane[0] == 'p'
            && decoded(pane.skip(1)) is Some {
            Some(workspace)
        } else {
            None
        },
        None => None,
    }
}

fn value_of(c: char) -> (r: Option<usize>)
    ensures
        match r {
            Some(v) => symbol_value(c) == Some(v as nat) && 1 <= v <= 32,
            None => symbol_value(c) is None,
        },
{
    if '1' <= c && c <= '9' {
        Some((c as u32 - 48) as usize)
    } else if 'A' <= c && c <= 'H' {
        Some((c as u32 - 65 + 10) as usize)
    } else if 'J' <= c && c <= 'K' {
        Some((c as u32 - 74 + 18) as usize)
    } else if 'M' <= c && c <= 'N' {
        Some((c as u32 - 77 + 20) as usize)
    } else if 'P' <= c && c <= 'Z' {
        Some((c as u32 - 80 + 22) as usize)
    } else {
        None
    }
}

fn symbol_of(v: usize) -> (r: char)
    requires
        1 <= v <= 32,
    ensures
        r == symbol(v as nat),
{
    let v = v as u8;
    if v <= 9 {
        (48 + v) as char
    } else if v <= 17 {
        (65 + (v - 10)) as char
    } else if v <= 19 {
        (74 + (v - 18)) as char
    } else if v <= 21 {
        (77 + (v - 20)) as char
    } else {
        (80 + (v - 22)) as char
    }
}

proof fn lemma_number_grows(s: Seq<char>, i: int)
    requires
        0 <= i <= s.len(),
    ensures
        number_of(s.take(i)) <= number_of(s),
    decreases s.len() - i,
{
    if i < s.len() {
        lemma_number_grows(s, i + 1);
        assert(s.take(i + 1).drop_last() =~= s.take(i));
    } else {
        assert(s.take(i) =~= s);
    }
}

/// The number that `text` stands for, if every character is a symbol and the
/// number can be held. Empty text stands for 0.
pub fn decode_public_number(text: &str) -> (r: Option<usize>)
    ensures
        match r {
            Some(n) => decoded(text@) == Some(n as nat),
            None => decoded(text@) is None,
        },
{
    let chars = chars_of(text);
    let mut number: usize = 0;
    let mut i: usize = 0;
    assert(text@.take(0) =~= Seq::empty());
    while i < chars.len()
        invariant
            chars@ == text@,
            i <= chars.len(),
            forall|j: int| 0 <= j < i ==> symbol_value(#[trigger] text@[j]) is Some,
            number == number_of(text@.take(i as int)),
        decreases chars.len() - i,
    {
        assert(text@.take(i as int + 1).drop_last() =~= text@.take(i as int));
        proof {
            lemma_number_grows(text@, i as int + 1);
        }
        let value = match value_of(chars[i]) {
            Some(value) => value,
            None => {
                assert(symbol_value(text@[i as int]) is None);
                return None;
            },
        };
        let shifted = match number.checked_mul(32) {
            Some(shifted) => shifted,
            None => {
                return None;
            },
        };
        number = match shifted.checked_add(value) {
            Some(number) => number,
            None => {
                return None;
            },
        };
        i += 1;
    }
    assert(text@.take(i as int) =~= text@);
    Some(number)
}

/// The numeral for `n`.
pub fn encode_public_number(n: usize) -> (r: String)
    ensures
        r@ == numeral(n as nat),
    decreases n,
{
    if n == 0 {
        String::new()
    } else {
        let mut out = encode_public_number((n - 1) / 32);
        out.push(symbol_of((n - 1) % 32 + 1));
        out
    }
}

/// The public id of pane `number` of `workspace_id`.
pub fn public_pane_id_for_number(workspace_id: &str, number: usize) -> (r: String)
    ensures
        r@ == pane_id(workspace_id@, number as nat),
{
    crate::text::cat3(workspace_id, ":p", encode_public_number(number).as_str())
}

/// The number of the workspace that a public workspace id names.
pub fn public_workspace_number(id: &str) -> (r: Option<usize>)
    ensures
        match r {
            Some(n) => id@.len() > 1 && id@[0] == 'w' && decoded(id@.skip(1)) == Some(n as nat),
            None => !(id@.len() > 1 && id@[0] == 'w' && decoded(id@.skip(1)) is Some),
        },
{
    proof {
        reveal_strlit("w");
    }
    match strip_prefix(id, "w") {
        Some(number) => {
            assert(id@.take(1)[0] == id@[0]);
            if number.is_empty() {
                None
            } else {
                decode_public_number(number)
            }
        },
        None => {
            assert(id@.len() > 0 && id@[0] == 'w' ==> id@.take(1) =~= "w"@);
            None
        },
    }
}

/// The peer-side workspace id a peer-side public pane id belongs to.
///
/// Peer ids are the peer's own local ids, so a pane id carries its workspace in
/// the same `<workspace>:<pane>` shape this server uses. `None` for a target
/// that is not a pane id — a terminal id or an agent name names no workspace,
/// and guessing one from it would be wrong rather than merely unknown.
pub fn peer_workspace_of_pane_id(target: &str) -> (r: Option<String>)
    ensures
        match r {
            Some(workspace) => workspace_of_pane(target@) == Some(workspace@),
            None => workspace_of_pane(target@) is None,
        },
{
    proof {
        reveal_strlit("p");
    }
    match crate::text::str_split_once(target, ':') {
        Some((workspace, pane)) => {
            let is_pane = match strip_prefix(pane, "p") {
                Some(number) => {
                    assert(pane@.take(1)[0] == pane@[0]);
                    // An empty number decodes to 0, and `p` alone is not an id.
                    !number.is_empty() && decode_public_number(number).is_some()
                },
                None => {
                    assert(pane@.len() > 0 && pane@[0] == 'p' ==> pane@.take(1) =~= "p"@);
                    false
                },
            };
            if is_pane && !workspace.is_empty() {
                Some(workspace.to_owned())
            } else {
                None
            }
        },
        None => None,
    }
}

proof fn lemma_symbols(v: nat)
    requires
        1 <= v <= 32,
    ensures
        symbol_value(symbol(v)) == Some(v),
{
}

/// Every number reads back from its numeral.
pub proof fn law_numerals_round_trip(n: nat)
    ensures
        is_numeral(numeral(n)),
        number_of(numeral(n)) == n,
        n > 0 ==> numeral(n).len() > 0,
    decreases n,
{
    if n > 0 {
        let high = ((n - 1) / 32) as nat;
        let low = ((n - 1) % 32 + 1) as nat;
        law_numerals_round_trip(high);
        lemma_symbols(low);
        assert(numeral(n).drop_last() =~= numeral(high));
        assert(n == high * 32 + low);
    }
}

/// No two numerals stand for the same number.
pub proof fn law_numerals_are_unique(s: Seq<char>)
    requires
        is_numeral(s),
    ensures
        numeral(number_of(s)) == s,
    decreases s.len(),
{
    if s.len() > 0 {
        let init = s.drop_last();
        let v = symbol_value(s.last())->0;
        assert(symbol_value(s[s.len() - 1]) is Some);
        assert forall|i: int| 0 <= i < init.len() implies symbol_value(
            #[trigger] init[i],
        ) is Some by {
            assert(init[i] == s[i]);
        }
        law_numerals_are_unique(init);
        let n = number_of(s);
        assert(1 <= v <= 32);
        assert(((n - 1) / 32) == number_of(init)) by (nonlinear_arith)
            requires
                n == number_of(init) * 32 + v,
                1 <= v <= 32,
        ;
        assert(((n - 1) % 32) + 1 == v) by (nonlinear_arith)
            requires
                n == number_of(init) * 32 + v,
                1 <= v <= 32,
        ;
        assert(symbol(v) == s.last());
        assert(s =~= init.push(s.last()));
    }
}

/// Every pane id that is written recovers its workspace.
pub proof fn law_pane_ids_name_their_workspace(workspace: Seq<char>, n: nat)
    requires
        1 <= n <= usize::MAX,
        workspace.len() > 0,
        forall|i: int| 0 <= i < workspace.len() ==> workspace[i] != ':',
    ensures
        workspace_of_pane(pane_id(workspace, n)) == Some(workspace),
{
    reveal_strlit(":p");
    law_numerals_round_trip(n);
    let id = pane_id(workspace, n);
    let at = workspace.len() as int;
    assert(id[at] == ':');
    crate::text::lemma_find_is(id, ':', 0, at);
    assert(id.take(at) =~= workspace);
    assert(id.skip(at + 1).skip(1) =~= numeral(n));
    assert(id.skip(at + 1)[0] == 'p');
}

} // verus!
