//! Header values as text: which values are text at all, and which tokens a
//! value lists.

use vstd::prelude::*;
use crate::text::{folded, lower, lower_byte};

verus! {

/// Whether `b` is a byte of header text: a tab, or a printable ASCII
/// character.
pub open spec fn is_visible(b: u8) -> bool {
    b == 0x09 || 0x20 <= b < 0x7f
}

/// Whether `value` is made of bytes of header text only.
pub open spec fn is_text(value: Seq<u8>) -> bool {
    forall|i: int| 0 <= i < value.len() ==> is_visible(#[trigger] value[i])
}

/// Whether `b` parts the tokens of a list: a space or a comma.
pub open spec fn is_separator(b: u8) -> bool {
    b == 0x20 || b == 0x2c
}

/// Whether the bytes of `value` from `from` up to `to` are one piece of the
/// list: they hold no separator, and a separator or an end of the value
/// stands on either side.
pub open spec fn piece_at(value: Seq<u8>, from: int, to: int) -> bool {
    &&& 0 <= from <= to <= value.len()
    &&& from == 0 || is_separator(value[from - 1])
    &&& to == value.len() || is_separator(value[to])
    &&& forall|i: int| from <= i < to ==> !is_separator(#[trigger] value[i])
}

/// Whether the piece of `value` that starts at `at` is `token` up to ASCII
/// case.
pub open spec fn token_at(value: Seq<u8>, token: Seq<u8>, at: int) -> bool {
    &&& piece_at(value, at, at + token.len())
    &&& folded(value.subrange(at, at + token.len())) == folded(token)
}

/// Whether `value`, cut at every space and every comma, has `token` among
/// its pieces, up to ASCII case.
pub open spec fn has_token(value: Seq<u8>, token: Seq<u8>) -> bool {
    exists|at: int| token_at(value, token, at)
}

/// Whether `value` is made of bytes of header text only.
pub fn is_header_text(value: &[u8]) -> (res: bool)
    ensures
        res == is_text(value@),
{
    let mut i: usize = 0;
    while i < value.len()
        invariant
            i <= value@.len(),
            forall|j: int| 0 <= j < i ==> is_visible(#[trigger] value@[j]),
        decreases value@.len() - i,
    {
        let b: u8 = value[i];
        if !(b == 0x09 || (0x20 <= b && b < 0x7f)) {
            return false;
        }
        i += 1;
    }
    true
}

fn is_separator_byte(b: u8) -> (res: bool)
    ensures
        res == is_separator(b),
{
    b == 0x20 || b == 0x2c
}

/// Whether the piece of `value` that starts at `at` is `token` up to ASCII
/// case.
fn holds_token_at(value: &[u8], token: &[u8], at: usize) -> (res: bool)
    requires
        at + token@.len() <= value@.len(),
    ensures
        res == token_at(value@, token@, at as int),
{
    let len: usize = value.len();
    let end: usize = at + token.len();
    if at > 0 && !is_separator_byte(value[at - 1]) {
        return false;
    }
    if end < len && !is_separator_byte(value[end]) {
        return false;
    }
    let ghost piece = value@.subrange(at as int, end as int);
    let mut k: usize = 0;
    while k < token.len()
        invariant
            k <= token@.len(),
            end == at + token@.len(),
            end <= value@.len(),
            piece == value@.subrange(at as int, end as int),
            forall|j: int| 0 <= j < k ==> !is_separator(#[trigger] value@[at + j]),
            forall|j: int| 0 <= j < k ==> lower(piece[j]) == lower(#[trigger] token@[j]),
        decreases token@.len() - k,
    {
        let b: u8 = value[at + k];
        if is_separator_byte(b) {
            return false;
        }
        if lower_byte(b) != lower_byte(token[k]) {
            assert(folded(piece)[k as int] != folded(token@)[k as int]);
            return false;
        }
        k += 1;
    }
    proof {
        assert(folded(piece) =~= folded(token@));
        assert forall|i: int| at <= i < end implies !is_separator(#[trigger] value@[i]) by {
            assert(!is_separator(value@[at + (i - at)]));
        }
    }
    true
}

/// Whether `value`, cut at every space and every comma, has `token` among
/// its pieces, up to ASCII case.
pub fn holds_token(value: &[u8], token: &[u8]) -> (res: bool)
    ensures
        res == has_token(value@, token@),
{
    if token.len() > value.len() {
        return false;
    }
    let last: usize = value.len() - token.len();
    let mut at: usize = 0;
    loop
        invariant
            at <= last,
            last == value@.len() - token@.len(),
            forall|j: int| 0 <= j < at ==> !token_at(value@, token@, j),
        ensures
            forall|j: int| 0 <= j <= last ==> !token_at(value@, token@, j),
        decreases last - at,
    {
        if holds_token_at(value, token, at) {
            return true;
        }
        if at == last {
            break ;
        }
        at += 1;
    }
    false
}

} // verus!
