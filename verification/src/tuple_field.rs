//! Links into tuple fields: `Point::0` is no path of the grammar, so it is
//! taken apart at its last `::` and the position is read on its own.

use vstd::prelude::*;
use vstd::string::StrSliceExecFns;
use crate::names::{Name, NameView};
use crate::path::{SymbolPath, SymbolPathView, path_view};
use crate::syntax::{parse_path, parsed};

verus! {

/// Whether `::` stands at position `at` of `text`.
pub open spec fn separator_at(text: Seq<char>, at: int) -> bool {
    0 <= at && at + 1 < text.len() && text[at] == ':' && text[at + 1] == ':'
}

/// The position of the last `::` that starts before `bound`.
pub open spec fn last_separator_before(text: Seq<char>, bound: int) -> Option<int>
    decreases bound,
{
    if bound <= 0 {
        None
    } else if separator_at(text, bound - 1) {
        Some(bound - 1)
    } else {
        last_separator_before(text, bound - 1)
    }
}

/// The position of the last `::` in `text`.
pub open spec fn last_separator(text: Seq<char>) -> Option<int> {
    last_separator_before(text, text.len() as int)
}

/// The last `::` is a `::`, and none stands after it.
pub proof fn lemma_last_separator(text: Seq<char>, bound: int)
    ensures
        match last_separator_before(text, bound) {
            Some(at) => at < bound && separator_at(text, at) && forall|j: int|
                at < j < bound ==> !separator_at(text, j),
            None => forall|j: int| j < bound ==> !separator_at(text, j),
        },
    decreases bound,
{
    if bound > 0 && !separator_at(text, bound - 1) {
        lemma_last_separator(text, bound - 1);
    }
}

/// The characters of `text`, in order.
pub fn chars_of(text: &str) -> (r: Vec<char>)
    ensures
        r@ == text@,
{
    let mut chars: Vec<char> = Vec::new();
    for c in it: text.chars()
        invariant
            it.seq() == text@,
            chars@ == it.seq().take(it.index() as int),
    {
        chars.push(c);
        assert(chars@ =~= it.seq().take(it.index() + 1));
    }
    assert(chars@ =~= text@);
    chars
}

/// Finds the last `::` among `chars`.
pub fn last_separator_in(chars: &Vec<char>) -> (r: Option<usize>)
    ensures
        match r {
            Some(at) => last_separator(chars@) == Some(at as int),
            None => last_separator(chars@) is None,
        },
{
    let n = chars.len();
    let mut bound: usize = n;
    while bound > 0
        invariant
            bound <= n,
            n == chars@.len(),
            last_separator(chars@) == last_separator_before(chars@, bound as int),
        decreases bound,
    {
        let at = bound - 1;
        if at + 1 < n && chars[at] == ':' && chars[at + 1] == ':' {
            return Some(at);
        }
        bound = at;
    }
    None
}

/// Finds the last `::` in `text`.
pub fn find_last_separator(text: &str) -> (r: Option<usize>)
    ensures
        match r {
            Some(at) => last_separator(text@) == Some(at as int),
            None => last_separator(text@) is None,
        },
{
    let chars = chars_of(text);
    last_separator_in(&chars)
}

/// Whether `c` is one of the ten decimal digits.
pub open spec fn is_digit(c: char) -> bool {
    '0' <= c <= '9'
}

/// The number that a run of decimal digits spells.
pub open spec fn decimal_value(digits: Seq<char>) -> nat
    decreases digits.len(),
{
    if digits.len() == 0 {
        0
    } else {
        (decimal_value(digits.drop_last()) * 10 + (digits.last() as int - '0' as int)) as nat
    }
}

/// Whether every character of `text` is a decimal digit.
pub open spec fn all_digits(text: Seq<char>) -> bool {
    forall|i: int| 0 <= i < text.len() ==> is_digit(#[trigger] text[i])
}

/// The digits of a position: what is written, without one leading `+`.
pub open spec fn unsigned_part(text: Seq<char>) -> Seq<char> {
    if text.len() > 0 && text[0] == '+' {
        text.skip(1)
    } else {
        text
    }
}

/// The position that `text` spells: one or more decimal digits, after at
/// most one `+`, whose number a `usize` can hold.
pub open spec fn tuple_index(text: Seq<char>) -> Option<usize> {
    let digits = unsigned_part(text);
    if digits.len() > 0 && all_digits(digits) && decimal_value(digits) <= usize::MAX {
        Some(decimal_value(digits) as usize)
    } else {
        None
    }
}

/// A longer run of digits spells no smaller a number than its beginning.
pub proof fn lemma_decimal_value_grows(digits: Seq<char>, k: int)
    requires
        0 <= k <= digits.len(),
        all_digits(digits),
    ensures
        decimal_value(digits.take(k)) <= decimal_value(digits),
    decreases digits.len() - k,
{
    if k < digits.len() {
        let next = digits.take(k + 1);
        assert(next.drop_last() =~= digits.take(k));
        assert(next.last() == digits[k]);
        assert(is_digit(digits[k]));
        lemma_decimal_value_grows(digits, k + 1);
    } else {
        assert(digits.take(k) =~= digits);
    }
}

/// Reads what stands among `chars` from position `from` on as the position
/// of a tuple field.
pub fn index_in(chars: &Vec<char>, from: usize) -> (r: Option<usize>)
    requires
        from <= chars@.len(),
    ensures
        r == tuple_index(chars@.skip(from as int)),
{
    let n = chars.len();
    let ghost text = chars@.skip(from as int);
    let start: usize = if from < n && chars[from] == '+' {
        from + 1
    } else {
        from
    };
    let ghost digits = unsigned_part(text);
    assert(digits =~= chars@.skip(start as int));
    if start == n {
        return None;
    }
    let mut value: usize = 0;
    let mut i: usize = start;
    while i < n
        invariant
            n == chars@.len(),
            start <= i <= n,
            text == chars@.skip(from as int),
            digits == chars@.skip(start as int),
            digits == unsigned_part(text),
            forall|j: int| 0 <= j < i - start ==> is_digit(#[trigger] digits[j]),
            value == decimal_value(digits.take(i - start)),
        decreases n - i,
    {
        let c = chars[i];
        assert(c == digits[i - start]);
        if !('0' <= c && c <= '9') {
            assert(!is_digit(digits[i - start]));
            return None;
        }
        let d: usize = (c as u32 - '0' as u32) as usize;
        let ghost next = digits.take(i + 1 - start);
        assert(next.drop_last() =~= digits.take(i - start));
        assert(next.last() == c);
        assert(d == c as int - '0' as int);
        assert(decimal_value(next) == value * 10 + d);
        let grown = match value.checked_mul(10) {
            Some(tens) => tens.checked_add(d),
            None => None,
        };
        match grown {
            Some(v) => {
                value = v;
            },
            None => {
                proof {
                    assert(decimal_value(next) > usize::MAX);
                    if all_digits(digits) {
                        lemma_decimal_value_grows(digits, i + 1 - start);
                    }
                }
                return None;
            },
        }
        i = i + 1;
    }
    assert(digits.take(n - start) =~= digits);
    Some(value)
}

/// Reads `text` as the position of a tuple field.
pub fn parse_index(text: &str) -> (r: Option<usize>)
    ensures
        r == tuple_index(text@),
{
    let chars = chars_of(text);
    assert(chars@.skip(0) =~= text@);
    index_in(&chars, 0)
}

/// `prefix` with the tuple field at position `idx` as its last name.
pub fn with_tuple_field(prefix: SymbolPath, idx: usize) -> (r: SymbolPath)
    ensures
        r@ == prefix@.child(NameView::TupleField(idx)),
{
    let mut path = prefix;
    path.push_segment(Name::new_tuple_field(idx));
    path
}

/// The path that a link of the form `Prefix::N` stands for: the path that
/// `Prefix` spells, with the tuple position `N` as its last name. The link is
/// split at its last `::`.
pub open spec fn split(link: Seq<char>) -> Option<SymbolPathView> {
    match last_separator(link) {
        None => None,
        Some(at) => match tuple_index(link.skip(at + 2)) {
            None => None,
            Some(idx) => match parsed(link.take(at)) {
                None => None,
                Some(prefix) => Some(prefix.child(NameView::TupleField(idx))),
            },
        },
    }
}

/// Recovers a link into a tuple field.
///
/// `Some` exactly where the link holds `::`, what follows the last one is a
/// position, and what stands before it parses as a path.
pub fn split_tuple_field(link: &str) -> (r: Option<SymbolPath>)
    ensures
        path_view(r) == split(link@),
{
    let chars = chars_of(link);
    let at = match last_separator_in(&chars) {
        Some(at) => at,
        None => return None,
    };
    proof {
        lemma_last_separator(link@, link@.len() as int);
    }
    let idx = match index_in(&chars, at + 2) {
        Some(idx) => idx,
        None => return None,
    };
    match parse_path(link.substring_char(0, at)) {
        Some(prefix) => Some(with_tuple_field(prefix, idx)),
        None => None,
    }
}

/// The path that a link spells: the path it parses as, or else the one it
/// splits into.
pub open spec fn link_path(link: Seq<char>) -> Option<SymbolPathView> {
    match parsed(link) {
        Some(p) => Some(p),
        None => split(link),
    }
}

/// Turns the text of a link into a path: as an ordinary path where it is
/// one, as a link into a tuple field otherwise.
pub fn modpath_from_str(link: &str) -> (r: Option<SymbolPath>)
    ensures
        path_view(r) == link_path(link@),
{
    match parse_path(link) {
        Some(p) => Some(p),
        None => split_tuple_field(link),
    }
}

} // verus!
