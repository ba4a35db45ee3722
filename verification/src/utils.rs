//! Small helpers on text that the rest of the library shares.

use vstd::prelude::*;
use vstd::string::*;
use vstd::utf8::{encode_utf8, encode_utf8_decode_utf8};

verus! {

/// The text shown for an optional value: what `Display` gives for the value
/// it holds, and nothing at all where it holds none.
pub fn display_option<T: std::fmt::Display>(value: &Option<T>) -> (text: String)
    ensures
        match value {
            Some(v) => to_string_from_display_ensures::<T>(v, text),
            None => text@ == Seq::<char>::empty(),
        },
{
    match value {
        Some(v) => v.to_string(),
        None => String::new(),
    }
}

/// Whether two texts hold the same characters.
pub fn str_eq(a: &str, b: &str) -> (same: bool)
    ensures
        same == (a@ == b@),
{
    let left = a.as_bytes();
    let right = b.as_bytes();
    proof {
        // A text is told by its bytes: decoding gives the characters back.
        encode_utf8_decode_utf8(a@);
        encode_utf8_decode_utf8(b@);
    }
    if left.len() != right.len() {
        return false;
    }
    let mut i: usize = 0;
    while i < left.len()
        invariant
            i <= left.len(),
            left.len() == right.len(),
            left@ == encode_utf8(a@),
            right@ == encode_utf8(b@),
            forall|j: int| 0 <= j < i ==> left@[j] == right@[j],
        decreases left.len() - i,
    {
        if left[i] != right[i] {
            return false;
        }
        i = i + 1;
    }
    assert(left@ =~= right@);
    true
}

/// Where the last `/` of a text stands, or -1 where it holds none.
pub open spec fn last_slash(text: Seq<char>) -> int
    decreases text.len(),
{
    if text.len() == 0 {
        -1
    } else if text.last() == '/' {
        text.len() - 1
    } else {
        last_slash(text.drop_last())
    }
}

/// What follows the last `/` of a text; the whole text where it holds none.
pub open spec fn last_segment(text: Seq<char>) -> Seq<char> {
    text.subrange(last_slash(text) + 1, text.len() as int)
}

/// `last_slash` is the greatest index that holds a `/`.
pub proof fn lemma_last_slash(text: Seq<char>)
    ensures
        -1 <= last_slash(text) < text.len(),
        last_slash(text) >= 0 ==> text[last_slash(text)] == '/',
        forall|i: int| last_slash(text) < i < text.len() ==> text[i] != '/',
    decreases text.len(),
{
    if text.len() > 0 && text.last() != '/' {
        let head = text.drop_last();
        lemma_last_slash(head);
        assert forall|i: int| last_slash(text) < i < text.len() implies text[i] != '/' by {
            if i < head.len() {
                assert(text[i] == head[i]);
            }
        }
    }
}

/// An index that holds a `/` and has none behind it is `last_slash`.
pub proof fn lemma_last_slash_unique(text: Seq<char>, at: int)
    requires
        -1 <= at < text.len(),
        at >= 0 ==> text[at] == '/',
        forall|i: int| at < i < text.len() ==> text[i] != '/',
    ensures
        last_slash(text) == at,
{
    lemma_last_slash(text);
}

/// The part of `text` behind its last `/`.
pub fn file_name(text: &str) -> (name: String)
    ensures
        name@ == last_segment(text@),
{
    let len: usize = text.unicode_len();
    let mut start: usize = len;
    while start > 0 && text.get_char(start - 1) != '/'
        invariant
            start <= len,
            len == text@.len(),
            forall|i: int| start <= i < len ==> text@[i] != '/',
        decreases start,
    {
        start = start - 1;
    }
    proof {
        lemma_last_slash_unique(text@, start as int - 1);
    }
    text.substring_char(start, len).to_owned()
}

/// The value of a decimal digit; `None` for any other character.
pub open spec fn digit_of(c: char) -> Option<nat> {
    if '0' as u32 <= c as u32 <= '9' as u32 {
        Some((c as u32 - '0' as u32) as nat)
    } else {
        None
    }
}

/// The number that a run of decimal digits writes, most significant digit
/// first; `None` where a character is no digit. No digits write 0.
pub open spec fn digits_value(digits: Seq<char>) -> Option<nat>
    decreases digits.len(),
{
    if digits.len() == 0 {
        Some(0)
    } else {
        match (digits_value(digits.drop_last()), digit_of(digits.last())) {
            (Some(value), Some(digit)) => Some(10 * value + digit),
            _ => None,
        }
    }
}

/// The digits of a decimal number: the text without the `+` that it may
/// open with.
pub open spec fn unsigned_part(text: Seq<char>) -> Seq<char> {
    if text.len() > 0 && text[0] == '+' {
        text.drop_first()
    } else {
        text
    }
}

/// The `u32` that a text writes in decimal: an optional `+`, then one digit
/// or more and nothing else, for a number that a `u32` holds; `None` for
/// any other text.
pub open spec fn decimal_u32(text: Seq<char>) -> Option<u32> {
    let digits = unsigned_part(text);
    if digits.len() == 0 {
        None
    } else {
        match digits_value(digits) {
            Some(value) => if value <= u32::MAX {
                Some(value as u32)
            } else {
                None
            },
            None => None,
        }
    }
}

/// Where digits write a number, every run of them from the start writes
/// one too, and no greater one.
pub proof fn lemma_digits_prefix(digits: Seq<char>, upto: int)
    requires
        0 <= upto <= digits.len(),
        digits_value(digits) is Some,
    ensures
        digits_value(digits.take(upto)) is Some,
        digits_value(digits.take(upto))->0 <= digits_value(digits)->0,
    decreases digits.len(),
{
    if upto == digits.len() {
        assert(digits.take(upto) =~= digits);
    } else {
        let head = digits.drop_last();
        assert(head.take(upto) =~= digits.take(upto));
        lemma_digits_prefix(head, upto);
    }
}

/// What `str::to_lowercase` makes of a text.
pub uninterp spec fn lowercase(text: Seq<char>) -> Seq<char>;

/// The `u32` that a text writes in decimal, as `str::parse` reads it: an
/// optional `+`, then digits only; `None` for any other text and for a
/// number that a `u32` cannot hold.
pub fn parse_u32(text: &str) -> (number: Option<u32>)
    ensures
        number == decimal_u32(text@),
{
    let ghost all = text@;
    let mut value: u64 = 0;
    let mut first = true;
    let mut signed = false;
    let mut any = false;
    for c in it: text.chars()
        invariant
            it.seq() == all,
            all == text@,
            first == (it.index() == 0),
            signed ==> it.index() >= 1 && all[0] == '+',
            !signed && !first ==> all[0] != '+',
            any == (it.index() > (if signed { 1int } else { 0int })),
            value <= u32::MAX,
            digits_value(all.subrange(if signed { 1int } else { 0int }, it.index() as int)) == Some(
                value as nat,
            ),
    {
        let ghost start = if signed { 1int } else { 0int };
        let ghost at = it.index() as int;
        if first && c == '+' {
            signed = true;
            assert(all.subrange(1, 1) =~= Seq::<char>::empty());
        } else {
            let ghost digits = unsigned_part(all);
            let ghost seen = all.subrange(start, at + 1);
            proof {
                assert(digits =~= all.subrange(start, all.len() as int));
                assert(seen =~= digits.take(at + 1 - start));
                assert(seen.drop_last() =~= all.subrange(start, at));
                assert(seen.last() == c);
                if digits_value(digits) is Some {
                    lemma_digits_prefix(digits, at + 1 - start);
                }
            }
            let code: u32 = c as u32;
            if code < '0' as u32 || code > '9' as u32 {
                assert(digits_value(seen) is None);
                return None;
            }
            let digit: u64 = (code - '0' as u32) as u64;
            let next: u64 = value * 10 + digit;
            if next > u32::MAX as u64 {
                return None;
            }
            value = next;
            any = true;
        }
        first = false;
    }
    proof {
        let start = if signed { 1int } else { 0int };
        assert(unsigned_part(all) =~= all.subrange(start, all.len() as int));
    }
    if any {
        Some(value as u32)
    } else {
        None
    }
}

/// `str::to_lowercase`, from std.
#[verifier::external_body]
pub(crate) fn to_lowercase(text: &str) -> (lowered: String)
    ensures
        lowered@ == lowercase(text@),
{
    text.to_lowercase()
}

/// The view of a borrowed optional text.
pub open spec fn text_view(text: Option<&str>) -> Option<Seq<char>> {
    match text {
        Some(t) => Some(t@),
        None => None,
    }
}

/// The view of an optional text.
pub open spec fn optional_text(text: Option<String>) -> Option<Seq<char>> {
    match text {
        Some(t) => Some(t@),
        None => None,
    }
}

/// The text of an optional text; nothing where there is none.
pub open spec fn text_or_empty(text: Option<String>) -> Seq<char> {
    match text {
        Some(t) => t@,
        None => Seq::empty(),
    }
}

} // verus!
