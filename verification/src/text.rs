//! Small facts about text: emptiness, blankness, and the order of
//! texts.

use vstd::prelude::*;
use vstd::std_specs::iter::IteratorSpec;

verus! {

/// Whether `text` holds no characters.
pub fn is_empty_text(text: &String) -> (empty: bool)
    ensures
        empty == (text@.len() == 0),
{
    text.as_str().is_empty()
}

/// Unicode White_Space, the property Rust's `char::is_whitespace` and
/// `str::trim` use.
pub open spec fn is_whitespace(c: char) -> bool {
    let v = c as u32;
    (0x9 <= v <= 0xD) || v == 0x20 || v == 0x85 || v == 0xA0 || v == 0x1680 || (0x2000 <= v <= 0x200A)
        || v == 0x2028 || v == 0x2029 || v == 0x202F || v == 0x205F || v == 0x3000
}

/// Whether every character of `text` is whitespace, so that trimming it
/// leaves nothing.
pub open spec fn is_blank(text: Seq<char>) -> bool {
    forall|k: int| 0 <= k < text.len() ==> is_whitespace(#[trigger] text[k])
}

fn char_is_whitespace(c: char) -> (whitespace: bool)
    ensures
        whitespace == is_whitespace(c),
{
    let v = c as u32;
    (0x9 <= v && v <= 0xD) || v == 0x20 || v == 0x85 || v == 0xA0 || v == 0x1680 || (0x2000 <= v && v
        <= 0x200A) || v == 0x2028 || v == 0x2029 || v == 0x202F || v == 0x205F || v == 0x3000
}

/// Whether `text` is empty once surrounding whitespace is trimmed.
pub fn is_blank_text(text: &String) -> (blank: bool)
    ensures
        blank == is_blank(text@),
{
    let chars = text.as_str();
    let length = chars.unicode_len();
    let mut index: usize = 0;
    while index < length
        invariant
            index <= length,
            length == text@.len(),
            chars@ == text@,
            forall|k: int| 0 <= k < index ==> is_whitespace(#[trigger] text@[k]),
        decreases length - index,
    {
        if !char_is_whitespace(chars.get_char(index)) {
            return false;
        }
        index += 1;
    }
    true
}

/// Whether text `a` sorts before text `b`: character by character, a
/// proper prefix first.
pub open spec fn text_less(a: Seq<char>, b: Seq<char>) -> bool
    decreases a.len(),
{
    if a.len() == 0 {
        b.len() > 0
    } else if b.len() == 0 {
        false
    } else if a[0] != b[0] {
        (a[0] as u32) < (b[0] as u32)
    } else {
        text_less(a.drop_first(), b.drop_first())
    }
}

/// Whether `left` sorts before `right`.
pub fn text_precedes(left: &String, right: &String) -> (less: bool)
    ensures
        less == text_less(left@, right@),
{
    broadcast use vstd::string::group_string_axioms;

    let mut a = left.as_str().chars();
    let mut b = right.as_str().chars();
    let ghost mut consumed: int = 0;
    loop
        invariant
            0 <= consumed <= left@.len(),
            consumed <= right@.len(),
            a.remaining() == left@.skip(consumed),
            b.remaining() == right@.skip(consumed),
            text_less(left@, right@) == text_less(left@.skip(consumed), right@.skip(consumed)),
        decreases left@.len() - consumed,
    {
        let x = a.next();
        let y = b.next();
        match (x, y) {
            (None, None) => return false,
            (None, Some(_)) => return true,
            (Some(_), None) => return false,
            (Some(p), Some(q)) => {
                if p != q {
                    return (p as u32) < (q as u32);
                }
                proof {
                    assert(left@.skip(consumed).drop_first() =~= left@.skip(consumed + 1));
                    assert(right@.skip(consumed).drop_first() =~= right@.skip(consumed + 1));
                    consumed = consumed + 1;
                }
            },
        }
    }
}

/// No text sorts before itself.
pub proof fn lemma_text_less_irreflexive(a: Seq<char>)
    ensures
        !text_less(a, a),
    decreases a.len(),
{
    if a.len() > 0 {
        lemma_text_less_irreflexive(a.drop_first());
    }
}

/// The text order is transitive.
pub proof fn lemma_text_less_transitive(a: Seq<char>, b: Seq<char>, c: Seq<char>)
    requires
        text_less(a, b),
        text_less(b, c),
    ensures
        text_less(a, c),
    decreases a.len(),
{
    if a.len() > 0 && b.len() > 0 && c.len() > 0 && a[0] == b[0] && b[0] == c[0] {
        lemma_text_less_transitive(a.drop_first(), b.drop_first(), c.drop_first());
    }
}

/// The text order is asymmetric.
pub proof fn lemma_text_less_asymmetric(a: Seq<char>, b: Seq<char>)
    requires
        text_less(a, b),
    ensures
        !text_less(b, a),
    decreases a.len(),
{
    if a.len() > 0 && b.len() > 0 && a[0] == b[0] {
        lemma_text_less_asymmetric(a.drop_first(), b.drop_first());
    }
}


/// Two different texts are ordered one way or the other.
pub proof fn lemma_text_less_total(a: Seq<char>, b: Seq<char>)
    requires
        a != b,
    ensures
        text_less(a, b) || text_less(b, a),
    decreases a.len(),
{
    if a.len() == 0 && b.len() == 0 {
        assert(a =~= b);
    }
    if a.len() > 0 && b.len() > 0 {
        let (x, y) = (a[0], b[0]);
        if x != y {
            vstd::utf8::char_u32_cast(x, x as u32);
            vstd::utf8::char_u32_cast(y, y as u32);
            assert((x as u32) != (y as u32));
        } else {
            let (rest_a, rest_b) = (a.drop_first(), b.drop_first());
            if rest_a =~= rest_b {
                assert(rest_a.len() == a.len() - 1 && rest_b.len() == b.len() - 1);
                assert(a =~= b) by {
                    assert forall|k: int| 0 <= k < a.len() implies a[k] == b[k] by {
                        if k > 0 {
                            assert(a[k] == rest_a[k - 1]);
                            assert(b[k] == rest_b[k - 1]);
                        }
                    }
                }
            }
            lemma_text_less_total(rest_a, rest_b);
        }
    }
}

} // verus!
