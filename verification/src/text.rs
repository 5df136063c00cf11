//! What the library asks of strings: blankness, trimming and comparison that ignores the case of
//! ASCII letters.
use vstd::prelude::*;

verus! {

/// The characters with the Unicode property `White_Space`.
pub open spec fn is_white_space(c: char) -> bool {
    let code = c as u32;
    ||| 0x0009 <= code <= 0x000d
    ||| code == 0x0020
    ||| code == 0x0085
    ||| code == 0x00a0
    ||| code == 0x1680
    ||| 0x2000 <= code <= 0x200a
    ||| code == 0x2028
    ||| code == 0x2029
    ||| code == 0x202f
    ||| code == 0x205f
    ||| code == 0x3000
}

/// A text of white space alone; the empty text is one.
pub open spec fn blank(text: Seq<char>) -> bool {
    forall|i: int| 0 <= i < text.len() ==> is_white_space(#[trigger] text[i])
}

/// The text without the white space it begins and ends with.
pub open spec fn trimmed(text: Seq<char>) -> Seq<char>
    decreases text.len(),
{
    if text.len() == 0 {
        text
    } else if is_white_space(text.first()) {
        trimmed(text.drop_first())
    } else if is_white_space(text.last()) {
        trimmed(text.drop_last())
    } else {
        text
    }
}

/// Maps `A` to `Z` onto `a` to `z` and leaves every other character alone.
pub open spec fn ascii_lowercase(c: char) -> char {
    if 'A' <= c <= 'Z' {
        (c as u32 + 32) as char
    } else {
        c
    }
}

/// The two texts differ at most in the case of ASCII letters.
pub open spec fn same_ignoring_case(a: Seq<char>, b: Seq<char>) -> bool {
    &&& a.len() == b.len()
    &&& forall|i: int|
        0 <= i < a.len() ==> ascii_lowercase(#[trigger] a[i]) == ascii_lowercase(b[i])
}

/// `str::trim`: removes leading and trailing white space, as Unicode's `White_Space` has it.
pub assume_specification[ str::trim ](text: &str) -> (r: &str)
    ensures
        r@ == trimmed(text@),
;

/// `str::eq_ignore_ascii_case`: compares two strings as if both were in ASCII lower case.
pub assume_specification[ str::eq_ignore_ascii_case ](a: &str, b: &str) -> (r: bool)
    ensures
        r == same_ignoring_case(a@, b@),
;

/// `str::starts_with` with a string pattern: whether `text` begins with `prefix`.
#[verifier::external_body]
pub(crate) fn starts_with(text: &str, prefix: &str) -> (r: bool)
    ensures
        r == prefix@.is_prefix_of(text@),
{
    text.starts_with(prefix)
}

/// Whether the two strings hold the same characters.
pub fn same_text(a: &str, b: &str) -> (r: bool)
    ensures
        r == (a@ == b@),
{
    let r = starts_with(a, b) && starts_with(b, a);
    proof {
        if r {
            assert(a@ =~= b@);
        } else if a@ == b@ {
            assert(a@.is_prefix_of(b@));
        }
    }
    r
}

/// Trimming leaves nothing exactly of the blank texts.
pub proof fn trimmed_is_empty_iff_blank(text: Seq<char>)
    ensures
        trimmed(text).len() == 0 <==> blank(text),
    decreases text.len(),
{
    if text.len() == 0 {
    } else if is_white_space(text.first()) {
        let rest = text.drop_first();
        trimmed_is_empty_iff_blank(rest);
        if blank(rest) {
            assert forall|i: int| 0 <= i < text.len() implies is_white_space(#[trigger] text[i]) by {
                if i > 0 {
                    assert(rest[i - 1] == text[i]);
                }
            }
        }
    } else if is_white_space(text.last()) {
        assert(!is_white_space(text[0]));
        let rest = text.drop_last();
        trimmed_is_empty_iff_blank(rest);
        assert(rest[0] == text[0]);
    } else {
        assert(!is_white_space(text[0]));
    }
}

/// A trimmed text neither begins nor ends with white space, and trimming it again changes nothing.
pub proof fn trimmed_is_tight(text: Seq<char>)
    ensures
        trimmed(text).len() > 0 ==> !is_white_space(trimmed(text).first())
            && !is_white_space(trimmed(text).last()),
        trimmed(trimmed(text)) == trimmed(text),
    decreases text.len(),
{
    if text.len() == 0 {
    } else if is_white_space(text.first()) {
        trimmed_is_tight(text.drop_first());
    } else if is_white_space(text.last()) {
        trimmed_is_tight(text.drop_last());
    }
}

/// Whether `text` holds nothing but white space.
pub fn is_blank(text: &str) -> (r: bool)
    ensures
        r == blank(text@),
{
    proof {
        trimmed_is_empty_iff_blank(text@);
    }
    text.trim().is_empty()
}

} // verus!
