//! Text as the standard library handles it, where `vstd` says nothing of it:
//! reading UTF-8, trimming white space, lower case, and the end of a
//! `String`. What is said of the standard library's functions here is
//! believed, not proved; what is said of `trimmed` itself is proved.

use vstd::prelude::*;
use vstd::utf8::{decode_utf8, valid_utf8};

verus! {

/// `core::str::Utf8Error`, the error of reading UTF-8. It is only carried.
#[verifier::external_type_specification]
#[verifier::external_body]
pub struct ExUtf8Error(core::str::Utf8Error);

/// `core::str::from_utf8` accepts exactly the byte strings that are valid
/// UTF-8, and hands out the characters they encode.
pub assume_specification[ core::str::from_utf8 ](v: &[u8]) -> (res: Result<&str, core::str::Utf8Error>)
    ensures
        res is Ok <==> valid_utf8(v@),
        res matches Ok(text) ==> text@ == decode_utf8(v@),
;

/// The characters that Unicode counts as white space (`White_Space`).
pub open spec fn is_white_space(c: char) -> bool {
    let code = c as u32;
    ||| 0x09 <= code <= 0x0D
    ||| code == 0x20
    ||| code == 0x85
    ||| code == 0xA0
    ||| code == 0x1680
    ||| 0x2000 <= code <= 0x200A
    ||| code == 0x2028
    ||| code == 0x2029
    ||| code == 0x202F
    ||| code == 0x205F
    ||| code == 0x3000
}

/// A text without the white space at its front.
pub open spec fn trimmed_start(text: Seq<char>) -> Seq<char>
    decreases text.len(),
{
    if text.len() > 0 && is_white_space(text.first()) {
        trimmed_start(text.drop_first())
    } else {
        text
    }
}

/// A text without the white space at its end.
pub open spec fn trimmed_end(text: Seq<char>) -> Seq<char>
    decreases text.len(),
{
    if text.len() > 0 && is_white_space(text.last()) {
        trimmed_end(text.drop_last())
    } else {
        text
    }
}

/// A text without the white space at either end.
pub open spec fn trimmed(text: Seq<char>) -> Seq<char> {
    trimmed_end(trimmed_start(text))
}

/// Trimming the front leaves the end of the text, and no white space in
/// front of it.
pub proof fn lemma_trimmed_start(text: Seq<char>)
    ensures
        trimmed_start(text).len() <= text.len(),
        trimmed_start(text) == text.skip(text.len() - trimmed_start(text).len()),
        trimmed_start(text).len() > 0 ==> !is_white_space(trimmed_start(text).first()),
        forall|i: int| 0 <= i < text.len() - trimmed_start(text).len() ==> is_white_space(#[trigger] text[i]),
    decreases text.len(),
{
    if text.len() > 0 && is_white_space(text.first()) {
        let rest = text.drop_first();
        lemma_trimmed_start(rest);
        let kept = trimmed_start(rest);
        assert forall|i: int| 0 <= i < text.len() - kept.len() implies is_white_space(
            #[trigger] text[i],
        ) by {
            if i > 0 {
                assert(text[i] == rest[i - 1]);
            }
        }
    }
}

/// Trimming the end leaves the front of the text, and no white space behind
/// it.
pub proof fn lemma_trimmed_end(text: Seq<char>)
    ensures
        trimmed_end(text).len() <= text.len(),
        trimmed_end(text) == text.take(trimmed_end(text).len() as int),
        trimmed_end(text).len() > 0 ==> !is_white_space(trimmed_end(text).last()),
        forall|i: int| trimmed_end(text).len() <= i < text.len() ==> is_white_space(#[trigger] text[i]),
    decreases text.len(),
{
    if text.len() > 0 && is_white_space(text.last()) {
        let rest = text.drop_last();
        lemma_trimmed_end(rest);
        let kept = trimmed_end(rest);
        assert forall|i: int| kept.len() <= i < text.len() implies is_white_space(
            #[trigger] text[i],
        ) by {
            if i < rest.len() {
                assert(text[i] == rest[i]);
            }
        }
    }
}

/// A trimmed text is a stretch of the text it was made from, with nothing
/// but white space left out on either side and no white space at either of
/// its own ends.
pub proof fn lemma_trimmed(text: Seq<char>)
    ensures
        ({
            let front = text.len() - trimmed_start(text).len();
            let kept = trimmed(text).len();
            &&& 0 <= front <= front + kept <= text.len()
            &&& trimmed(text) == text.subrange(front, front + kept)
            &&& forall|i: int| 0 <= i < front ==> is_white_space(#[trigger] text[i])
            &&& forall|i: int| front + kept <= i < text.len() ==> is_white_space(#[trigger] text[i])
        }),
        trimmed(text).len() > 0 ==> !is_white_space(trimmed(text).first()) && !is_white_space(
            trimmed(text).last(),
        ),
{
    let tail = trimmed_start(text);
    let front = text.len() - tail.len();
    lemma_trimmed_start(text);
    lemma_trimmed_end(tail);
    let kept = trimmed(text).len();
    assert forall|i: int| front + kept <= i < text.len() implies is_white_space(
        #[trigger] text[i],
    ) by {
        assert(text[i] == tail[i - front]);
    }
}

/// `str::trim` takes the leading and the trailing white space away, white
/// space being what Unicode counts as such (`White_Space`).
pub assume_specification[ str::trim ](text: &str) -> (res: &str)
    ensures
        res@ == trimmed(text@),
;

/// `String::push` puts one character at the end.
pub assume_specification[ String::push ](text: &mut String, ch: char)
    ensures
        final(text)@ == old(text)@.push(ch),
;

/// `String::pop` takes the last character away and hands it out, or hands
/// out nothing where the text is empty.
pub assume_specification[ String::pop ](text: &mut String) -> (res: Option<char>)
    ensures
        old(text)@.len() == 0 ==> res is None && final(text)@ == old(text)@,
        old(text)@.len() > 0 ==> res == Some(old(text)@.last()) && final(text)@ == old(text)@.drop_last(),
;

/// `String::clear` leaves the text empty.
pub assume_specification[ String::clear ](text: &mut String)
    ensures
        final(text)@ == Seq::<char>::empty(),
;

/// What `str::to_lowercase` makes of a text: its lower case by the rules of
/// Unicode.
pub uninterp spec fn lowercase(text: Seq<char>) -> Seq<char>;

/// `str::to_lowercase`: the outcome is a function of the text alone.
pub assume_specification[ str::to_lowercase ](text: &str) -> (res: String)
    ensures
        res@ == lowercase(text@),
;

} // verus!
