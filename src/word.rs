//! The shape that a guessed word must have before it goes to the word service.
use vstd::prelude::*;
use vstd::string::StrSliceExecFns;
use vstd::utf8::encode_utf8;

use crate::consts::game_rules::WORD_LENGTH;

verus! {

/// Whether `c` is a lowercase character in Unicode's sense.
pub uninterp spec fn lowercase_char(c: char) -> bool;

/// Relies on `char::is_lowercase`: whether `c` has Unicode's Lowercase
/// property. Of ASCII letters, the small ones have it and the capitals do not.
#[verifier::external_body]
fn char_is_lowercase(c: char) -> (r: bool)
    ensures
        r == lowercase_char(c),
        'a' <= c <= 'z' ==> r,
        'A' <= c <= 'Z' ==> !r,
{
    c.is_lowercase()
}

/// Why a guessed word was refused.
#[derive(Clone, Copy, Debug, PartialEq, Eq, Structural)]
pub enum WordShapeError {
    /// Its UTF-8 encoding is not of the fixed length.
    WrongLength,
    /// One of its characters is not lowercase.
    NotLowercase,
}

/// Whether every character of `w` is lowercase.
pub open spec fn all_lowercase(w: Seq<char>) -> bool {
    forall|i: int| 0 <= i < w.len() ==> lowercase_char(#[trigger] w[i])
}

/// The verdict on a guessed word: the length of its UTF-8 encoding is tested
/// first, then the case of its characters.
pub open spec fn word_shape(w: Seq<char>) -> Result<(), WordShapeError> {
    if encode_utf8(w).len() != WORD_LENGTH {
        Err(WordShapeError::WrongLength)
    } else if !all_lowercase(w) {
        Err(WordShapeError::NotLowercase)
    } else {
        Ok(())
    }
}

/// Tests that `word` has the fixed length in bytes and only lowercase characters.
pub fn check_word_shape(word: &str) -> (r: Result<(), WordShapeError>)
    ensures
        r == word_shape(word@),
{
    if word.as_bytes().len() != WORD_LENGTH {
        return Err(WordShapeError::WrongLength);
    }
    let n = word.unicode_len();
    let mut i: usize = 0;
    while i < n
        invariant
            n == word@.len(),
            encode_utf8(word@).len() == WORD_LENGTH,
            0 <= i <= n,
            forall|j: int| 0 <= j < i ==> lowercase_char(#[trigger] word@[j]),
        decreases n - i,
    {
        let c = word.get_char(i);
        if !char_is_lowercase(c) {
            assert(!lowercase_char(word@[i as int]));
            return Err(WordShapeError::NotLowercase);
        }
        i = i + 1;
    }
    Ok(())
}

} // verus!
