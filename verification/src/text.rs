//! Names: the characters they may hold, and how typed characters edit them.

use vstd::prelude::*;
use crate::level::LEVEL_NAME_LEN;

verus! {

/// Where a line of text is anchored.
#[derive(Clone, Copy, PartialEq, Eq, Structural, Debug)]
pub enum TextAlign {
    Left,
    Right,
}

/// The backspace character.
pub const BACKSPACE: char = '\u{8}';

/// The return character.
pub const RETURN: char = '\r';

/// Whether a name may hold a character: `A` to `Z`, `0` to `9`, the space,
/// and the punctuation `_ ? ! * : - + / ( ) [ ] . , '`.
pub open spec fn valid_char(c: char) -> bool {
    ('A' <= c <= 'Z') || ('0' <= c <= '9') || c == ' ' || c == '_' || c == '?' || c == '!' || c == '*'
        || c == ':' || c == '-' || c == '+' || c == '/' || c == '(' || c == ')' || c == '[' || c == ']'
        || c == '.' || c == ',' || c == '\''
}

/// Whether a name holds valid characters only, and no more than
/// `LEVEL_NAME_LEN` of them.
pub open spec fn valid_name(name: Seq<char>) -> bool {
    name.len() <= LEVEL_NAME_LEN && forall|i: int| 0 <= i < name.len() ==> valid_char(#[trigger] name[i])
}

/// A character with the letters `a` to `z` in upper case.
pub open spec fn upper(c: char) -> char {
    if 'a' <= c <= 'z' {
        ((c as u8) - 32) as u8 as char
    } else {
        c
    }
}

/// The bytes of a name in a file or in memory.
pub open spec fn name_bytes(name: Seq<char>) -> Seq<u8> {
    vstd::utf8::encode_utf8(name)
}

/// A name after a character was typed. A valid character, taken in upper
/// case, is added while the name is shorter than `LEVEL_NAME_LEN` bytes; a
/// backspace takes the last character away; anything else changes nothing.
pub open spec fn after_key(text: Seq<char>, c: char) -> Seq<char> {
    let u = upper(c);
    if valid_char(u) && name_bytes(text).len() < LEVEL_NAME_LEN {
        text.push(u)
    } else if u == BACKSPACE && text.len() > 0 {
        text.drop_last()
    } else {
        text
    }
}

/// The column of the glyph that stands for characters without one.
pub const GLYPH_UNKNOWN: u8 = 25;

/// Where the glyph of a character stands in the font, by column and row:
/// the digits and the punctuation in the upper row, the letters in the lower
/// one. The space has no glyph; any other character that no name may hold
/// has the glyph at `GLYPH_UNKNOWN`.
pub open spec fn glyph_of(c: char) -> Option<(u8, u8)> {
    if c == ' ' {
        None
    } else if 'A' <= c <= 'Z' {
        Some(((c as u8 - 65) as u8, 1u8))
    } else if '0' <= c <= '9' {
        Some(((c as u8 - 48) as u8, 0u8))
    } else if c == '_' {
        Some((10u8, 0u8))
    } else if c == '?' {
        Some((11u8, 0u8))
    } else if c == '!' {
        Some((12u8, 0u8))
    } else if c == '*' {
        Some((13u8, 0u8))
    } else if c == ':' {
        Some((14u8, 0u8))
    } else if c == '-' {
        Some((15u8, 0u8))
    } else if c == '+' {
        Some((16u8, 0u8))
    } else if c == '/' {
        Some((17u8, 0u8))
    } else if c == '(' {
        Some((18u8, 0u8))
    } else if c == ')' {
        Some((19u8, 0u8))
    } else if c == '[' {
        Some((20u8, 0u8))
    } else if c == ']' {
        Some((21u8, 0u8))
    } else if c == '.' {
        Some((22u8, 0u8))
    } else if c == ',' {
        Some((23u8, 0u8))
    } else if c == '\'' {
        Some((24u8, 0u8))
    } else {
        Some((GLYPH_UNKNOWN, 0u8))
    }
}

/// Where the glyph of a character stands in the font.
pub fn glyph_cell(c: char) -> (r: Option<(u8, u8)>)
    ensures
        r == glyph_of(c),
{
    if c == ' ' {
        None
    } else if 'A' <= c && c <= 'Z' {
        Some((c as u8 - 65, 1))
    } else if '0' <= c && c <= '9' {
        Some((c as u8 - 48, 0))
    } else {
        let column: u8 = match c {
            '_' => 10,
            '?' => 11,
            '!' => 12,
            '*' => 13,
            ':' => 14,
            '-' => 15,
            '+' => 16,
            '/' => 17,
            '(' => 18,
            ')' => 19,
            '[' => 20,
            ']' => 21,
            '.' => 22,
            ',' => 23,
            '\'' => 24,
            _ => GLYPH_UNKNOWN,
        };
        Some((column, 0))
    }
}

/// Every character that a name may hold, but for the space, has a glyph of
/// its own, and no two of them share one.
pub proof fn law_valid_chars_have_glyphs(a: char, b: char)
    requires
        valid_char(a),
        valid_char(b),
        a != ' ',
        b != ' ',
    ensures
        glyph_of(a).is_some(),
        glyph_of(a) != Some((GLYPH_UNKNOWN, 0u8)),
        a != b ==> glyph_of(a) != glyph_of(b),
{
}

/// Whether a name may hold a character.
pub fn char_valid(c: char) -> (r: bool)
    ensures
        r == valid_char(c),
{
    ('A' <= c && c <= 'Z') || ('0' <= c && c <= '9') || c == ' ' || c == '_' || c == '?' || c == '!' || c
        == '*' || c == ':' || c == '-' || c == '+' || c == '/' || c == '(' || c == ')' || c == '[' || c
        == ']' || c == '.' || c == ',' || c == '\''
}

/// A character with the letters `a` to `z` in upper case.
pub fn to_upper(c: char) -> (r: char)
    ensures
        r == upper(c),
{
    if 'a' <= c && c <= 'z' {
        ((c as u8) - 32) as char
    } else {
        c
    }
}

/// Adds a character to a string, by `String::push`: the string then holds
/// the characters it held, and the new one after them.
#[verifier::external_body]
pub(crate) fn push_char(text: &mut String, c: char)
    ensures
        final(text)@ == old(text)@.push(c),
{
    text.push(c)
}

/// Takes the last character off a string, by `String::pop`: the string then
/// holds all but its last character; an empty string stays empty.
#[verifier::external_body]
pub(crate) fn pop_char(text: &mut String)
    ensures
        old(text)@.len() > 0 ==> final(text)@ == old(text)@.drop_last(),
        old(text)@.len() == 0 ==> final(text)@ == old(text)@,
{
    text.pop();
}

/// Edits a name by one typed character and says whether the character ends
/// the editing, as the return character does.
pub fn type_char(text: &mut String, c: char) -> (done: bool)
    ensures
        final(text)@ == after_key(old(text)@, c),
        done == (upper(c) == RETURN),
{
    let u = to_upper(c);
    if char_valid(u) && text.as_str().as_bytes().len() < LEVEL_NAME_LEN {
        push_char(text, u);
    } else if u == BACKSPACE {
        pop_char(text);
    }
    u == RETURN
}

/// How many underscores fill a name field up behind a name.
pub fn blanks(text: &String) -> (r: usize)
    ensures
        r == if name_bytes(text@).len() >= LEVEL_NAME_LEN {
            0
        } else {
            LEVEL_NAME_LEN - name_bytes(text@).len()
        },
{
    LEVEL_NAME_LEN.saturating_sub(text.as_str().as_bytes().len())
}

} // verus!
