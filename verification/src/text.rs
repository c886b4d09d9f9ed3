//! Identifiers as text: comparison and change of case.

use vstd::prelude::*;
use vstd::string::StringSliceAdditionalSpecFns;
use vstd::utf8::encode_utf8_decode_utf8;

verus! {

/// Whether two string slices hold the same characters.
///
/// The slices are compared byte by byte; that equal encodings mean equal
/// characters follows from decoding being the inverse of encoding.
pub fn str_eq(a: &str, b: &str) -> (equal: bool)
    ensures
        equal == (a@ == b@),
{
    let x = a.as_bytes();
    let y = b.as_bytes();
    proof {
        encode_utf8_decode_utf8(a@);
        encode_utf8_decode_utf8(b@);
    }
    if x.len() != y.len() {
        return false;
    }
    let mut i: usize = 0;
    while i < x.len()
        invariant
            i <= x.len(),
            x.len() == y.len(),
            x@ == a.spec_bytes(),
            y@ == b.spec_bytes(),
            forall|j: int| 0 <= j < i ==> x@[j] == y@[j],
        decreases x.len() - i,
    {
        if x[i] != y[i] {
            return false;
        }
        i += 1;
    }
    assert(x@ =~= y@);
    true
}

/// The upper case form of an ASCII lower case letter; any other character
/// as it is.
pub open spec fn ascii_uppercase(c: char) -> char {
    if 'a' <= c && c <= 'z' {
        ((c as u8) - 32) as char
    } else {
        c
    }
}

/// The words of a snake case identifier joined without the underscores
/// between them: every underscore is dropped and the character that
/// follows one is put into upper case, as is the first character if
/// `capitalize` says so.
pub open spec fn joined_words(text: Seq<char>, capitalize: bool) -> Seq<char>
    decreases text.len(),
{
    if text.len() == 0 {
        Seq::empty()
    } else if text[0] == '_' {
        joined_words(text.drop_first(), true)
    } else if capitalize {
        seq![ascii_uppercase(text[0])] + joined_words(text.drop_first(), false)
    } else {
        seq![text[0]] + joined_words(text.drop_first(), false)
    }
}

/// A snake case identifier in camel case: `number_changed` becomes
/// `numberChanged`.
pub open spec fn camel_case(text: Seq<char>) -> Seq<char> {
    joined_words(text, false)
}

/// A snake case identifier in Pascal case: `number_changed` becomes
/// `NumberChanged`.
pub open spec fn pascal_case(text: Seq<char>) -> Seq<char> {
    joined_words(text, true)
}

/// Appends `c` to `text` by `String::push`, which puts the given
/// character at the end of the string and changes nothing else.
#[verifier::external_body]
fn push_char(text: &mut String, c: char)
    ensures
        final(text)@ == old(text)@.push(c),
{
    text.push(c);
}

/// The upper case form of an ASCII lower case letter; any other character
/// as it is.
fn to_ascii_uppercase(c: char) -> (upper: char)
    ensures
        upper == ascii_uppercase(c),
{
    if 'a' <= c && c <= 'z' {
        ((c as u8) - 32) as char
    } else {
        c
    }
}

/// Joins the words of a snake case identifier.
fn join_words(text: &str, capitalize_first: bool) -> (joined: String)
    ensures
        joined@ == joined_words(text@, capitalize_first),
{
    let mut joined = String::new();
    let mut capitalize = capitalize_first;
    assert(text@.skip(0) =~= text@);
    for c in chars: text.chars()
        invariant
            chars.seq() == text@,
            joined@ + joined_words(text@.skip(chars.index() as int), capitalize) == joined_words(
                text@,
                capitalize_first,
            ),
    {
        let ghost rest = text@.skip(chars.index() as int);
        let ghost before = joined@;
        let ghost capitalized = capitalize;
        assert(rest.len() > 0 && rest[0] == c);
        assert(rest.drop_first() =~= text@.skip(chars.index() + 1));
        if c == '_' {
            capitalize = true;
        } else {
            if capitalize {
                push_char(&mut joined, to_ascii_uppercase(c));
            } else {
                push_char(&mut joined, c);
            }
            capitalize = false;
            assert(joined@ + joined_words(rest.drop_first(), false) =~= before + joined_words(
                rest,
                capitalized,
            ));
        }
    }
    assert(text@.skip(text@.len() as int) =~= Seq::<char>::empty());
    joined
}

/// Puts a snake case identifier into camel case.
pub fn to_camel_case(text: &str) -> (camel: String)
    ensures
        camel@ == camel_case(text@),
{
    join_words(text, false)
}

/// Puts a snake case identifier into Pascal case.
pub fn to_pascal_case(text: &str) -> (pascal: String)
    ensures
        pascal@ == pascal_case(text@),
{
    join_words(text, true)
}

} // verus!
