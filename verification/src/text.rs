use vstd::prelude::*;

verus! {

/// Appends one character to a string.
///
/// Trusted: the body is a call of `String::push` from the standard library,
/// which is documented to append the given character to the end of the
/// string. The contract says exactly that, over the string's characters.
#[verifier::external_body]
pub(crate) fn push_char(text: &mut String, c: char)
    ensures
        final(text)@ == old(text)@.push(c),
{
    text.push(c);
}

/// The characters of a string, in order.
pub(crate) fn chars_of(text: &str) -> (chars: Vec<char>)
    ensures
        chars@ == text@,
{
    let mut chars: Vec<char> = Vec::new();
    for c in rest: text.chars()
        invariant
            rest.seq() == text@,
            chars@ == text@.take(rest.index() as int),
    {
        chars.push(c);
    }
    chars
}

/// The string made of the given characters, in order.
pub(crate) fn string_of(chars: &Vec<char>) -> (text: String)
    ensures
        text@ == chars@,
{
    let mut text = String::new();
    for c in rest: chars.iter()
        invariant
            rest.seq().len() == chars@.len(),
            forall|i: int| 0 <= i < chars@.len() ==> *rest.seq()[i] == chars@[i],
            text@ == chars@.take(rest.index() as int),
    {
        push_char(&mut text, *c);
    }
    text
}

} // verus!
