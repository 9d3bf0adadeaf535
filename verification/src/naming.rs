//! How the names of a contract's methods are written in its interface.

use vstd::prelude::*;
use vstd::string::*;

verus! {

/// A style of writing names.
#[derive(Clone, Copy, Debug, PartialEq, Eq, Structural)]
pub enum InterfaceNamingStyle {
    /// Words run together, each but the first beginning with a capital.
    CamelCase,
}

/// The arguments of an interface.
#[derive(Clone, Copy, Debug, PartialEq, Eq, Structural)]
pub struct InterfaceArgs {
    /// The style in which the names are to be written, if they are to be
    /// rewritten.
    pub rename: Option<InterfaceNamingStyle>,
}

/// Whether `char::is_alphanumeric` holds of a character.
pub uninterp spec fn is_alphanumeric_of(c: char) -> bool;

/// The lower-case form of an ASCII capital; any other character is left as
/// it is.
pub open spec fn ascii_lowercase_of(c: char) -> char {
    if 'A' <= c <= 'Z' {
        ((c as u8) + 32) as char
    } else {
        c
    }
}

/// The capital of a lower-case ASCII letter; any other character is left as
/// it is.
pub open spec fn ascii_uppercase_of(c: char) -> char {
    if 'a' <= c <= 'z' {
        ((c as u8) - 32) as char
    } else {
        c
    }
}

/// Calls `char::is_alphanumeric`; the contract only gives its result a name.
#[verifier::external_body]
fn char_is_alphanumeric(c: char) -> (b: bool)
    ensures
        b == is_alphanumeric_of(c),
{
    c.is_alphanumeric()
}

/// The lower-case form of an ASCII capital; any other character is left as
/// it is.
pub fn char_to_ascii_lowercase(c: char) -> (r: char)
    ensures
        r == ascii_lowercase_of(c),
{
    if 'A' <= c && c <= 'Z' {
        ((c as u8) + 32) as char
    } else {
        c
    }
}

/// The capital of a lower-case ASCII letter; any other character is left as
/// it is.
pub fn char_to_ascii_uppercase(c: char) -> (r: char)
    ensures
        r == ascii_uppercase_of(c),
{
    if 'a' <= c && c <= 'z' {
        ((c as u8) - 32) as char
    } else {
        c
    }
}

/// Calls `String::push`, which appends one character.
#[verifier::external_body]
pub(crate) fn string_push(s: &mut String, c: char)
    ensures
        final(s)@ == old(s)@.push(c),
{
    s.push(c);
}

/// The camel-case form of the first `n` characters of `s`, and whether the
/// next letter or digit is to be written as a capital.
pub open spec fn camel_prefix(s: Seq<char>, n: int) -> (Seq<char>, bool)
    decreases n,
{
    if n <= 0 {
        (Seq::empty(), false)
    } else {
        let (out, capitalize) = camel_prefix(s, n - 1);
        let c = s[n - 1];
        if !is_alphanumeric_of(c) {
            (out, true)
        } else if n == 1 {
            (out.push(ascii_lowercase_of(c)), capitalize)
        } else if capitalize {
            (out.push(ascii_uppercase_of(c)), false)
        } else {
            (out.push(c), capitalize)
        }
    }
}

/// The camel-case form of a name: what is neither letter nor digit is left
/// out, the letter or digit after it becomes a capital, and a first
/// character that is a letter becomes lower-case.
pub open spec fn camel_case_of(s: Seq<char>) -> Seq<char> {
    camel_prefix(s, s.len() as int).0
}

/// Writes a name in camel case.
pub fn to_camel_case(s: String) -> (result: String)
    ensures
        result@ == camel_case_of(s@),
{
    let name = s.as_str();
    let n = name.unicode_len();
    let mut result = String::new();
    let mut capitalize_next = false;
    let mut i: usize = 0;
    while i < n
        invariant
            i <= n,
            n == name@.len(),
            name@ == s@,
            camel_prefix(s@, i as int) == (result@, capitalize_next),
        decreases n - i,
    {
        let c = name.get_char(i);
        if char_is_alphanumeric(c) {
            if i == 0 {
                string_push(&mut result, char_to_ascii_lowercase(c));
            } else if capitalize_next {
                string_push(&mut result, char_to_ascii_uppercase(c));
                capitalize_next = false;
            } else {
                string_push(&mut result, c);
            }
        } else {
            capitalize_next = true;
        }
        i += 1;
    }
    result
}

/// Writes a name in the given style, or leaves it as it is where no style
/// is given.
pub fn rename(name: String, style: Option<InterfaceNamingStyle>) -> (result: String)
    ensures
        result@ == match style {
            Some(InterfaceNamingStyle::CamelCase) => camel_case_of(name@),
            None => name@,
        },
{
    match style {
        None => name,
        Some(InterfaceNamingStyle::CamelCase) => to_camel_case(name),
    }
}

/// What is said of a style that the interface does not know.
pub open spec fn unsupported_style(value: Seq<char>) -> Seq<char> {
    "unsupported style: "@ + value + ". Only 'camelCase' is supported"@
}

impl InterfaceArgs {
    /// The arguments of an interface from the style that its attribute
    /// names, if it names one. The only style is `camelCase`.
    pub fn parse(value: Option<&str>) -> (r: Result<InterfaceArgs, String>)
        ensures
            match value {
                None => r == Ok::<InterfaceArgs, String>(InterfaceArgs { rename: None }),
                Some(style) => if style@ == "camelCase"@ {
                    r == Ok::<InterfaceArgs, String>(
                        InterfaceArgs { rename: Some(InterfaceNamingStyle::CamelCase) },
                    )
                } else {
                    r matches Err(why) && why@ == unsupported_style(style@)
                },
            },
    {
        match value {
            None => Ok(InterfaceArgs { rename: None }),
            Some(style) => {
                if crate::gas::same_text(style, "camelCase") {
                    Ok(InterfaceArgs { rename: Some(InterfaceNamingStyle::CamelCase) })
                } else {
                    let mut why = String::from_str("unsupported style: ");
                    why.append(style);
                    why.append(". Only 'camelCase' is supported");
                    Err(why)
                }
            },
        }
    }
}

} // verus!
