//! The types of a contract's interface: how the types of a method's
//! arguments are written in the interface, and the selector by which the
//! method is called.

use vstd::prelude::*;
use vstd::string::*;
use crate::gas::same_text;
use crate::naming::{camel_case_of, rename, string_push, InterfaceNamingStyle};
use crate::outcome::selector_of;
use crate::testkit::get_selector_from_sig;

verus! {

broadcast use vstd::std_specs::vec::axiom_vec_index_decreases;

/// A type of the interface.
#[derive(Debug, PartialEq, Eq)]
pub enum SolType {
    Address,
    Function,
    Bool,
    String,
    Bytes,
    /// Bytes of a fixed number, from 1 to 32.
    FixedBytes(usize),
    /// An unsigned integer of so many bits.
    Uint(usize),
    /// A signed integer of so many bits.
    Int(usize),
    /// A list of any length.
    Array(Box<SolType>),
    /// A list of a fixed length.
    FixedArray(Box<SolType>, usize),
    /// A tuple.
    Tuple(Vec<SolType>),
}

/// The decimal digits of a number.
pub open spec fn decimal_of(n: nat) -> Seq<char>
    decreases n,
{
    if n < 10 {
        seq![(('0' as u8) + n) as char]
    } else {
        decimal_of(n / 10).push((('0' as u8) + n % 10) as char)
    }
}

/// The name of a type as the interface writes it.
pub open spec fn sol_name_of(t: SolType) -> Seq<char>
    decreases t,
{
    match t {
        SolType::Address => "address"@,
        SolType::Function => "function"@,
        SolType::Bool => "bool"@,
        SolType::String => "string"@,
        SolType::Bytes => "bytes"@,
        SolType::FixedBytes(n) => "bytes"@ + decimal_of(n as nat),
        SolType::Uint(n) => "uint"@ + decimal_of(n as nat),
        SolType::Int(n) => "int"@ + decimal_of(n as nat),
        SolType::Array(inner) => sol_name_of(*inner) + "[]"@,
        SolType::FixedArray(inner, n) => sol_name_of(*inner) + "["@ + decimal_of(n as nat) + "]"@,
        SolType::Tuple(items) => "("@ + sol_names_of(items, items@.len() as int) + ")"@,
    }
}

/// The names of the first `n` of the types, with commas between them.
pub open spec fn sol_names_of(items: Vec<SolType>, n: int) -> Seq<char>
    decreases items, n,
{
    if n <= 0 || n > items@.len() {
        Seq::empty()
    } else if n == 1 {
        sol_name_of(items@[0])
    } else {
        sol_names_of(items, n - 1) + ","@ + sol_name_of(items@[n - 1])
    }
}

/// Appends the decimal digits of a number to a text.
pub fn push_decimal(out: &mut String, n: u64)
    ensures
        final(out)@ == old(out)@ + decimal_of(n as nat),
    decreases n,
{
    if n >= 10 {
        push_decimal(out, n / 10);
    }
    let digit: u8 = (n % 10) as u8;
    string_push(out, (48u8 + digit) as char);
    assert(out@ =~= old(out)@ + decimal_of(n as nat));
}

/// Appends the name of a type to a text.
pub fn push_sol_name(out: &mut String, t: &SolType)
    ensures
        final(out)@ == old(out)@ + sol_name_of(*t),
    decreases t,
{
    match t {
        SolType::Address => {
            out.append("address");
        },
        SolType::Function => {
            out.append("function");
        },
        SolType::Bool => {
            out.append("bool");
        },
        SolType::String => {
            out.append("string");
        },
        SolType::Bytes => {
            out.append("bytes");
        },
        SolType::FixedBytes(n) => {
            out.append("bytes");
            push_decimal(out, *n as u64);
            assert(out@ =~= old(out)@ + sol_name_of(*t));
        },
        SolType::Uint(n) => {
            out.append("uint");
            push_decimal(out, *n as u64);
            assert(out@ =~= old(out)@ + sol_name_of(*t));
        },
        SolType::Int(n) => {
            out.append("int");
            push_decimal(out, *n as u64);
            assert(out@ =~= old(out)@ + sol_name_of(*t));
        },
        SolType::Array(inner) => {
            push_sol_name(out, inner);
            out.append("[]");
            assert(out@ =~= old(out)@ + sol_name_of(*t));
        },
        SolType::FixedArray(inner, n) => {
            push_sol_name(out, inner);
            out.append("[");
            push_decimal(out, *n as u64);
            out.append("]");
            assert(out@ =~= old(out)@ + sol_name_of(*t));
        },
        SolType::Tuple(items) => {
            out.append("(");
            let ghost open = out@;
            let mut i: usize = 0;
            assert(out@ =~= open + sol_names_of(*items, 0));
            while i < items.len()
                invariant
                    i <= items@.len(),
                    decreases_to!(t => items),
                    out@ == open + sol_names_of(*items, i as int),
                decreases items@.len() - i,
            {
                let ghost before = out@;
                if i > 0 {
                    out.append(",");
                }
                proof {
                    assert(decreases_to!(items => items[i as int]));
                }
                push_sol_name(out, &items[i]);
                i += 1;
                assert(out@ =~= open + sol_names_of(*items, i as int));
            }
            out.append(")");
            assert(out@ =~= old(out)@ + sol_name_of(*t));
        },
    }
}

/// The name of a type as the interface writes it.
pub fn sol_type_name(t: &SolType) -> (name: String)
    ensures
        name@ == sol_name_of(*t),
{
    let mut name = String::new();
    push_sol_name(&mut name, t);
    assert(name@ =~= sol_name_of(*t));
    name
}

/// The length of an array type as its source states it.
#[derive(Debug, PartialEq, Eq)]
pub enum ArrayLen {
    /// An integer literal, with its decimal digits.
    Int(String),
    /// Another literal.
    OtherLiteral,
    /// Any other expression.
    Expression,
}

/// The type of an argument as its source states it.
#[derive(Debug, PartialEq, Eq)]
pub enum RustType {
    /// A path without generic arguments, with the last of its names.
    Path { name: String },
    /// A path with generic arguments in angle brackets, with the last of its
    /// names and the first argument, which is a type, if there is one.
    Generic { name: String, first: Option<Box<RustType>> },
    /// A path with generic arguments in angle brackets of which the first is
    /// no type.
    GenericOther { name: String },
    /// A path without names.
    EmptyPath,
    /// An array.
    Array { elem: Box<RustType>, len: ArrayLen },
    /// A tuple.
    Tuple(Vec<RustType>),
    /// Any other type.
    Other,
}

/// Whether a character is a decimal digit.
pub open spec fn is_digit(c: char) -> bool {
    '0' <= c <= '9'
}

/// The number that a decimal digit stands for.
pub open spec fn digit_of(c: char) -> nat {
    if is_digit(c) {
        ((c as u8) - 48) as nat
    } else {
        0
    }
}

/// Whether every character of a text is a decimal digit.
pub open spec fn all_digits(text: Seq<char>) -> bool {
    forall|i: int| 0 <= i < text.len() ==> is_digit(#[trigger] text[i])
}

/// The number that decimal digits stand for.
pub open spec fn digits_value(text: Seq<char>) -> nat
    decreases text.len(),
{
    if text.len() == 0 {
        0
    } else {
        digits_value(text.drop_last()) * 10 + digit_of(text.last())
    }
}

/// A text without the `+` that it may begin with.
pub open spec fn unsigned_part(text: Seq<char>) -> Seq<char> {
    if text.len() > 0 && text[0] == '+' {
        text.subrange(1, text.len() as int)
    } else {
        text
    }
}

/// The number that a text stands for as a `u64`: after a `+` that it may
/// begin with, it holds decimal digits, at least one, and nothing else, and
/// their number fits 64 bits. This is what `str::parse` reads from it.
pub open spec fn parsed_u64_of(text: Seq<char>) -> Option<u64> {
    let digits = unsigned_part(text);
    if digits.len() > 0 && all_digits(digits) && digits_value(digits) <= u64::MAX {
        Some(digits_value(digits) as u64)
    } else {
        None
    }
}

/// The first digits of a number stand for no more than all of them.
pub proof fn lemma_digits_prefix(digits: Seq<char>, k: int)
    requires
        0 <= k <= digits.len(),
    ensures
        digits_value(digits.subrange(0, k)) <= digits_value(digits),
    decreases digits.len() - k,
{
    if k < digits.len() {
        assert(digits.subrange(0, k + 1).drop_last() =~= digits.subrange(0, k));
        lemma_digits_prefix(digits, k + 1);
    } else {
        assert(digits.subrange(0, k) =~= digits);
    }
}

/// The number that a text stands for as a `u64`.
pub fn parse_u64(text: &str) -> (r: Option<u64>)
    ensures
        r == parsed_u64_of(text@),
{
    let n = text.unicode_len();
    let start: usize = if n > 0 && text.get_char(0) == '+' {
        1
    } else {
        0
    };
    if start == n {
        return None;
    }
    let ghost digits = unsigned_part(text@);
    let mut value: u64 = 0;
    let mut i: usize = start;
    proof {
        assert(digits.subrange(0, 0) =~= Seq::<char>::empty());
    }
    while i < n
        invariant
            start <= i <= n,
            n == text@.len(),
            digits == unsigned_part(text@),
            digits.len() == n - start,
            forall|j: int| 0 <= j < digits.len() ==> digits[j] == text@[start + j],
            all_digits(digits.subrange(0, i - start)),
            value == digits_value(digits.subrange(0, i - start)),
        decreases n - i,
    {
        let c = text.get_char(i);
        if c < '0' || c > '9' {
            assert(!is_digit(digits[i - start]));
            return None;
        }
        let digit: u64 = ((c as u8) - 48) as u64;
        proof {
            let next = digits.subrange(0, i - start + 1);
            assert(next.drop_last() =~= digits.subrange(0, i - start));
            assert(next.last() == c);
            assert(digits_value(next) == value * 10 + digit);
            assert forall|j: int| 0 <= j < next.len() implies is_digit(#[trigger] next[j]) by {
                if j < i - start {
                    assert(digits.subrange(0, i - start)[j] == next[j]);
                }
            }
            lemma_digits_prefix(digits, i - start + 1);
        }
        if value > (u64::MAX - digit) / 10 {
            return None;
        }
        value = value * 10 + digit;
        i += 1;
    }
    assert(digits.subrange(0, n - start) =~= digits);
    Some(value)
}

/// The index of the first character of a text that is not `c`, or the length
/// of the text where all are.
pub open spec fn leading(text: Seq<char>, c: char, from: int) -> int
    decreases text.len() - from,
{
    if from < 0 || from >= text.len() {
        text.len() as int
    } else if text[from] != c {
        from
    } else {
        leading(text, c, from + 1)
    }
}

/// A text without the characters `c` that it begins with.
pub open spec fn without_leading(text: Seq<char>, c: char) -> Seq<char> {
    text.subrange(leading(text, c, 0), text.len() as int)
}

/// A text without the characters `c` that it begins with.
pub fn trim_leading<'a>(text: &'a str, c: char) -> (r: &'a str)
    ensures
        r@ == without_leading(text@, c),
{
    let n = text.unicode_len();
    let mut i: usize = 0;
    while i < n && text.get_char(i) == c
        invariant
            i <= n,
            n == text@.len(),
            leading(text@, c, 0) == leading(text@, c, i as int),
        decreases n - i,
    {
        i += 1;
    }
    text.substring_char(i, n)
}

/// Whether a text begins with the character `c`.
pub fn begins_with(text: &str, c: char) -> (r: bool)
    ensures
        r == (text@.len() > 0 && text@[0] == c),
{
    text.unicode_len() > 0 && text.get_char(0) == c
}

/// What the name of a type stands for by itself.
pub enum Leaf {
    /// A type of the interface.
    Is(SolType),
    /// A name that begins like a sized type and is none; the text says why.
    Invalid(Seq<char>),
    /// Nothing.
    Unknown,
}

/// The size that follows the letter `c` at the beginning of a name.
pub open spec fn size_after(name: Seq<char>, c: char) -> Option<u64> {
    parsed_u64_of(without_leading(name, c))
}

/// What the name of a type stands for by itself: a fixed name, or a letter
/// and a size.
pub open spec fn leaf_of(name: Seq<char>) -> Leaf {
    if name == "Address"@ {
        Leaf::Is(SolType::Address)
    } else if name == "Function"@ {
        Leaf::Is(SolType::Function)
    } else if name == "bool"@ || name == "Bool"@ {
        Leaf::Is(SolType::Bool)
    } else if name == "String"@ || name == "str"@ {
        Leaf::Is(SolType::String)
    } else if name == "Bytes"@ {
        Leaf::Is(SolType::Bytes)
    } else if name.len() > 0 && name[0] == 'B' {
        match size_after(name, 'B') {
            None => Leaf::Invalid("Invalid fixed bytes size"@),
            Some(size) => if 0 < size <= 32 {
                Leaf::Is(SolType::FixedBytes(size as usize))
            } else {
                Leaf::Invalid("Invalid fixed bytes size (between 1-32)"@)
            },
        }
    } else if name.len() > 0 && name[0] == 'U' {
        match size_after(name, 'U') {
            None => Leaf::Invalid("Invalid uint size"@),
            Some(size) => if 0 < size <= 256 && size % 8 == 0 {
                Leaf::Is(SolType::Uint(size as usize))
            } else {
                Leaf::Invalid("Invalid uint size (multiple of 8 + leq 256)"@)
            },
        }
    } else if name.len() > 0 && name[0] == 'I' {
        match size_after(name, 'I') {
            None => Leaf::Invalid("Invalid int size"@),
            Some(size) => if 0 < size <= 256 && size % 8 == 0 {
                Leaf::Is(SolType::Int(size as usize))
            } else {
                Leaf::Invalid("Invalid int size (must be multiple of 8, max 256)"@)
            },
        }
    } else {
        Leaf::Unknown
    }
}

/// Whether a result is what the name of a type stands for by itself; `None`
/// says that it stands for nothing.
pub open spec fn is_leaf_result(r: Option<Result<SolType, &'static str>>, leaf: Leaf) -> bool {
    match leaf {
        Leaf::Is(t) => r == Some(Ok::<SolType, &'static str>(t)),
        Leaf::Invalid(why) => r matches Some(Err(e)) && e@ == why,
        Leaf::Unknown => r.is_none(),
    }
}

/// What the name of a type stands for by itself; `None` where it stands for
/// nothing.
pub fn leaf_type(name: &str) -> (r: Option<Result<SolType, &'static str>>)
    ensures
        is_leaf_result(r, leaf_of(name@)),
{
    if same_text(name, "Address") {
        Some(Ok(SolType::Address))
    } else if same_text(name, "Function") {
        Some(Ok(SolType::Function))
    } else if same_text(name, "bool") || same_text(name, "Bool") {
        Some(Ok(SolType::Bool))
    } else if same_text(name, "String") || same_text(name, "str") {
        Some(Ok(SolType::String))
    } else if same_text(name, "Bytes") {
        Some(Ok(SolType::Bytes))
    } else if begins_with(name, 'B') {
        match parse_u64(trim_leading(name, 'B')) {
            None => Some(Err("Invalid fixed bytes size")),
            Some(size) => if size > 0 && size <= 32 {
                Some(Ok(SolType::FixedBytes(size as usize)))
            } else {
                Some(Err("Invalid fixed bytes size (between 1-32)"))
            },
        }
    } else if begins_with(name, 'U') {
        match parse_u64(trim_leading(name, 'U')) {
            None => Some(Err("Invalid uint size")),
            Some(size) => if size > 0 && size <= 256 && size % 8 == 0 {
                Some(Ok(SolType::Uint(size as usize)))
            } else {
                Some(Err("Invalid uint size (multiple of 8 + leq 256)"))
            },
        }
    } else if begins_with(name, 'I') {
        match parse_u64(trim_leading(name, 'I')) {
            None => Some(Err("Invalid int size")),
            Some(size) => if size > 0 && size <= 256 && size % 8 == 0 {
                Some(Ok(SolType::Int(size as usize)))
            } else {
                Some(Err("Invalid int size (must be multiple of 8, max 256)"))
            },
        }
    } else {
        None
    }
}

/// Why the length of an array cannot be used, if it cannot.
pub open spec fn array_len_error(len: ArrayLen) -> Option<Seq<char>> {
    match len {
        ArrayLen::Int(digits) => match parsed_u64_of(digits@) {
            Some(n) => if n <= usize::MAX {
                None
            } else {
                Some("Invalid array size"@)
            },
            None => Some("Invalid array size"@),
        },
        ArrayLen::OtherLiteral => Some("Invalid array size literal"@),
        ArrayLen::Expression => Some("Invalid array size expression"@),
    }
}

/// Why a path with the given name is no type of the interface, if it is
/// none; `generic` says why a name that stands for nothing by itself is
/// none.
pub open spec fn path_error(name: Seq<char>, unknown: Option<Seq<char>>) -> Option<Seq<char>> {
    match leaf_of(name) {
        Leaf::Is(_) => None,
        Leaf::Invalid(why) => Some(why),
        Leaf::Unknown => unknown,
    }
}

/// Why a type has no counterpart in the interface, if it has none: the
/// first reason that is met when the type is gone through from left to
/// right, the parts of a type before the type itself.
pub open spec fn conversion_error(ty: RustType) -> Option<Seq<char>>
    decreases ty,
{
    match ty {
        RustType::EmptyPath => Some("Empty type path"@),
        RustType::Other => Some("Unsupported type"@),
        RustType::Path { name } => path_error(name@, Some("Unsupported type"@)),
        RustType::Generic { name, first } => path_error(
            name@,
            if name@ == "Vec"@ {
                match first {
                    None => Some("Empty Vec type argument"@),
                    Some(inner) => conversion_error(*inner),
                }
            } else {
                Some("Unsupported generic type"@)
            },
        ),
        RustType::GenericOther { name } => path_error(
            name@,
            if name@ == "Vec"@ {
                Some("Invalid Vec type argument"@)
            } else {
                Some("Unsupported generic type"@)
            },
        ),
        RustType::Array { elem, len } => match conversion_error(*elem) {
            Some(why) => Some(why),
            None => array_len_error(len),
        },
        RustType::Tuple(items) => first_error(items, items@.len() as int),
    }
}

/// The first reason why one of the first `n` types has no counterpart in the
/// interface, if one has none.
pub open spec fn first_error(items: Vec<RustType>, n: int) -> Option<Seq<char>>
    decreases items, n,
{
    if n <= 0 || n > items@.len() {
        None
    } else {
        match first_error(items, n - 1) {
            Some(why) => Some(why),
            None => conversion_error(items@[n - 1]),
        }
    }
}

/// Whether `t` is the counterpart of a type in the interface.
pub open spec fn is_sol_type_of(ty: RustType, t: SolType) -> bool
    decreases ty,
{
    match ty {
        RustType::EmptyPath => false,
        RustType::Other => false,
        RustType::Path { name } => leaf_of(name@) == Leaf::Is(t),
        RustType::Generic { name, first } => match leaf_of(name@) {
            Leaf::Is(leaf) => leaf == t,
            Leaf::Invalid(_) => false,
            Leaf::Unknown => {
                &&& name@ == "Vec"@
                &&& first matches Some(inner)
                &&& t matches SolType::Array(of)
                &&& is_sol_type_of(*inner, *of)
            },
        },
        RustType::GenericOther { name } => leaf_of(name@) == Leaf::Is(t),
        RustType::Array { elem, len } => {
            &&& t matches SolType::FixedArray(of, size)
            &&& is_sol_type_of(*elem, *of)
            &&& len matches ArrayLen::Int(digits)
            &&& parsed_u64_of(digits@) == Some(size as u64)
        },
        RustType::Tuple(items) => {
            &&& t matches SolType::Tuple(types)
            &&& types@.len() == items@.len()
            &&& forall|i: int|
                0 <= i < items@.len() ==> is_sol_type_of(items@[i], #[trigger] types@[i])
        },
    }
}

/// Whether a result is the outcome of looking for the counterpart of a type
/// in the interface.
pub open spec fn is_conversion(ty: RustType, r: Result<SolType, &'static str>) -> bool {
    match r {
        Ok(t) => conversion_error(ty).is_none() && is_sol_type_of(ty, t),
        Err(e) => conversion_error(ty) == Some(e@),
    }
}

/// The outcome for a path whose name stands for something by itself, or
/// `unknown` where it stands for nothing.
fn path_type(name: &str, unknown: Result<SolType, &'static str>) -> (r: Result<
    SolType,
    &'static str,
>)
    ensures
        match leaf_of(name@) {
            Leaf::Is(t) => r == Ok::<SolType, &'static str>(t),
            Leaf::Invalid(why) => r matches Err(e) && e@ == why,
            Leaf::Unknown => r == unknown,
        },
{
    match leaf_type(name) {
        Some(r) => r,
        None => unknown,
    }
}

/// The length of an array.
fn array_len(len: &ArrayLen) -> (r: Result<usize, &'static str>)
    ensures
        match r {
            Ok(n) => {
                &&& array_len_error(*len).is_none()
                &&& len matches ArrayLen::Int(digits)
                &&& parsed_u64_of(digits@) == Some(n as u64)
            },
            Err(e) => array_len_error(*len) == Some(e@),
        },
{
    match len {
        ArrayLen::Int(digits) => match parse_u64(digits.as_str()) {
            Some(n) => if n <= usize::MAX as u64 {
                Ok(n as usize)
            } else {
                Err("Invalid array size")
            },
            None => Err("Invalid array size"),
        },
        ArrayLen::OtherLiteral => Err("Invalid array size literal"),
        ArrayLen::Expression => Err("Invalid array size expression"),
    }
}

/// The counterpart of a type in the interface, or the reason why it has
/// none.
pub fn rust_type_to_sol_type(ty: &RustType) -> (r: Result<SolType, &'static str>)
    ensures
        is_conversion(*ty, r),
    decreases ty,
{
    match ty {
        RustType::EmptyPath => Err("Empty type path"),
        RustType::Other => Err("Unsupported type"),
        RustType::Path { name } => path_type(name.as_str(), Err("Unsupported type")),
        RustType::Generic { name, first } => {
            let unknown = if same_text(name.as_str(), "Vec") {
                match first {
                    None => Err("Empty Vec type argument"),
                    Some(inner) => match rust_type_to_sol_type(inner) {
                        Ok(of) => Ok(SolType::Array(Box::new(of))),
                        Err(e) => Err(e),
                    },
                }
            } else {
                Err("Unsupported generic type")
            };
            path_type(name.as_str(), unknown)
        },
        RustType::GenericOther { name } => {
            let unknown = if same_text(name.as_str(), "Vec") {
                Err("Invalid Vec type argument")
            } else {
                Err("Unsupported generic type")
            };
            path_type(name.as_str(), unknown)
        },
        RustType::Array { elem, len } => {
            let of = match rust_type_to_sol_type(elem) {
                Ok(of) => of,
                Err(e) => {
                    return Err(e);
                },
            };
            match array_len(len) {
                Ok(size) => Ok(SolType::FixedArray(Box::new(of), size)),
                Err(e) => Err(e),
            }
        },
        RustType::Tuple(items) => {
            let mut types: Vec<SolType> = Vec::new();
            let mut i: usize = 0;
            while i < items.len()
                invariant
                    i <= items@.len(),
                    decreases_to!(ty => items),
                    *ty == RustType::Tuple(*items),
                    types@.len() == i,
                    first_error(*items, i as int).is_none(),
                    forall|j: int| 0 <= j < i ==> is_sol_type_of(items@[j], #[trigger] types@[j]),
                decreases items@.len() - i,
            {
                proof {
                    assert(decreases_to!(items => items[i as int]));
                }
                match rust_type_to_sol_type(&items[i]) {
                    Ok(t) => {
                        types.push(t);
                    },
                    Err(e) => {
                        assert(first_error(*items, i + 1) == Some(e@));
                        proof {
                            lemma_first_error_stays(*items, i + 1, items@.len() as int);
                        }
                        return Err(e);
                    },
                }
                i += 1;
            }
            Ok(SolType::Tuple(types))
        },
    }
}

/// A reason that was met among the first `n` types is still the first
/// reason among more of them.
pub proof fn lemma_first_error_stays(items: Vec<RustType>, n: int, m: int)
    requires
        0 <= n <= m <= items@.len(),
        first_error(items, n).is_some(),
    ensures
        first_error(items, m) == first_error(items, n),
    decreases m - n,
{
    if n < m {
        lemma_first_error_stays(items, n, m - 1);
    }
}

/// The name of the counterpart of a type in the interface; the empty text
/// for a type without counterpart.
pub open spec fn interface_name_of(ty: RustType) -> Seq<char>
    decreases ty,
{
    match ty {
        RustType::EmptyPath => Seq::empty(),
        RustType::Other => Seq::empty(),
        RustType::Path { name } => leaf_name(name@, Seq::empty()),
        RustType::Generic { name, first } => leaf_name(
            name@,
            match first {
                Some(inner) => if name@ == "Vec"@ {
                    interface_name_of(*inner) + "[]"@
                } else {
                    Seq::empty()
                },
                None => Seq::empty(),
            },
        ),
        RustType::GenericOther { name } => leaf_name(name@, Seq::empty()),
        RustType::Array { elem, len } => match len {
            ArrayLen::Int(digits) => match parsed_u64_of(digits@) {
                Some(size) => interface_name_of(*elem) + "["@ + decimal_of(size as nat) + "]"@,
                None => Seq::empty(),
            },
            _ => Seq::empty(),
        },
        RustType::Tuple(items) => "("@ + interface_names_of(items, items@.len() as int) + ")"@,
    }
}

/// The name of the type that a name stands for by itself, or `unknown`
/// where it stands for nothing.
pub open spec fn leaf_name(name: Seq<char>, unknown: Seq<char>) -> Seq<char> {
    match leaf_of(name) {
        Leaf::Is(t) => sol_name_of(t),
        Leaf::Invalid(_) => Seq::empty(),
        Leaf::Unknown => unknown,
    }
}

/// The names of the counterparts of the first `n` types, with commas
/// between them.
pub open spec fn interface_names_of(items: Vec<RustType>, n: int) -> Seq<char>
    decreases items, n,
{
    if n <= 0 || n > items@.len() {
        Seq::empty()
    } else if n == 1 {
        interface_name_of(items@[0])
    } else {
        interface_names_of(items, n - 1) + ","@ + interface_name_of(items@[n - 1])
    }
}

/// The counterpart of a type is written as the type's name in the interface.
pub proof fn lemma_name_of_counterpart(ty: RustType, t: SolType)
    requires
        is_sol_type_of(ty, t),
    ensures
        sol_name_of(t) == interface_name_of(ty),
    decreases ty,
{
    match ty {
        RustType::Generic { name, first } => {
            if leaf_of(name@) is Unknown {
                lemma_name_of_counterpart(*first->0, *t->Array_0);
            }
        },
        RustType::Array { elem, len } => {
            lemma_name_of_counterpart(*elem, *t->FixedArray_0);
        },
        RustType::Tuple(items) => {
            lemma_names_of_counterparts(items, t->Tuple_0, items@.len() as int);
        },
        _ => {},
    }
}

/// The counterparts of types are written as the types' names in the
/// interface.
pub proof fn lemma_names_of_counterparts(items: Vec<RustType>, types: Vec<SolType>, n: int)
    requires
        0 <= n <= items@.len(),
        types@.len() >= n,
        forall|i: int| 0 <= i < n ==> is_sol_type_of(items@[i], #[trigger] types@[i]),
    ensures
        sol_names_of(types, n) == interface_names_of(items, n),
    decreases items, n,
{
    if n > 0 {
        lemma_names_of_counterparts(items, types, n - 1);
        assert(is_sol_type_of(items@[n - 1], types@[n - 1]));
        lemma_name_of_counterpart(items@[n - 1], types@[n - 1]);
    }
}

/// What the interface needs to know of a method.
#[derive(Debug, PartialEq, Eq)]
pub struct MethodInfo {
    /// The name of the method.
    pub name: String,
    /// Whether the method takes the contract by a reference through which
    /// it can change it.
    pub is_mut: bool,
    /// The types of the arguments after the contract itself.
    pub args: Vec<RustType>,
}

/// The name of a method as the interface writes it in the given style.
pub open spec fn method_name_of(name: Seq<char>, style: Option<InterfaceNamingStyle>) -> Seq<char> {
    match style {
        Some(InterfaceNamingStyle::CamelCase) => camel_case_of(name),
        None => name,
    }
}

/// The signature of a method: its name, and in brackets the names of the
/// types of its arguments with commas between them.
pub open spec fn signature_of(method: MethodInfo, style: Option<InterfaceNamingStyle>) -> Seq<char> {
    method_name_of(method.name@, style) + "("@ + interface_names_of(
        method.args,
        method.args@.len() as int,
    ) + ")"@
}

impl MethodInfo {
    /// Whether the method can change the contract.
    pub fn is_mutable(&self) -> (r: bool)
        ensures
            r == self.is_mut,
    {
        self.is_mut
    }
}

/// The signature of a method, where all its arguments have a counterpart in
/// the interface.
pub fn fn_signature(method: &MethodInfo, style: Option<InterfaceNamingStyle>) -> (r: Option<String>)
    ensures
        r.is_some() == first_error(method.args, method.args@.len() as int).is_none(),
        r matches Some(sig) ==> sig@ == signature_of(*method, style),
{
    let mut sig = rename(method.name.clone(), style);
    sig.append("(");
    let ghost open = sig@;
    let args = &method.args;
    let mut i: usize = 0;
    assert(sig@ =~= open + interface_names_of(*args, 0));
    while i < args.len()
        invariant
            i <= args@.len(),
            *args == method.args,
            first_error(*args, i as int).is_none(),
            sig@ == open + interface_names_of(*args, i as int),
        decreases args@.len() - i,
    {
        match rust_type_to_sol_type(&args[i]) {
            Ok(t) => {
                proof {
                    lemma_name_of_counterpart(args@[i as int], t);
                }
                if i > 0 {
                    sig.append(",");
                }
                push_sol_name(&mut sig, &t);
            },
            Err(e) => {
                proof {
                    assert(first_error(*args, i + 1).is_some());
                    lemma_first_error_stays(*args, i + 1, args@.len() as int);
                }
                return None;
            },
        }
        i += 1;
        assert(sig@ =~= open + interface_names_of(*args, i as int));
    }
    sig.append(")");
    assert(sig@ =~= signature_of(*method, style));
    Some(sig)
}

/// The selector of a method: the first four bytes of the hash of its
/// signature. A method with an argument that has no counterpart in the
/// interface has none.
pub fn generate_fn_selector(method: &MethodInfo, style: Option<InterfaceNamingStyle>) -> (r: Option<
    [u8; 4],
>)
    ensures
        r.is_some() == first_error(method.args, method.args@.len() as int).is_none(),
        r matches Some(selector) ==> selector@ == selector_of(
            vstd::utf8::encode_utf8(signature_of(*method, style)),
        ),
{
    match fn_signature(method, style) {
        Some(sig) => Some(get_selector_from_sig(sig.as_str())),
        None => None,
    }
}

} // verus!
