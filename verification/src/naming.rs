//! Case conversion of wire names into target-language identifiers.
//!
//! The case conversions themselves are delegated to the `inflections` crate;
//! what this module proves is that every name handed to the emission layer is
//! a non-empty, valid identifier, whatever the conversion returned.

use vstd::prelude::*;

verus! {

/// Characters accepted in a target-language identifier: ASCII letters,
/// digits and underscore.
pub open spec fn is_ident_char(c: char) -> bool {
    ||| 97 <= c as u32 && c as u32 <= 122  // 'a' ..= 'z'
    ||| 65 <= c as u32 && c as u32 <= 90  // 'A' ..= 'Z'
    ||| 48 <= c as u32 && c as u32 <= 57  // '0' ..= '9'
    ||| c as u32 == 95  // '_'
}

pub open spec fn is_digit_char(c: char) -> bool {
    48 <= c as u32 && c as u32 <= 57
}

/// A non-empty run of identifier characters that does not begin with a digit.
pub open spec fn valid_identifier(s: Seq<char>) -> bool {
    &&& s.len() > 0
    &&& !is_digit_char(s[0])
    &&& forall|i: int| 0 <= i < s.len() ==> is_ident_char(#[trigger] s[i])
}

/// The reserved identifier that stands in for a wire name with no usable
/// characters at all.
pub open spec fn placeholder_name() -> Seq<char> {
    "unnamed"@
}

pub open spec fn ident_char_pred() -> spec_fn(char) -> bool {
    |c: char| is_ident_char(c)
}

/// What `sanitize_identifier` returns: the identifier characters of `s`,
/// guarded against an empty result and against a leading digit.
pub open spec fn ident_sanitized(s: Seq<char>) -> Seq<char> {
    let kept = s.filter(ident_char_pred());
    if kept.len() == 0 {
        placeholder_name()
    } else if is_digit_char(kept[0]) {
        seq!['_'] + kept
    } else {
        kept
    }
}

/// Name for the result of `inflections::case::to_pascal_case`.
pub uninterp spec fn pascal_cased(s: Seq<char>) -> Seq<char>;

/// Name for the result of `inflections::case::to_snake_case`.
pub uninterp spec fn snake_cased(s: Seq<char>) -> Seq<char>;

/// Name for the result of `inflections::case::to_constant_case`.
pub uninterp spec fn constant_cased(s: Seq<char>) -> Seq<char>;

/// Relies on `inflections::case::to_pascal_case`: the result depends on the
/// characters of `s` alone, and an empty string stays empty.
#[verifier::external_body]
fn pascal_case_raw(s: &str) -> (r: String)
    ensures
        r@ == pascal_cased(s@),
        s@.len() == 0 ==> r@.len() == 0,
{
    inflections::case::to_pascal_case(s)
}

/// Relies on `inflections::case::to_snake_case`: the result depends on the
/// characters of `s` alone, and an empty string stays empty.
#[verifier::external_body]
fn snake_case_raw(s: &str) -> (r: String)
    ensures
        r@ == snake_cased(s@),
        s@.len() == 0 ==> r@.len() == 0,
{
    inflections::case::to_snake_case(s)
}

/// Relies on `inflections::case::to_constant_case`: the result depends on the
/// characters of `s` alone, and an empty string stays empty.
#[verifier::external_body]
fn constant_case_raw(s: &str) -> (r: String)
    ensures
        r@ == constant_cased(s@),
        s@.len() == 0 ==> r@.len() == 0,
{
    inflections::case::to_constant_case(s)
}

/// Relies on std `String::push`: appends one character.
#[verifier::external_body]
fn push_char(s: &mut String, c: char)
    ensures
        final(s)@ == old(s)@.push(c),
{
    s.push(c);
}

fn is_ident_char_exec(c: char) -> (b: bool)
    ensures
        b == is_ident_char(c),
{
    let u = c as u32;
    (97 <= u && u <= 122) || (65 <= u && u <= 90) || (48 <= u && u <= 57) || u == 95
}

fn is_digit_char_exec(c: char) -> (b: bool)
    ensures
        b == is_digit_char(c),
{
    let u = c as u32;
    48 <= u && u <= 57
}

/// Every sanitized name is a valid identifier, placeholder included.
pub proof fn lemma_sanitized_valid(s: Seq<char>)
    ensures
        valid_identifier(ident_sanitized(s)),
{
    broadcast use vstd::seq_lib::group_filter_ensures;

    let pred = ident_char_pred();
    let kept = s.filter(pred);
    assert(kept.len() <= s.len());
    if kept.len() == 0 {
        reveal_strlit("unnamed");
        assert(placeholder_name().len() == 7);
        assert forall|i: int| 0 <= i < placeholder_name().len() implies is_ident_char(
            #[trigger] placeholder_name()[i],
        ) by {
            assert(placeholder_name()[0] == 'u');
            assert(placeholder_name()[1] == 'n');
            assert(placeholder_name()[2] == 'n');
            assert(placeholder_name()[3] == 'a');
            assert(placeholder_name()[4] == 'm');
            assert(placeholder_name()[5] == 'e');
            assert(placeholder_name()[6] == 'd');
        }
        assert(!is_digit_char(placeholder_name()[0]));
    } else {
        assert forall|i: int| 0 <= i < kept.len() implies is_ident_char(#[trigger] kept[i]) by {
            assert(pred(kept[i]));
        }
        if is_digit_char(kept[0]) {
            let guarded = seq!['_'] + kept;
            assert(guarded[0] == '_');
            assert forall|i: int| 0 <= i < guarded.len() implies is_ident_char(
                #[trigger] guarded[i],
            ) by {
                if i > 0 {
                    assert(guarded[i] == kept[i - 1]);
                }
            }
        }
    }
}

/// Restricts a converted name to identifier characters, falling back to the
/// placeholder when nothing is left and guarding a leading digit.
fn sanitize_identifier(s: &str) -> (r: String)
    ensures
        r@ == ident_sanitized(s@),
        valid_identifier(r@),
{
    let n = s.unicode_len();
    let mut kept = String::new();
    let mut i: usize = 0;
    while i < n
        invariant
            n == s@.len(),
            i <= n,
            kept@ == s@.take(i as int).filter(ident_char_pred()),
        decreases n - i,
    {
        let c = s.get_char(i);
        if is_ident_char_exec(c) {
            push_char(&mut kept, c);
        }
        proof {
            assert(s@.take(i + 1) =~= s@.take(i as int).push(s@[i as int]));
            s@.take(i as int).lemma_filter_push(s@[i as int], ident_char_pred());
            assert(kept@ == s@.take(i + 1).filter(ident_char_pred()));
        }
        i += 1;
    }
    proof {
        assert(s@.take(n as int) =~= s@);
        lemma_sanitized_valid(s@);
    }
    if kept.unicode_len() == 0 {
        String::from_str("unnamed")
    } else if is_digit_char_exec(kept.as_str().get_char(0)) {
        let mut guarded = String::from_str("_");
        guarded.append(kept.as_str());
        proof {
            reveal_strlit("_");
            assert(guarded@ =~= seq!['_'] + kept@);
        }
        guarded
    } else {
        kept
    }
}

/// What `to_struct_name` and `to_type_name` return.
pub open spec fn type_name_of(s: Seq<char>) -> Seq<char> {
    ident_sanitized(pascal_cased(s))
}

/// What `to_field_name` and `to_function_name` return.
pub open spec fn field_name_of(s: Seq<char>) -> Seq<char> {
    ident_sanitized(snake_cased(s))
}

/// What `to_variant_name` returns.
pub open spec fn variant_name_of(s: Seq<char>) -> Seq<char> {
    type_name_of(s)
}

/// What `to_constant_name` returns.
pub open spec fn constant_name_of(s: Seq<char>) -> Seq<char> {
    ident_sanitized(constant_cased(s))
}

/// PascalCase type name for a component, always a valid identifier.
pub fn to_struct_name(s: &str) -> (r: String)
    ensures
        r@ == type_name_of(s@),
        valid_identifier(r@),
{
    let converted = pascal_case_raw(s);
    sanitize_identifier(converted.as_str())
}

/// PascalCase name for an emitted type; same convention as `to_struct_name`.
pub fn to_type_name(s: &str) -> (r: String)
    ensures
        r@ == type_name_of(s@),
        valid_identifier(r@),
{
    to_struct_name(s)
}

/// snake_case name for an emitted field, total over every wire name.
pub fn to_field_name(s: &str) -> (r: String)
    ensures
        r@ == field_name_of(s@),
        valid_identifier(r@),
{
    let converted = snake_case_raw(s);
    sanitize_identifier(converted.as_str())
}

/// snake_case name for an emitted function; same convention as `to_field_name`.
pub fn to_function_name(s: &str) -> (r: String)
    ensures
        r@ == field_name_of(s@),
        valid_identifier(r@),
{
    to_field_name(s)
}

/// PascalCase name for an emitted enum variant.
pub fn to_variant_name(s: &str) -> (r: String)
    ensures
        r@ == variant_name_of(s@),
        valid_identifier(r@),
{
    to_struct_name(s)
}

/// CONSTANT_CASE name, used for status-code constants.
pub fn to_constant_name(s: &str) -> (r: String)
    ensures
        r@ == constant_name_of(s@),
        valid_identifier(r@),
{
    let converted = constant_case_raw(s);
    sanitize_identifier(converted.as_str())
}

/// Whether a serialization rename directive must accompany the converted
/// name to round-trip the original wire name.
pub fn needs_rename(wire_name: &str, converted: &String) -> (r: bool)
    ensures
        r == (wire_name@ != converted@),
{
    let original = String::from_str(wire_name);
    let same = original == *converted;
    !same
}

} // verus!
