//! Unicode category handling utilities.
//!
//! Besides the shared [`CategoryAction`] type and the address override set,
//! this module exposes the general category of a code point as its
//! two-letter code, and the fixed category-to-action table used for
//! tokenization.

use vstd::prelude::*;

verus! {

use crate::ascii::spec_ascii_alphanumeric;
use crate::classify::{Category, char_category, spec_char_category};

/// What a single code point contributes during tokenization.
#[derive(Debug, Clone, Copy, PartialEq, Eq, Structural)]
pub enum CategoryAction {
    /// The character contributes nothing.
    Skip,
    /// The character is not kept, but ends the current token.
    Whitespace,
    /// The character is appended to the current token verbatim.
    Keep,
}

/// The address-mode override set: these characters are kept in normalized
/// addresses regardless of their Unicode general category.
pub open spec fn spec_address_allowed(c: char) -> bool {
    c == '&' || c == '№' || spec_ascii_alphanumeric(c)
}

/// A character is allowed in normalized addresses without modification:
/// ASCII alphanumerics and the literal characters `&` and `№`.
pub fn is_address_allowed_char(ch: char) -> (r: bool)
    ensures
        r == spec_address_allowed(ch),
{
    ch == '&' || ch == '№' || (('0' <= ch && ch <= '9') || ('A' <= ch && ch <= 'Z') || ('a' <= ch
        && ch <= 'z'))
}

/// The two-letter Unicode abbreviation of a general category.
pub open spec fn spec_category_code(cat: Category) -> Seq<char> {
    match cat {
        Category::Lu => "Lu"@,
        Category::Ll => "Ll"@,
        Category::Lt => "Lt"@,
        Category::Lm => "Lm"@,
        Category::Lo => "Lo"@,
        Category::Mn => "Mn"@,
        Category::Mc => "Mc"@,
        Category::Me => "Me"@,
        Category::Nd => "Nd"@,
        Category::Nl => "Nl"@,
        Category::No => "No"@,
        Category::Pc => "Pc"@,
        Category::Pd => "Pd"@,
        Category::Ps => "Ps"@,
        Category::Pe => "Pe"@,
        Category::Pi => "Pi"@,
        Category::Pf => "Pf"@,
        Category::Po => "Po"@,
        Category::Sm => "Sm"@,
        Category::Sc => "Sc"@,
        Category::Sk => "Sk"@,
        Category::So => "So"@,
        Category::Zs => "Zs"@,
        Category::Zl => "Zl"@,
        Category::Zp => "Zp"@,
        Category::Cc => "Cc"@,
        Category::Cf => "Cf"@,
        Category::Cs => "Cs"@,
        Category::Co => "Co"@,
        Category::Cn => "Cn"@,
    }
}

/// The fixed category-to-action table for tokenization: letters and decimal
/// or letter numbers are kept; separators, punctuation, math and other
/// symbols, spacing marks and controls break tokens; everything else is
/// dropped.
pub open spec fn spec_category_action(cat: Category) -> CategoryAction {
    match cat {
        Category::Lu => CategoryAction::Keep,
        Category::Ll => CategoryAction::Keep,
        Category::Lt => CategoryAction::Keep,
        Category::Lo => CategoryAction::Keep,
        Category::Nd => CategoryAction::Keep,
        Category::Nl => CategoryAction::Keep,
        Category::Lm => CategoryAction::Skip,
        Category::Mn => CategoryAction::Skip,
        Category::Mc => CategoryAction::Whitespace,
        Category::Me => CategoryAction::Skip,
        Category::No => CategoryAction::Skip,
        Category::Pc => CategoryAction::Whitespace,
        Category::Pd => CategoryAction::Whitespace,
        Category::Ps => CategoryAction::Whitespace,
        Category::Pe => CategoryAction::Whitespace,
        Category::Pi => CategoryAction::Whitespace,
        Category::Pf => CategoryAction::Whitespace,
        Category::Po => CategoryAction::Whitespace,
        Category::Sm => CategoryAction::Whitespace,
        Category::Sc => CategoryAction::Skip,
        Category::Sk => CategoryAction::Skip,
        Category::So => CategoryAction::Whitespace,
        Category::Zs => CategoryAction::Whitespace,
        Category::Zl => CategoryAction::Whitespace,
        Category::Zp => CategoryAction::Whitespace,
        Category::Cc => CategoryAction::Whitespace,
        Category::Cf => CategoryAction::Skip,
        Category::Cs => CategoryAction::Skip,
        Category::Co => CategoryAction::Skip,
        Category::Cn => CategoryAction::Skip,
    }
}

/// Get the Unicode general category for a character, as a two-letter
/// category code (e.g. `Lu`, `Nd`, `Po`).
pub fn get_category(ch: char) -> (r: String)
    ensures
        r@ == spec_category_code(spec_char_category(ch)),
{
    match char_category(ch) {
        Category::Lu => String::from_str("Lu"),
        Category::Ll => String::from_str("Ll"),
        Category::Lt => String::from_str("Lt"),
        Category::Lm => String::from_str("Lm"),
        Category::Lo => String::from_str("Lo"),
        Category::Mn => String::from_str("Mn"),
        Category::Mc => String::from_str("Mc"),
        Category::Me => String::from_str("Me"),
        Category::Nd => String::from_str("Nd"),
        Category::Nl => String::from_str("Nl"),
        Category::No => String::from_str("No"),
        Category::Pc => String::from_str("Pc"),
        Category::Pd => String::from_str("Pd"),
        Category::Ps => String::from_str("Ps"),
        Category::Pe => String::from_str("Pe"),
        Category::Pi => String::from_str("Pi"),
        Category::Pf => String::from_str("Pf"),
        Category::Po => String::from_str("Po"),
        Category::Sm => String::from_str("Sm"),
        Category::Sc => String::from_str("Sc"),
        Category::Sk => String::from_str("Sk"),
        Category::So => String::from_str("So"),
        Category::Zs => String::from_str("Zs"),
        Category::Zl => String::from_str("Zl"),
        Category::Zp => String::from_str("Zp"),
        Category::Cc => String::from_str("Cc"),
        Category::Cf => String::from_str("Cf"),
        Category::Cs => String::from_str("Cs"),
        Category::Co => String::from_str("Co"),
        Category::Cn => String::from_str("Cn"),
    }
}

/// Get the action to take for a character based on its Unicode general
/// category.
pub fn get_category_action(ch: char) -> (r: CategoryAction)
    ensures
        r == spec_category_action(spec_char_category(ch)),
{
    match char_category(ch) {
        Category::Lu => CategoryAction::Keep,
        Category::Ll => CategoryAction::Keep,
        Category::Lt => CategoryAction::Keep,
        Category::Lo => CategoryAction::Keep,
        Category::Nd => CategoryAction::Keep,
        Category::Nl => CategoryAction::Keep,
        Category::Lm => CategoryAction::Skip,
        Category::Mn => CategoryAction::Skip,
        Category::Mc => CategoryAction::Whitespace,
        Category::Me => CategoryAction::Skip,
        Category::No => CategoryAction::Skip,
        Category::Pc => CategoryAction::Whitespace,
        Category::Pd => CategoryAction::Whitespace,
        Category::Ps => CategoryAction::Whitespace,
        Category::Pe => CategoryAction::Whitespace,
        Category::Pi => CategoryAction::Whitespace,
        Category::Pf => CategoryAction::Whitespace,
        Category::Po => CategoryAction::Whitespace,
        Category::Sm => CategoryAction::Whitespace,
        Category::Sc => CategoryAction::Skip,
        Category::Sk => CategoryAction::Skip,
        Category::So => CategoryAction::Whitespace,
        Category::Zs => CategoryAction::Whitespace,
        Category::Zl => CategoryAction::Whitespace,
        Category::Zp => CategoryAction::Whitespace,
        Category::Cc => CategoryAction::Whitespace,
        Category::Cf => CategoryAction::Skip,
        Category::Cs => CategoryAction::Skip,
        Category::Co => CategoryAction::Skip,
        Category::Cn => CategoryAction::Skip,
    }
}

} // verus!
