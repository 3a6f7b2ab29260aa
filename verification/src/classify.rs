//! The exact per-mode classifier: the Unicode general category of a code
//! point, the per-mode category-to-action tables, and the per-mode override
//! sets applied before the tables.

use vstd::prelude::*;

verus! {

use crate::ascii::spec_is_ascii_char;
use crate::unicode::{CategoryAction, spec_address_allowed};

/// The Unicode general categories, by their two-letter abbreviations.
#[derive(Debug, Clone, Copy, PartialEq, Eq, Structural)]
pub enum Category {
    Lu,
    Ll,
    Lt,
    Lm,
    Lo,
    Mn,
    Mc,
    Me,
    Nd,
    Nl,
    No,
    Pc,
    Pd,
    Ps,
    Pe,
    Pi,
    Pf,
    Po,
    Sm,
    Sc,
    Sk,
    So,
    Zs,
    Zl,
    Zp,
    Cc,
    Cf,
    Cs,
    Co,
    Cn,
}

/// The position of a category in the declaration order of
/// `unicode_general_category::GeneralCategory`, whose variants are listed
/// alphabetically by name.
pub open spec fn spec_category_index(cat: Category) -> int {
    match cat {
        Category::Pe => 0,  // ClosePunctuation
        Category::Pc => 1,  // ConnectorPunctuation
        Category::Cc => 2,  // Control
        Category::Sc => 3,  // CurrencySymbol
        Category::Pd => 4,  // DashPunctuation
        Category::Nd => 5,  // DecimalNumber
        Category::Me => 6,  // EnclosingMark
        Category::Pf => 7,  // FinalPunctuation
        Category::Cf => 8,  // Format
        Category::Pi => 9,  // InitialPunctuation
        Category::Nl => 10,  // LetterNumber
        Category::Zl => 11,  // LineSeparator
        Category::Ll => 12,  // LowercaseLetter
        Category::Sm => 13,  // MathSymbol
        Category::Lm => 14,  // ModifierLetter
        Category::Sk => 15,  // ModifierSymbol
        Category::Mn => 16,  // NonspacingMark
        Category::Ps => 17,  // OpenPunctuation
        Category::Lo => 18,  // OtherLetter
        Category::No => 19,  // OtherNumber
        Category::Po => 20,  // OtherPunctuation
        Category::So => 21,  // OtherSymbol
        Category::Zp => 22,  // ParagraphSeparator
        Category::Co => 23,  // PrivateUse
        Category::Zs => 24,  // SpaceSeparator
        Category::Mc => 25,  // SpacingMark
        Category::Cs => 26,  // Surrogate
        Category::Lt => 27,  // TitlecaseLetter
        Category::Cn => 28,  // Unassigned
        Category::Lu => 29,  // UppercaseLetter
    }
}

/// The general category of a code point outside the ASCII range.
pub uninterp spec fn category_of(c: char) -> Category;

/// The general category of an ASCII code point, from the Unicode character
/// database.
pub open spec fn spec_ascii_category(c: char) -> Category {
    let u = c as u32;
    if u <= 0x1f {
        Category::Cc
    } else if u == 0x20 {
        Category::Zs
    } else if u <= 0x23 {
        Category::Po  // ! " #
    } else if u == 0x24 {
        Category::Sc  // $
    } else if u <= 0x27 {
        Category::Po  // % & '
    } else if u == 0x28 {
        Category::Ps  // (
    } else if u == 0x29 {
        Category::Pe  // )
    } else if u == 0x2a {
        Category::Po  // *
    } else if u == 0x2b {
        Category::Sm  // +
    } else if u == 0x2c {
        Category::Po  // ,
    } else if u == 0x2d {
        Category::Pd  // -
    } else if u <= 0x2f {
        Category::Po  // . /
    } else if u <= 0x39 {
        Category::Nd  // 0-9
    } else if u <= 0x3b {
        Category::Po  // : ;
    } else if u <= 0x3e {
        Category::Sm  // < = >
    } else if u <= 0x40 {
        Category::Po  // ? @
    } else if u <= 0x5a {
        Category::Lu  // A-Z
    } else if u == 0x5b {
        Category::Ps  // [
    } else if u == 0x5c {
        Category::Po  // backslash
    } else if u == 0x5d {
        Category::Pe  // ]
    } else if u == 0x5e {
        Category::Sk  // ^
    } else if u == 0x5f {
        Category::Pc  // _
    } else if u == 0x60 {
        Category::Sk  // grave accent
    } else if u <= 0x7a {
        Category::Ll  // a-z
    } else if u == 0x7b {
        Category::Ps  // {
    } else if u == 0x7c {
        Category::Sm  // |
    } else if u == 0x7d {
        Category::Pe  // }
    } else if u == 0x7e {
        Category::Sm  // ~
    } else {
        Category::Cc  // DEL
    }
}

/// The general category of any code point: pinned on the ASCII range, and
/// the named table lookup elsewhere.
pub open spec fn spec_char_category(c: char) -> Category {
    if spec_is_ascii_char(c) {
        spec_ascii_category(c)
    } else {
        category_of(c)
    }
}

/// Relies on unicode_general_category::get_general_category (Unicode 16.0
/// data): the cast yields the variant's position in the declaration order of
/// `GeneralCategory`, which `spec_category_index` mirrors; on the ASCII
/// range the table gives exactly `spec_ascii_category`.
#[verifier::external_body]
fn general_category_index(c: char) -> (r: u8)
    ensures
        r as int == spec_category_index(spec_char_category(c)),
        !spec_is_ascii_char(c) ==> r as int == spec_category_index(category_of(c)),
{
    unicode_general_category::get_general_category(c) as u8
}

/// Look up the exact Unicode general category of a character.
pub fn char_category(c: char) -> (r: Category)
    ensures
        r == spec_char_category(c),
{
    let i = general_category_index(c);
    let r = match i {
        0 => Category::Pe,
        1 => Category::Pc,
        2 => Category::Cc,
        3 => Category::Sc,
        4 => Category::Pd,
        5 => Category::Nd,
        6 => Category::Me,
        7 => Category::Pf,
        8 => Category::Cf,
        9 => Category::Pi,
        10 => Category::Nl,
        11 => Category::Zl,
        12 => Category::Ll,
        13 => Category::Sm,
        14 => Category::Lm,
        15 => Category::Sk,
        16 => Category::Mn,
        17 => Category::Ps,
        18 => Category::Lo,
        19 => Category::No,
        20 => Category::Po,
        21 => Category::So,
        22 => Category::Zp,
        23 => Category::Co,
        24 => Category::Zs,
        25 => Category::Mc,
        26 => Category::Cs,
        27 => Category::Lt,
        28 => Category::Cn,
        _ => Category::Lu,
    };
    proof {
        assert(r == spec_char_category(c)) by {
            let cat = spec_char_category(c);
            assert(spec_category_index(cat) == i as int);
        }
    }
    r
}

/// The tokenization mode: each mode owns its category-to-action table and
/// its override rules.
#[derive(Debug, Clone, Copy, PartialEq, Eq, Structural)]
pub enum Mode {
    Address,
    Name,
}

/// The address-mode category-to-action table: letters and decimal or letter
/// numbers are kept; separators, punctuation, math and other symbols break
/// tokens; marks, modifier letters, other numbers, currency and modifier
/// symbols, and format-like or unassigned code points are dropped.
pub open spec fn spec_address_table(cat: Category) -> CategoryAction {
    match cat {
        Category::Lu => CategoryAction::Keep,
        Category::Ll => CategoryAction::Keep,
        Category::Lt => CategoryAction::Keep,
        Category::Lo => CategoryAction::Keep,
        Category::Nd => CategoryAction::Keep,
        Category::Nl => CategoryAction::Keep,
        Category::Lm => CategoryAction::Skip,
        Category::Mn => CategoryAction::Skip,
        Category::Mc => CategoryAction::Whitespace,
        Category::Me => CategoryAction::Skip,
        Category::No => CategoryAction::Skip,
        Category::Pc => CategoryAction::Whitespace,
        Category::Pd => CategoryAction::Whitespace,
        Category::Ps => CategoryAction::Whitespace,
        Category::Pe => CategoryAction::Whitespace,
        Category::Pi => CategoryAction::Whitespace,
        Category::Pf => CategoryAction::Whitespace,
        Category::Po => CategoryAction::Whitespace,
        Category::Sm => CategoryAction::Whitespace,
        Category::Sc => CategoryAction::Skip,
        Category::Sk => CategoryAction::Skip,
        Category::So => CategoryAction::Whitespace,
        Category::Zs => CategoryAction::Whitespace,
        Category::Zl => CategoryAction::Whitespace,
        Category::Zp => CategoryAction::Whitespace,
        Category::Cc => CategoryAction::Whitespace,
        Category::Cf => CategoryAction::Skip,
        Category::Cs => CategoryAction::Skip,
        Category::Co => CategoryAction::Skip,
        Category::Cn => CategoryAction::Skip,
    }
}

/// The name-mode category-to-action table. It agrees with the address-mode
/// table on every category that both enumerate; the modes differ in their
/// override sets.
pub open spec fn spec_name_table(cat: Category) -> CategoryAction {
    match cat {
        Category::Lu => CategoryAction::Keep,
        Category::Ll => CategoryAction::Keep,
        Category::Lt => CategoryAction::Keep,
        Category::Lo => CategoryAction::Keep,
        Category::Nd => CategoryAction::Keep,
        Category::Nl => CategoryAction::Keep,
        Category::Lm => CategoryAction::Skip,
        Category::Mn => CategoryAction::Skip,
        Category::Mc => CategoryAction::Whitespace,
        Category::Me => CategoryAction::Skip,
        Category::No => CategoryAction::Skip,
        Category::Pc => CategoryAction::Whitespace,
        Category::Pd => CategoryAction::Whitespace,
        Category::Ps => CategoryAction::Whitespace,
        Category::Pe => CategoryAction::Whitespace,
        Category::Pi => CategoryAction::Whitespace,
        Category::Pf => CategoryAction::Whitespace,
        Category::Po => CategoryAction::Whitespace,
        Category::Sm => CategoryAction::Whitespace,
        Category::Sc => CategoryAction::Skip,
        Category::Sk => CategoryAction::Skip,
        Category::So => CategoryAction::Whitespace,
        Category::Zs => CategoryAction::Whitespace,
        Category::Zl => CategoryAction::Whitespace,
        Category::Zp => CategoryAction::Whitespace,
        Category::Cc => CategoryAction::Whitespace,
        Category::Cf => CategoryAction::Skip,
        Category::Cs => CategoryAction::Skip,
        Category::Co => CategoryAction::Skip,
        Category::Cn => CategoryAction::Skip,
    }
}

/// The name-mode override set, dropped before the table is consulted:
/// the ASCII apostrophe, the right single quotation mark, and the period.
pub open spec fn spec_name_skip(c: char) -> bool {
    c == '.' || c == '\'' || c == '\u{2019}'
}

/// The resolved action of a code point under a mode: the mode's override
/// first, then its category-to-action table.
pub open spec fn spec_action(mode: Mode, c: char) -> CategoryAction {
    match mode {
        Mode::Address => if spec_address_allowed(c) {
            CategoryAction::Keep
        } else {
            spec_address_table(spec_char_category(c))
        },
        Mode::Name => if spec_name_skip(c) {
            CategoryAction::Skip
        } else {
            spec_name_table(spec_char_category(c))
        },
    }
}

/// Classify a code point under a mode, resolving the mode's override and
/// its category-to-action table.
pub fn classify(mode: Mode, c: char) -> (r: CategoryAction)
    ensures
        r == spec_action(mode, c),
{
    match mode {
        Mode::Address => {
            if crate::unicode::is_address_allowed_char(c) {
                CategoryAction::Keep
            } else {
                address_table_action(char_category(c))
            }
        },
        Mode::Name => {
            if c == '.' || c == '\'' || c == '\u{2019}' {
                CategoryAction::Skip
            } else {
                name_table_action(char_category(c))
            }
        },
    }
}

/// The address-mode table as executable code.
fn address_table_action(cat: Category) -> (r: CategoryAction)
    ensures
        r == spec_address_table(cat),
{
    match cat {
        Category::Lu => CategoryAction::Keep,
        Category::Ll => CategoryAction::Keep,
        Category::Lt => CategoryAction::Keep,
        Category::Lo => CategoryAction::Keep,
        Category::Nd => CategoryAction::Keep,
        Category::Nl => CategoryAction::Keep,
        Category::Lm => CategoryAction::Skip,
        Category::Mn => CategoryAction::Skip,
        Category::Mc => CategoryAction::Whitespace,
        Category::Me => CategoryAction::Skip,
        Category::No => CategoryAction::Skip,
        Category::Pc => CategoryAction::Whitespace,
        Category::Pd => CategoryAction::Whitespace,
        Category::Ps => CategoryAction::Whitespace,
        Category::Pe => CategoryAction::Whitespace,
        Category::Pi => CategoryAction::Whitespace,
        Category::Pf => CategoryAction::Whitespace,
        Category::Po => CategoryAction::Whitespace,
        Category::Sm => CategoryAction::Whitespace,
        Category::Sc => CategoryAction::Skip,
        Category::Sk => CategoryAction::Skip,
        Category::So => CategoryAction::Whitespace,
        Category::Zs => CategoryAction::Whitespace,
        Category::Zl => CategoryAction::Whitespace,
        Category::Zp => CategoryAction::Whitespace,
        Category::Cc => CategoryAction::Whitespace,
        Category::Cf => CategoryAction::Skip,
        Category::Cs => CategoryAction::Skip,
        Category::Co => CategoryAction::Skip,
        Category::Cn => CategoryAction::Skip,
    }
}

/// The name-mode table as executable code.
fn name_table_action(cat: Category) -> (r: CategoryAction)
    ensures
        r == spec_name_table(cat),
{
    match cat {
        Category::Lu => CategoryAction::Keep,
        Category::Ll => CategoryAction::Keep,
        Category::Lt => CategoryAction::Keep,
        Category::Lo => CategoryAction::Keep,
        Category::Nd => CategoryAction::Keep,
        Category::Nl => CategoryAction::Keep,
        Category::Lm => CategoryAction::Skip,
        Category::Mn => CategoryAction::Skip,
        Category::Mc => CategoryAction::Whitespace,
        Category::Me => CategoryAction::Skip,
        Category::No => CategoryAction::Skip,
        Category::Pc => CategoryAction::Whitespace,
        Category::Pd => CategoryAction::Whitespace,
        Category::Ps => CategoryAction::Whitespace,
        Category::Pe => CategoryAction::Whitespace,
        Category::Pi => CategoryAction::Whitespace,
        Category::Pf => CategoryAction::Whitespace,
        Category::Po => CategoryAction::Whitespace,
        Category::Sm => CategoryAction::Whitespace,
        Category::Sc => CategoryAction::Skip,
        Category::Sk => CategoryAction::Skip,
        Category::So => CategoryAction::Whitespace,
        Category::Zs => CategoryAction::Whitespace,
        Category::Zl => CategoryAction::Whitespace,
        Category::Zp => CategoryAction::Whitespace,
        Category::Cc => CategoryAction::Whitespace,
        Category::Cf => CategoryAction::Skip,
        Category::Cs => CategoryAction::Skip,
        Category::Co => CategoryAction::Skip,
        Category::Cn => CategoryAction::Skip,
    }
}

} // verus!
