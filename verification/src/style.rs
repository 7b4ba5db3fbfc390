//! The closed style enum and the boundary where raw style text is accepted.
//!
//! Style strings arrive as free text ("Pop", "BLUES", "Reggae").  They are
//! matched case-insensitively against the four styles the generators know;
//! anything else falls back to the default style.  Past this boundary the
//! crate passes the enum around, never the string.

use vstd::prelude::*;

verus! {

/// The musical styles the composition engine distinguishes.
#[derive(Clone, Copy, Debug, PartialEq, Eq, Structural)]
pub enum Style {
    Default,
    Blues,
    Pop,
    Jazz,
}

/// Code point of a character with ASCII uppercase folded to lowercase.
pub open spec fn lower_code(c: char) -> int {
    if 65 <= c as int && c as int <= 90 {
        c as int + 32
    } else {
        c as int
    }
}

/// A sequence of characters, case-folded to code points.
pub open spec fn lower_codes(s: Seq<char>) -> Seq<int> {
    s.map(|_i: int, c: char| lower_code(c))
}

/// Spec twin of `style_of`.
pub open spec fn spec_style_of(s: Seq<char>) -> Style {
    if lower_codes(s) == lower_codes("blues"@) {
        Style::Blues
    } else if lower_codes(s) == lower_codes("pop"@) {
        Style::Pop
    } else if lower_codes(s) == lower_codes("jazz"@) {
        Style::Jazz
    } else {
        Style::Default
    }
}

/// Case-fold one character's code point.
fn lower_code_exec(c: char) -> (r: u32)
    ensures
        r == lower_code(c),
{
    let u = c as u32;
    if 65 <= u && u <= 90 {
        u + 32
    } else {
        u
    }
}

/// ASCII-case-insensitive string comparison.
fn eq_ignore_case(a: &str, b: &str) -> (r: bool)
    ensures
        r <==> lower_codes(a@) == lower_codes(b@),
{
    let alen = a.unicode_len();
    let blen = b.unicode_len();
    if alen != blen {
        proof {
            assert(lower_codes(a@).len() != lower_codes(b@).len());
        }
        return false;
    }
    let mut i: usize = 0;
    while i < alen
        invariant
            alen == a@.len(),
            alen == b@.len(),
            i <= alen,
            forall|j: int| 0 <= j < i ==> lower_codes(a@)[j] == lower_codes(b@)[j],
        decreases alen - i,
    {
        let ca = a.get_char(i);
        let cb = b.get_char(i);
        if lower_code_exec(ca) != lower_code_exec(cb) {
            proof {
                assert(lower_codes(a@)[i as int] != lower_codes(b@)[i as int]);
            }
            return false;
        }
        i = i + 1;
    }
    proof {
        assert(lower_codes(a@) =~= lower_codes(b@));
    }
    true
}

/// Accept a raw style string: match it case-insensitively against the known
/// styles, falling back to the default style for anything unrecognized.
pub fn style_of(style: &str) -> (r: Style)
    ensures
        r == spec_style_of(style@),
{
    if eq_ignore_case(style, "blues") {
        Style::Blues
    } else if eq_ignore_case(style, "pop") {
        Style::Pop
    } else if eq_ignore_case(style, "jazz") {
        Style::Jazz
    } else {
        Style::Default
    }
}

} // verus!
