//! The song identifier: five fields joined by dashes,
//! `Scale-Style-Bpm-LengthMinutes-Seed` (for example `C-Pop-120-5-482913`).
//! A song is fully reproduced from its identifier, so parsing and formatting
//! are exact: decimal numerals, dash splitting and the field checks are all
//! specified and proved here, down to the round trip.

use vstd::prelude::*;

use crate::state::AppState;

verus! {

// ---------------------------------------------------------------------
// Decimal numerals.
// ---------------------------------------------------------------------

/// Is `c` a decimal digit?
pub open spec fn is_digit(c: char) -> bool {
    48 <= c as int <= 57
}

/// Numeric value of a digit character.
pub open spec fn digit_val(c: char) -> int {
    c as int - 48
}

/// Every character of `s` is a decimal digit.
pub open spec fn all_digits(s: Seq<char>) -> bool {
    forall|i: int| 0 <= i < s.len() ==> is_digit(#[trigger] s[i])
}

/// The numeric value of a digit string, most significant digit first.
pub open spec fn dec_value(s: Seq<char>) -> int
    decreases s.len(),
{
    if s.len() == 0 {
        0
    } else {
        dec_value(s.drop_last()) * 10 + digit_val(s.last())
    }
}

/// The digit character of one digit value.
pub open spec fn char_of_digit(d: int) -> char {
    if d == 0 {
        '0'
    } else if d == 1 {
        '1'
    } else if d == 2 {
        '2'
    } else if d == 3 {
        '3'
    } else if d == 4 {
        '4'
    } else if d == 5 {
        '5'
    } else if d == 6 {
        '6'
    } else if d == 7 {
        '7'
    } else if d == 8 {
        '8'
    } else {
        '9'
    }
}

/// The canonical decimal numeral of a non-negative integer: no sign, no
/// leading zeros (and "0" for zero).
pub open spec fn dec_digits(n: int) -> Seq<char>
    recommends
        n >= 0,
    decreases n,
{
    if n < 10 {
        seq![char_of_digit(n)]
    } else {
        dec_digits(n / 10).push(char_of_digit(n % 10))
    }
}

/// What `dec_digits` produces is a digit string whose value is the number
/// it was built from.
pub proof fn lemma_dec_digits_value(n: int)
    requires
        n >= 0,
    ensures
        dec_digits(n).len() >= 1,
        all_digits(dec_digits(n)),
        dec_value(dec_digits(n)) == n,
    decreases n,
{
    if n < 10 {
        assert(dec_digits(n) =~= seq![char_of_digit(n)]);
        assert(seq![char_of_digit(n)].drop_last() =~= Seq::<char>::empty());
        assert(dec_value(Seq::<char>::empty()) == 0);
        assert(dec_value(seq![char_of_digit(n)]) == 0 * 10 + digit_val(char_of_digit(n)));
    } else {
        lemma_dec_digits_value(n / 10);
        let prefix = dec_digits(n / 10);
        let whole = prefix.push(char_of_digit(n % 10));
        assert(whole.drop_last() =~= prefix);
        assert(dec_value(whole) == dec_value(prefix) * 10 + digit_val(char_of_digit(n % 10)));
        assert(digit_val(char_of_digit(n % 10)) == n % 10);
        assert((n / 10) * 10 + n % 10 == n) by {
            vstd::arithmetic::div_mod::lemma_fundamental_div_mod(n, 10);
        }
        assert forall|i: int| 0 <= i < whole.len() implies is_digit(#[trigger] whole[i]) by {
            if i < whole.len() - 1 {
                assert(whole[i] == prefix[i]);
            }
        }
    }
}

/// The value of a digit string is non-negative.
proof fn lemma_dec_value_nonneg(s: Seq<char>)
    requires
        all_digits(s),
    ensures
        dec_value(s) >= 0,
    decreases s.len(),
{
    if s.len() > 0 {
        assert(all_digits(s.drop_last())) by {
            assert(forall|i: int|
                0 <= i < s.len() - 1 ==> s.drop_last()[i] == #[trigger] s[i]);
        }
        lemma_dec_value_nonneg(s.drop_last());
    }
}

/// A digit string is worth at least any of its prefixes.
proof fn lemma_dec_value_prefix_le(s: Seq<char>, i: int)
    requires
        all_digits(s),
        0 <= i <= s.len(),
    ensures
        dec_value(s.take(i)) <= dec_value(s),
    decreases s.len() - i,
{
    if i < s.len() {
        let t = s.take(i + 1);
        assert(t.drop_last() =~= s.take(i));
        assert(all_digits(s.take(i))) by {
            assert(forall|k: int| 0 <= k < i ==> s.take(i)[k] == #[trigger] s[k]);
        }
        lemma_dec_value_nonneg(s.take(i));
        assert(dec_value(t) == dec_value(s.take(i)) * 10 + digit_val(s[i]));
        assert(digit_val(s[i]) >= 0);
        lemma_dec_value_prefix_le(s, i + 1);
    } else {
        assert(s.take(i) =~= s);
    }
}

/// Spec twin of `parse_u64`: a non-empty digit string whose value fits,
/// and nothing else.
pub open spec fn spec_parse_u64(s: Seq<char>) -> Option<u64> {
    if s.len() >= 1 && all_digits(s) && dec_value(s) <= u64::MAX {
        Some(dec_value(s) as u64)
    } else {
        None
    }
}

/// Spec twin of `parse_u32`.
pub open spec fn spec_parse_u32(s: Seq<char>) -> Option<u32> {
    if s.len() >= 1 && all_digits(s) && dec_value(s) <= u32::MAX {
        Some(dec_value(s) as u32)
    } else {
        None
    }
}

/// Parse a decimal numeral: the string must be one or more digits and its
/// value must fit in a `u64`.
pub fn parse_u64(s: &str) -> (r: Option<u64>)
    ensures
        r == spec_parse_u64(s@),
{
    let len = s.unicode_len();
    if len == 0 {
        return None;
    }
    let mut acc: u64 = 0;
    let mut i: usize = 0;
    while i < len
        invariant
            len == s@.len(),
            i <= len,
            forall|j: int| 0 <= j < i ==> is_digit(#[trigger] s@[j]),
            acc == dec_value(s@.take(i as int)),
        decreases len - i,
    {
        let c = s.get_char(i);
        let u = c as u32;
        if u < 48 || u > 57 {
            proof {
                assert(!is_digit(s@[i as int]));
            }
            return None;
        }
        let d = (u - 48) as u64;
        let wide: u128 = (acc as u128) * 10 + (d as u128);
        proof {
            assert(s@.take(i as int + 1).drop_last() =~= s@.take(i as int));
            assert(dec_value(s@.take(i as int + 1)) == dec_value(s@.take(i as int)) * 10
                + digit_val(s@[i as int]));
        }
        if wide > u64::MAX as u128 {
            proof {
                if all_digits(s@) {
                    lemma_dec_value_prefix_le(s@, i as int + 1);
                }
            }
            return None;
        }
        acc = wide as u64;
        i = i + 1;
    }
    proof {
        assert(s@.take(len as int) =~= s@);
    }
    Some(acc)
}

/// Parse a decimal numeral that must fit in a `u32`.
pub fn parse_u32(s: &str) -> (r: Option<u32>)
    ensures
        r == spec_parse_u32(s@),
{
    match parse_u64(s) {
        Some(v) => {
            proof {
                lemma_dec_value_nonneg(s@);
                assert(dec_value(s@) == v as int);
            }
            if v <= u32::MAX as u64 {
                Some(v as u32)
            } else {
                None
            }
        },
        None => {
            proof {
                if s@.len() >= 1 && all_digits(s@) && dec_value(s@) <= u32::MAX {
                    assert(dec_value(s@) <= u64::MAX);
                }
            }
            None
        },
    }
}

/// Append one digit character to a string.
fn push_digit(s: &mut String, d: u64)
    requires
        d < 10,
    ensures
        final(s)@ == old(s)@.push(char_of_digit(d as int)),
{
    if d == 0 {
        s.append("0");
        proof {
            reveal_strlit("0");
            assert(final(s)@ =~= old(s)@.push('0'));
        }
    } else if d == 1 {
        s.append("1");
        proof {
            reveal_strlit("1");
            assert(final(s)@ =~= old(s)@.push('1'));
        }
    } else if d == 2 {
        s.append("2");
        proof {
            reveal_strlit("2");
            assert(final(s)@ =~= old(s)@.push('2'));
        }
    } else if d == 3 {
        s.append("3");
        proof {
            reveal_strlit("3");
            assert(final(s)@ =~= old(s)@.push('3'));
        }
    } else if d == 4 {
        s.append("4");
        proof {
            reveal_strlit("4");
            assert(final(s)@ =~= old(s)@.push('4'));
        }
    } else if d == 5 {
        s.append("5");
        proof {
            reveal_strlit("5");
            assert(final(s)@ =~= old(s)@.push('5'));
        }
    } else if d == 6 {
        s.append("6");
        proof {
            reveal_strlit("6");
            assert(final(s)@ =~= old(s)@.push('6'));
        }
    } else if d == 7 {
        s.append("7");
        proof {
            reveal_strlit("7");
            assert(final(s)@ =~= old(s)@.push('7'));
        }
    } else if d == 8 {
        s.append("8");
        proof {
            reveal_strlit("8");
            assert(final(s)@ =~= old(s)@.push('8'));
        }
    } else {
        s.append("9");
        proof {
            reveal_strlit("9");
            assert(final(s)@ =~= old(s)@.push('9'));
        }
    }
}

/// Format a number as its canonical decimal numeral.
pub fn u64_to_string(n: u64) -> (r: String)
    ensures
        r@ == dec_digits(n as int),
    decreases n,
{
    if n < 10 {
        let mut s = String::new();
        push_digit(&mut s, n);
        proof {
            assert(s@ =~= dec_digits(n as int));
        }
        s
    } else {
        let mut s = u64_to_string(n / 10);
        push_digit(&mut s, n % 10);
        s
    }
}

// ---------------------------------------------------------------------
// Dash-separated fields.
// ---------------------------------------------------------------------

/// Split a character sequence on `'-'`: the fields between the dashes, in
/// order.  A string without dashes is one field; every dash ends a field.
pub open spec fn spec_split_dashes(s: Seq<char>) -> Seq<Seq<char>>
    decreases s.len(),
{
    if s.len() == 0 {
        seq![Seq::<char>::empty()]
    } else if s[0] == '-' {
        seq![Seq::<char>::empty()] + spec_split_dashes(s.skip(1))
    } else {
        let rest = spec_split_dashes(s.skip(1));
        seq![seq![s[0]] + rest[0]] + rest.skip(1)
    }
}

/// A split has at least one field.
pub proof fn lemma_split_len(s: Seq<char>)
    ensures
        spec_split_dashes(s).len() >= 1,
    decreases s.len(),
{
    if s.len() > 0 {
        lemma_split_len(s.skip(1));
    }
}

/// A dash-free string splits into itself alone.
pub proof fn lemma_split_no_dash(s: Seq<char>)
    requires
        !s.contains('-'),
    ensures
        spec_split_dashes(s) =~~= seq![s],
    decreases s.len(),
{
    if s.len() == 0 {
        assert(spec_split_dashes(s) =~~= seq![s]);
    } else {
        assert(s[0] != '-');
        assert(!s.skip(1).contains('-')) by {
            assert(forall|i: int| 0 <= i < s.skip(1).len() ==> s.skip(1)[i] == #[trigger] s[i + 1]);
        }
        lemma_split_no_dash(s.skip(1));
        lemma_split_len(s.skip(1));
        assert(seq![s[0]] + spec_split_dashes(s.skip(1))[0] =~= s);
    }
}

/// Splitting a dash-free field, a dash, and a remainder yields the field
/// followed by the remainder's split.
pub proof fn lemma_split_prepend(x: Seq<char>, rest: Seq<char>)
    requires
        !x.contains('-'),
    ensures
        spec_split_dashes(x + seq!['-'] + rest) =~~= seq![x] + spec_split_dashes(rest),
    decreases x.len(),
{
    let s = x + seq!['-'] + rest;
    if x.len() == 0 {
        assert(s[0] == '-');
        assert(s.skip(1) =~= rest);
        assert(spec_split_dashes(s) =~~= seq![Seq::<char>::empty()] + spec_split_dashes(rest));
    } else {
        assert(s[0] == x[0]);
        assert(x[0] != '-') by {
            assert(x.contains(x[0]) == x.contains('-') || x[0] != '-');
            assert(x[0] == x[0] && 0 < x.len());
            if x[0] == '-' {
                assert(x.contains('-'));
            }
        }
        assert(!x.skip(1).contains('-')) by {
            assert(forall|i: int| 0 <= i < x.skip(1).len() ==> x.skip(1)[i] == #[trigger] x[i + 1]);
            if x.skip(1).contains('-') {
                let i = choose|i: int| 0 <= i < x.skip(1).len() && x.skip(1)[i] == '-';
                assert(x[i + 1] == '-');
            }
        }
        assert(s.skip(1) =~= x.skip(1) + seq!['-'] + rest);
        lemma_split_prepend(x.skip(1), rest);
        lemma_split_len(rest);
        let inner = spec_split_dashes(s.skip(1));
        assert(inner =~~= seq![x.skip(1)] + spec_split_dashes(rest));
        assert(inner[0] == x.skip(1));
        assert(seq![s[0]] + inner[0] =~= x);
        assert(inner.skip(1) =~~= spec_split_dashes(rest));
    }
}

/// Split a string on dashes into its fields.
pub fn split_dashes(s: &str) -> (r: Vec<String>)
    ensures
        r@.len() == spec_split_dashes(s@).len(),
        forall|i: int| 0 <= i < r@.len() ==> (#[trigger] r@[i])@ == spec_split_dashes(s@)[i],
    decreases s@.len(),
{
    let len = s.unicode_len();
    let mut j: usize = 0;
    while j < len && s.get_char(j) != '-'
        invariant
            len == s@.len(),
            j <= len,
            forall|k: int| 0 <= k < j ==> s@[k] != '-',
        decreases len - j,
    {
        j = j + 1;
    }
    if j == len {
        proof {
            if s@.contains('-') {
                let i = choose|i: int| 0 <= i < s@.len() && s@[i] == '-';
            }
            lemma_split_no_dash(s@);
        }
        let mut out: Vec<String> = Vec::new();
        out.push(s.to_owned());
        return out;
    }
    let head = s.substring_char(0, j);
    let tail = s.substring_char(j + 1, len);
    proof {
        assert(head@ =~= s@.take(j as int));
        assert(tail@ =~= s@.skip(j as int + 1));
        assert(!s@.take(j as int).contains('-')) by {
            if s@.take(j as int).contains('-') {
                let i = choose|i: int|
                    0 <= i < s@.take(j as int).len() && s@.take(j as int)[i] == '-';
                assert(s@[i] == '-');
            }
        }
        assert(s@ =~= s@.take(j as int) + seq!['-'] + s@.skip(j as int + 1));
        lemma_split_prepend(s@.take(j as int), s@.skip(j as int + 1));
    }
    let mut rest = split_dashes(tail);
    let mut out: Vec<String> = Vec::new();
    out.push(head.to_owned());
    out.append(&mut rest);
    proof {
        assert(forall|i: int|
            0 <= i < out@.len() ==> (#[trigger] out@[i])@ == spec_split_dashes(s@)[i]);
    }
    out
}

// ---------------------------------------------------------------------
// The identifier itself.
// ---------------------------------------------------------------------

/// The first word of a string: everything before the first space.
pub open spec fn spec_first_word(s: Seq<char>) -> Seq<char>
    decreases s.len(),
{
    if s.len() == 0 || s[0] == ' ' {
        Seq::<char>::empty()
    } else {
        seq![s[0]] + spec_first_word(s.skip(1))
    }
}

proof fn lemma_first_word_take(s: Seq<char>, j: int)
    requires
        0 <= j <= s.len(),
        forall|k: int| 0 <= k < j ==> s[k] != ' ',
        j < s.len() ==> s[j] == ' ',
    ensures
        spec_first_word(s) =~= s.take(j),
    decreases j, s.len(),
{
    if j == 0 {
        if s.len() > 0 {
            assert(s[0] == ' ');
        }
    } else {
        assert(s[0] != ' ');
        lemma_first_word_take(s.skip(1), j - 1);
        assert(seq![s[0]] + s.skip(1).take(j - 1) =~= s.take(j));
    }
}

/// Extract the first word of a string (the minutes part of a length such
/// as "5 min").
pub fn first_word(s: &str) -> (r: String)
    ensures
        r@ == spec_first_word(s@),
{
    let len = s.unicode_len();
    let mut j: usize = 0;
    while j < len && s.get_char(j) != ' '
        invariant
            len == s@.len(),
            j <= len,
            forall|k: int| 0 <= k < j ==> s@[k] != ' ',
        decreases len - j,
    {
        j = j + 1;
    }
    proof {
        lemma_first_word_take(s@, j as int);
    }
    let w = s.substring_char(0, j);
    w.to_owned()
}

/// The identifier text of a song: the five fields joined by dashes.  The
/// minutes field is the first word of the length ("5" out of "5 min"), and
/// the seed field is the seed the song was actually generated from.
pub open spec fn spec_format_song_id(
    scale: Seq<char>,
    style: Seq<char>,
    bpm: Seq<char>,
    length: Seq<char>,
    seed: u64,
) -> Seq<char> {
    scale + seq!['-'] + style + seq!['-'] + bpm + seq!['-'] + spec_first_word(length) + seq!['-']
        + dec_digits(seed as int)
}

/// Format the identifier of the song described by a state, with the seed
/// it was generated from.
pub fn format_song_id(st: &AppState, seed: u64) -> (r: String)
    ensures
        r@ == spec_format_song_id(st.scale@, st.style@, st.bpm@, st.length@, seed),
{
    let mut out: String = String::new();
    out.append(st.scale.as_str());
    out.append("-");
    out.append(st.style.as_str());
    out.append("-");
    out.append(st.bpm.as_str());
    out.append("-");
    let minutes = first_word(st.length.as_str());
    out.append(minutes.as_str());
    out.append("-");
    let seed_str = u64_to_string(seed);
    out.append(seed_str.as_str());
    proof {
        reveal_strlit("-");
        assert("-"@ =~= seq!['-']);
        assert(out@ =~= spec_format_song_id(st.scale@, st.style@, st.bpm@, st.length@, seed));
    }
    out
}

/// Parse a song identifier into a fresh application state.
///
/// The identifier must have exactly five dash-separated fields.  The BPM
/// field must be a `u32` numeral if non-empty; the minutes field must be a
/// `u32` numeral (it is stored as "`<n> min`"); the seed field must be a
/// `u64` numeral if non-empty.  The first violation, in that order, is
/// reported as a descriptive error naming the field and the expected
/// format, and no state is produced.
pub fn parse_song_id_to_app_state(id_string: &str) -> (r: Result<AppState, String>)
    ensures
        ({
            let parts = spec_split_dashes(id_string@);
            match r {
                Ok(st) => {
                    &&& parts.len() == 5
                    &&& parts[2].len() == 0 || spec_parse_u32(parts[2]).is_some()
                    &&& spec_parse_u32(parts[3]).is_some()
                    &&& parts[4].len() == 0 || spec_parse_u64(parts[4]).is_some()
                    &&& st.scale@ == parts[0]
                    &&& st.style@ == parts[1]
                    &&& st.bpm@ == parts[2]
                    &&& st.length@ == dec_digits(spec_parse_u32(parts[3]).unwrap() as int)
                        + " min"@
                    &&& st.seed@ == parts[4]
                    &&& crate::state::app_state_rest_default(st)
                },
                Err(e) => {
                    if parts.len() != 5 {
                        e@
                            == "Invalid Song ID: expected five fields separated by '-'. Format: Scale-Style-BPM-LengthInMinutes-Seed"@
                    } else if !(parts[2].len() == 0 || spec_parse_u32(parts[2]).is_some()) {
                        e@
                            == "Invalid BPM in Song ID: not a number. Format: Scale-Style-BPM-LengthInMinutes-Seed"@
                    } else if spec_parse_u32(parts[3]).is_none() {
                        e@
                            == "Invalid Length in Song ID: not a number of minutes. Format: Scale-Style-BPM-LengthInMinutes-Seed"@
                    } else {
                        &&& parts[4].len() != 0
                        &&& spec_parse_u64(parts[4]).is_none()
                        &&& e@
                            == "Invalid Seed in Song ID: not a number. Format: Scale-Style-BPM-LengthInMinutes-Seed"@
                    }
                },
            }
        }),
{
    let parts = split_dashes(id_string);
    if parts.len() != 5 {
        return Err(
            "Invalid Song ID: expected five fields separated by '-'. Format: Scale-Style-BPM-LengthInMinutes-Seed".to_owned(),
        );
    }
    let bpm_ok = parts[2].as_str().unicode_len() == 0 || parse_u32(parts[2].as_str()).is_some();
    if !bpm_ok {
        return Err(
            "Invalid BPM in Song ID: not a number. Format: Scale-Style-BPM-LengthInMinutes-Seed".to_owned(),
        );
    }
    let minutes = match parse_u32(parts[3].as_str()) {
        Some(m) => m,
        None => {
            return Err(
                "Invalid Length in Song ID: not a number of minutes. Format: Scale-Style-BPM-LengthInMinutes-Seed".to_owned(),
            );
        },
    };
    let seed_ok = parts[4].as_str().unicode_len() == 0 || parse_u64(parts[4].as_str()).is_some();
    if !seed_ok {
        return Err(
            "Invalid Seed in Song ID: not a number. Format: Scale-Style-BPM-LengthInMinutes-Seed".to_owned(),
        );
    }
    let mut length = u64_to_string(minutes as u64);
    length.append(" min");
    let mut st = AppState::default();
    st.scale = parts[0].clone();
    st.style = parts[1].clone();
    st.bpm = parts[2].clone();
    st.length = length;
    st.seed = parts[4].clone();
    Ok(st)
}

/// A digit string contains no dash.
proof fn lemma_digits_no_dash(s: Seq<char>)
    requires
        all_digits(s),
    ensures
        !s.contains('-'),
{
    if s.contains('-') {
        let i = choose|i: int| 0 <= i < s.len() && s[i] == '-';
        assert(is_digit(s[i]));
        assert('-' as int == 45);
    }
}

/// Identifier round trip: the identifier formatted from a scale, a style,
/// an explicit tempo, a length in minutes and an explicit seed splits back
/// into exactly those five fields, and the three numerals parse back to the
/// numbers they were formatted from.  Together with the contracts of
/// `format_song_id` and `parse_song_id_to_app_state`, parsing a formatted
/// identifier reproduces the song's parameters.
pub proof fn lemma_song_id_round_trip(
    scale: Seq<char>,
    style: Seq<char>,
    bpm: u32,
    minutes: u32,
    seed: u64,
)
    requires
        !scale.contains('-'),
        !style.contains('-'),
    ensures
        ({
            let id = spec_format_song_id(
                scale,
                style,
                dec_digits(bpm as int),
                dec_digits(minutes as int) + " min"@,
                seed,
            );
            &&& spec_split_dashes(id) =~~= seq![
                scale,
                style,
                dec_digits(bpm as int),
                dec_digits(minutes as int),
                dec_digits(seed as int),
            ]
            &&& spec_parse_u32(dec_digits(bpm as int)) == Some(bpm)
            &&& spec_parse_u32(dec_digits(minutes as int)) == Some(minutes)
            &&& spec_parse_u64(dec_digits(seed as int)) == Some(seed)
        }),
{
    let sb = dec_digits(bpm as int);
    let sm = dec_digits(minutes as int);
    let ss = dec_digits(seed as int);
    lemma_dec_digits_value(bpm as int);
    lemma_dec_digits_value(minutes as int);
    lemma_dec_digits_value(seed as int);
    lemma_digits_no_dash(sb);
    lemma_digits_no_dash(sm);
    lemma_digits_no_dash(ss);

    // The minutes field of the formatted identifier is the first word of
    // "<minutes> min".
    let length = sm + " min"@;
    reveal_strlit(" min");
    assert(" min"@.len() == 4);
    assert(length[sm.len() as int] == ' ');
    assert forall|k: int| 0 <= k < sm.len() implies length[k] != ' ' by {
        assert(length[k] == sm[k]);
        assert(is_digit(sm[k]));
        assert(' ' as int == 32);
    }
    lemma_first_word_take(length, sm.len() as int);
    assert(length.take(sm.len() as int) =~= sm);
    assert(spec_first_word(length) == sm);

    let id = spec_format_song_id(scale, style, sb, length, seed);
    let r3 = ss;
    let r2 = sm + seq!['-'] + r3;
    let r1 = sb + seq!['-'] + r2;
    let r0 = style + seq!['-'] + r1;
    assert(id =~= scale + seq!['-'] + r0);
    lemma_split_prepend(scale, r0);
    lemma_split_prepend(style, r1);
    lemma_split_prepend(sb, r2);
    lemma_split_prepend(sm, r3);
    lemma_split_no_dash(ss);
    assert(spec_split_dashes(id) =~~= seq![scale] + (seq![style] + (seq![sb] + (seq![sm] + seq![
        ss,
    ]))));
}

} // verus!
