//! Gap-tolerant frame numbering within a per-day directory.
//!
//! A frame file is named by a sequence number, zero-padded to five digits,
//! with the canonical `.png` extension. The next name is computed from the
//! existing directory entries: strip recognized image extensions, parse the
//! remaining stem as a non-negative integer, take the maximum over all
//! parseable stems (0 if none), and add one. Non-numeric names are ignored;
//! gaps are tolerated and numbers are never reused.

use vstd::prelude::*;
use vstd::string::*;

verus! {

/// `c` is a decimal digit.
pub open spec fn is_digit_char(c: char) -> bool {
    48 <= c as u32 <= 57
}

/// Numeric value of a digit character.
pub open spec fn digit_val(c: char) -> nat {
    ((c as u32) - 48) as nat
}

/// The digit character for a value in `0..=9`.
pub open spec fn digit_char(d: int) -> char {
    if d == 0 {
        '0'
    } else if d == 1 {
        '1'
    } else if d == 2 {
        '2'
    } else if d == 3 {
        '3'
    } else if d == 4 {
        '4'
    } else if d == 5 {
        '5'
    } else if d == 6 {
        '6'
    } else if d == 7 {
        '7'
    } else if d == 8 {
        '8'
    } else {
        '9'
    }
}

/// Every character of `s` is a decimal digit.
pub open spec fn all_digits(s: Seq<char>) -> bool {
    forall|i: int| 0 <= i < s.len() ==> is_digit_char(#[trigger] s[i])
}

/// The number denoted by a sequence of decimal digits (most significant
/// first); 0 for the empty sequence.
pub open spec fn digits_value(s: Seq<char>) -> nat
    decreases s.len(),
{
    if s.len() == 0 {
        0
    } else {
        digits_value(s.drop_last()) * 10 + digit_val(s.last())
    }
}

/// `s` is a non-empty digit string whose value fits in a `u32`.
pub open spec fn parses_to_u32(s: Seq<char>) -> bool {
    s.len() > 0 && all_digits(s) && digits_value(s) <= u32::MAX
}

/// The decimal digits of `n`, most significant first, without padding.
pub open spec fn dec_chars(n: nat) -> Seq<char>
    decreases n,
{
    if n < 10 {
        seq![digit_char(n as int)]
    } else {
        dec_chars(n / 10).push(digit_char((n % 10) as int))
    }
}

/// A sequence of `k` zero characters.
pub open spec fn zeroes(k: nat) -> Seq<char> {
    Seq::new(k, |i: int| '0')
}

/// The decimal digits of `n`, zero-padded on the left to at least `w`
/// characters.
pub open spec fn padded_dec(n: nat, w: nat) -> Seq<char> {
    let d = dec_chars(n);
    if d.len() >= w {
        d
    } else {
        zeroes((w - d.len()) as nat) + d
    }
}

/// The canonical frame extension, `.png`.
pub open spec fn png_ext() -> Seq<char> {
    seq!['.', 'p', 'n', 'g']
}

/// `s` ends in `.png`.
pub open spec fn has_png_suffix(s: Seq<char>) -> bool {
    s.len() >= 4 && s[s.len() - 4] == '.' && s[s.len() - 3] == 'p' && s[s.len() - 2] == 'n'
        && s[s.len() - 1] == 'g'
}

/// `s` ends in `.jpg`.
pub open spec fn has_jpg_suffix(s: Seq<char>) -> bool {
    s.len() >= 4 && s[s.len() - 4] == '.' && s[s.len() - 3] == 'j' && s[s.len() - 2] == 'p'
        && s[s.len() - 1] == 'g'
}

/// The stem of a filename: all trailing recognized image extensions
/// (`.png`, `.jpg`) removed.
pub open spec fn stripped_stem(s: Seq<char>) -> Seq<char>
    decreases s.len(),
{
    if has_png_suffix(s) || has_jpg_suffix(s) {
        stripped_stem(s.take(s.len() - 4))
    } else {
        s
    }
}

/// The stem of `s` is a parseable frame number.
pub open spec fn stem_parses(s: Seq<char>) -> bool {
    parses_to_u32(stripped_stem(s))
}

/// The frame number denoted by the stem of `s`.
pub open spec fn stem_value(s: Seq<char>) -> nat {
    digits_value(stripped_stem(s))
}

/// The number a directory entry contributes to the maximum: its stem's
/// value if parseable, otherwise 0.
pub open spec fn entry_number(s: Seq<char>) -> nat {
    if stem_parses(s) {
        stem_value(s)
    } else {
        0
    }
}

/// Maximum contributed number over a list of directory entries (0 if empty).
pub open spec fn max_entry_number(names: Seq<Seq<char>>) -> nat
    decreases names.len(),
{
    if names.len() == 0 {
        0
    } else {
        let rest = max_entry_number(names.drop_last());
        let v = entry_number(names.last());
        if v > rest {
            v
        } else {
            rest
        }
    }
}

/// The next frame number for a directory: one past the maximum.
pub open spec fn next_number(names: Seq<Seq<char>>) -> nat {
    max_entry_number(names) + 1
}

/// The next frame filename for a directory.
pub open spec fn next_filename_spec(names: Seq<Seq<char>>) -> Seq<char> {
    padded_dec(next_number(names), 5) + png_ext()
}

proof fn lemma_digits_value_take_succ(s: Seq<char>, i: int)
    requires
        0 <= i < s.len(),
    ensures
        digits_value(s.take(i + 1)) == digits_value(s.take(i)) * 10 + digit_val(s[i]),
{
    assert(s.take(i + 1).drop_last() =~= s.take(i));
    assert(s.take(i + 1).last() == s[i]);
}

proof fn lemma_digits_value_take_le(s: Seq<char>, i: int)
    requires
        0 <= i <= s.len(),
    ensures
        digits_value(s.take(i)) <= digits_value(s),
    decreases s.len(),
{
    if i == s.len() {
        assert(s.take(i) =~= s);
    } else {
        assert(s.len() > 0);
        lemma_digits_value_take_le(s.drop_last(), i);
        assert(s.drop_last().take(i) =~= s.take(i));
        assert(digits_value(s) == digits_value(s.drop_last()) * 10 + digit_val(s.last()));
    }
}

/// Parses a non-empty decimal string as a `u32`; `None` on the empty
/// string, on any non-digit character, and on overflow.
pub fn parse_frame_number(s: &str) -> (r: Option<u32>)
    ensures
        parses_to_u32(s@) ==> (r matches Some(v) && v == digits_value(s@)),
        !parses_to_u32(s@) ==> r is None,
{
    let n = s.unicode_len();
    if n == 0 {
        return None;
    }
    let mut acc: u32 = 0;
    let mut i: usize = 0;
    while i < n
        invariant
            n == s@.len(),
            0 <= i <= n,
            all_digits(s@.take(i as int)),
            acc == digits_value(s@.take(i as int)),
        decreases n - i,
    {
        let c = s.get_char(i);
        let u = c as u32;
        if u < 48 || u > 57 {
            assert(!is_digit_char(s@[i as int]));
            return None;
        }
        let d = u - 48;
        proof {
            lemma_digits_value_take_succ(s@, i as int);
        }
        if acc > (u32::MAX - d) / 10 {
            proof {
                let m = (u32::MAX - d) as int;
                assert(m == 10 * (m / 10) + m % 10);
                assert(acc * 10 + d > u32::MAX);
                lemma_digits_value_take_le(s@, i as int + 1);
            }
            return None;
        }
        proof {
            let m = (u32::MAX - d) as int;
            assert(m == 10 * (m / 10) + m % 10);
            assert(acc * 10 + d <= u32::MAX);
        }
        acc = acc * 10 + d;
        i = i + 1;
    }
    assert(s@.take(n as int) =~= s@);
    Some(acc)
}

proof fn lemma_dec_chars_props(n: nat)
    ensures
        dec_chars(n).len() >= 1,
        all_digits(dec_chars(n)),
        digits_value(dec_chars(n)) == n,
    decreases n,
{
    if n < 10 {
        let s = dec_chars(n);
        assert(s =~= seq![digit_char(n as int)]);
        assert(s.len() == 1);
        assert(s.drop_last() =~= Seq::<char>::empty());
        assert(digits_value(Seq::<char>::empty()) == 0);
        assert(s.last() == digit_char(n as int));
        assert(digits_value(s) == digits_value(s.drop_last()) * 10 + digit_val(s.last()));
        assert(digit_val(digit_char(n as int)) == n);
    } else {
        lemma_dec_chars_props(n / 10);
        let pre = dec_chars(n / 10);
        let c = digit_char((n % 10) as int);
        assert(dec_chars(n) == pre.push(c));
        assert(pre.push(c).drop_last() =~= pre);
        assert(pre.push(c).last() == c);
        assert(digit_val(c) == n % 10);
        assert(digits_value(dec_chars(n)) == (n / 10) * 10 + n % 10);
        assert(n == 10 * (n / 10) + n % 10);
        assert forall|i: int| 0 <= i < dec_chars(n).len() implies is_digit_char(
            #[trigger] dec_chars(n)[i],
        ) by {
            if i < pre.len() {
                assert(dec_chars(n)[i] == pre[i]);
            }
        }
    }
}

proof fn lemma_dec_chars_len(n: nat)
    ensures
        n < 10 ==> dec_chars(n).len() == 1,
        n < 100 ==> dec_chars(n).len() <= 2,
        n < 1000 ==> dec_chars(n).len() <= 3,
        n < 10000 ==> dec_chars(n).len() <= 4,
    decreases n,
{
    if n >= 10 {
        lemma_dec_chars_len(n / 10);
        assert(dec_chars(n).len() == dec_chars(n / 10).len() + 1);
    }
}

/// The decimal digits of `n` as a string, without padding.
fn dec_string(n: u64) -> (r: String)
    ensures
        r@ == dec_chars(n as nat),
    decreases n,
{
    if n < 10 {
        let s = digit_str(n as u32);
        let r = s.to_owned();
        assert(r@ =~= dec_chars(n as nat));
        r
    } else {
        assert(n / 10 < n);
        let pre = dec_string(n / 10);
        let last = digit_str((n % 10) as u32);
        let r = pre.concat(last);
        assert(r@ =~= dec_chars((n / 10) as nat).push(digit_char((n % 10) as int)));
        r
    }
}

/// The one-character string for a digit value.
fn digit_str(d: u32) -> (r: &'static str)
    requires
        d < 10,
    ensures
        r@ == seq![digit_char(d as int)],
{
    let r: &'static str = if d == 0 {
        "0"
    } else if d == 1 {
        "1"
    } else if d == 2 {
        "2"
    } else if d == 3 {
        "3"
    } else if d == 4 {
        "4"
    } else if d == 5 {
        "5"
    } else if d == 6 {
        "6"
    } else if d == 7 {
        "7"
    } else if d == 8 {
        "8"
    } else {
        "9"
    };
    proof {
        reveal_strlit("0");
        reveal_strlit("1");
        reveal_strlit("2");
        reveal_strlit("3");
        reveal_strlit("4");
        reveal_strlit("5");
        reveal_strlit("6");
        reveal_strlit("7");
        reveal_strlit("8");
        reveal_strlit("9");
        assert(r@ =~= seq![digit_char(d as int)]);
    }
    r
}

/// The decimal digits of `n`, zero-padded on the left to at least `width`
/// characters.
pub fn pad_decimal(n: u64, width: usize) -> (r: String)
    ensures
        r@ == padded_dec(n as nat, width as nat),
{
    let digits = dec_string(n);
    let dlen = digits.as_str().unicode_len();
    if dlen >= width {
        digits
    } else {
        let pad = width - dlen;
        let mut out = String::new();
        let mut j: usize = 0;
        assert(out@ =~= zeroes(0));
        while j < pad
            invariant
                0 <= j <= pad,
                out@ == zeroes(j as nat),
            decreases pad - j,
        {
            out.append("0");
            proof {
                reveal_strlit("0");
                assert(out@ =~= zeroes((j + 1) as nat));
            }
            j = j + 1;
        }
        out.append(digits.as_str());
        assert(out@ =~= zeroes(pad as nat) + dec_chars(n as nat));
        out
    }
}

/// The filename for frame number `n`: five-digit zero-padded decimal with
/// the canonical extension.
pub fn frame_filename(n: u64) -> (r: String)
    ensures
        r@ == padded_dec(n as nat, 5) + png_ext(),
{
    let base = pad_decimal(n, 5);
    let r = base.concat(".png");
    proof {
        reveal_strlit(".png");
        assert(".png"@ =~= png_ext());
    }
    r
}

/// Removes all trailing recognized image extensions from a filename.
pub fn strip_extensions(s: &str) -> (r: String)
    ensures
        r@ == stripped_stem(s@),
    decreases s@.len(),
{
    let n = s.unicode_len();
    if n >= 4 {
        let c0 = s.get_char(n - 4);
        let c1 = s.get_char(n - 3);
        let c2 = s.get_char(n - 2);
        let c3 = s.get_char(n - 1);
        let is_png = c0 == '.' && c1 == 'p' && c2 == 'n' && c3 == 'g';
        let is_jpg = c0 == '.' && c1 == 'j' && c2 == 'p' && c3 == 'g';
        if is_png || is_jpg {
            let t = s.substring_char(0, n - 4);
            assert(t@ =~= s@.take(s@.len() - 4));
            return strip_extensions(t);
        }
    }
    s.to_owned()
}

/// Parses a directory entry's stem as a frame number; `None` if the stem is
/// not a non-negative integer that fits in a `u32`.
pub fn parse_stem(s: &str) -> (r: Option<u32>)
    ensures
        stem_parses(s@) ==> (r matches Some(v) && v == stem_value(s@)),
        !stem_parses(s@) ==> r is None,
{
    let stem = strip_extensions(s);
    parse_frame_number(stem.as_str())
}

/// The next frame number for a directory listing: one past the maximum
/// parseable stem (1 if none parses).
pub fn next_frame_number(names: &Vec<String>) -> (r: u64)
    ensures
        r == next_number(names.deep_view()),
{
    let mut max: u32 = 0;
    let n = names.len();
    for i in 0..n
        invariant
            n == names@.len(),
            max == max_entry_number(names.deep_view().take(i as int)),
    {
        proof {
            assert(names.deep_view().take(i + 1).drop_last() =~= names.deep_view().take(i as int));
            assert(names.deep_view().take(i + 1).last() == names@[i as int]@);
        }
        let v = parse_stem(names[i].as_str());
        match v {
            Some(value) => {
                if value > max {
                    max = value;
                }
            },
            None => {},
        }
    }
    assert(names.deep_view().take(n as int) =~= names.deep_view());
    max as u64 + 1
}

/// The next frame filename for a directory listing.
pub fn next_filename_from(names: &Vec<String>) -> (r: String)
    ensures
        r@ == next_filename_spec(names.deep_view()),
{
    let n = next_frame_number(names);
    frame_filename(n)
}

proof fn lemma_max_entry_ge(names: Seq<Seq<char>>, i: int)
    requires
        0 <= i < names.len(),
    ensures
        max_entry_number(names) >= entry_number(names[i]),
    decreases names.len(),
{
    if i == names.len() - 1 {
        assert(names.last() == names[i]);
    } else {
        lemma_max_entry_ge(names.drop_last(), i);
        assert(names.drop_last()[i] == names[i]);
    }
}

/// Frame numbers are never reused: the next number strictly exceeds every
/// parseable stem already present.
pub proof fn law_next_number_fresh(names: Seq<Seq<char>>)
    ensures
        forall|i: int|
            0 <= i < names.len() ==> next_number(names) > entry_number(#[trigger] names[i]),
{
    assert forall|i: int| 0 <= i < names.len() implies next_number(names) > entry_number(
        #[trigger] names[i],
    ) by {
        lemma_max_entry_ge(names, i);
    }
}

/// The name of a day directory: `YYYY-MM-DD`.
pub open spec fn day_dir_spec(year: nat, month: nat, day: nat) -> Seq<char> {
    padded_dec(year, 4) + seq!['-'] + padded_dec(month, 2) + seq!['-'] + padded_dec(day, 2)
}

/// Formats a local calendar date as a day-directory name, `YYYY-MM-DD`.
pub fn day_dir_name(year: u32, month: u32, day: u32) -> (r: String)
    requires
        year <= 9999,
        1 <= month <= 12,
        1 <= day <= 31,
    ensures
        r@ == day_dir_spec(year as nat, month as nat, day as nat),
        r@.len() == 10,
{
    let mut r = pad_decimal(year as u64, 4);
    r.append("-");
    let m = pad_decimal(month as u64, 2);
    r.append(m.as_str());
    r.append("-");
    let d = pad_decimal(day as u64, 2);
    r.append(d.as_str());
    proof {
        reveal_strlit("-");
        assert("-"@ =~= seq!['-']);
        assert(r@ =~= day_dir_spec(year as nat, month as nat, day as nat));
        lemma_dec_chars_len(year as nat);
        lemma_dec_chars_len(month as nat);
        lemma_dec_chars_len(day as nat);
        assert(padded_dec(year as nat, 4).len() == 4);
        assert(padded_dec(month as nat, 2).len() == 2);
        assert(padded_dec(day as nat, 2).len() == 2);
    }
    r
}

proof fn lemma_digits_value_zero_prefix(k: nat, t: Seq<char>)
    ensures
        digits_value(zeroes(k) + t) == digits_value(t),
    decreases t.len(), k,
{
    if t.len() == 0 {
        assert(zeroes(k) + t =~= zeroes(k));
        if k == 0 {
            assert(zeroes(0) =~= Seq::<char>::empty());
        } else {
            lemma_digits_value_zero_prefix((k - 1) as nat, t);
            assert(zeroes(k).drop_last() =~= zeroes((k - 1) as nat));
            assert(zeroes((k - 1) as nat) + t =~= zeroes((k - 1) as nat));
            assert(zeroes(k).last() == '0');
            assert(digit_val('0') == 0);
        }
    } else {
        lemma_digits_value_zero_prefix(k, t.drop_last());
        assert((zeroes(k) + t).drop_last() =~= zeroes(k) + t.drop_last());
        assert((zeroes(k) + t).last() == t.last());
    }
}

/// Round trip: the filename generated for frame number `n` parses back to
/// `n` under the stem rules used to compute the next number.
pub proof fn law_frame_name_round_trip(n: nat)
    requires
        n <= u32::MAX,
    ensures
        stem_parses(padded_dec(n, 5) + png_ext()),
        stem_value(padded_dec(n, 5) + png_ext()) == n,
{
    lemma_dec_chars_props(n);
    let base = padded_dec(n, 5);
    let name = base + png_ext();
    assert(name.len() == base.len() + 4);
    assert(name[name.len() - 4] == '.');
    assert(name[name.len() - 3] == 'p');
    assert(name[name.len() - 2] == 'n');
    assert(name[name.len() - 1] == 'g');
    assert(has_png_suffix(name));
    assert(name.take(name.len() - 4) =~= base);
    // The padded digits themselves end in a digit, never in an extension.
    assert(base.len() >= 5);
    assert forall|i: int| 0 <= i < base.len() implies is_digit_char(#[trigger] base[i]) by {
        let d = dec_chars(n);
        if d.len() >= 5 {
            assert(base == d);
        } else {
            if i < base.len() - d.len() {
                assert(base[i] == '0');
            } else {
                assert(base[i] == d[i - (base.len() - d.len())]);
            }
        }
    }
    assert(!is_digit_char('.')) by {
        assert('.' as u32 == 46);
    }
    assert(!has_png_suffix(base) && !has_jpg_suffix(base)) by {
        assert(is_digit_char(base[base.len() - 4]));
    }
    assert(stripped_stem(name) == stripped_stem(base));
    assert(stripped_stem(base) == base);
    let d = dec_chars(n);
    if d.len() >= 5 {
        assert(digits_value(base) == n);
    } else {
        lemma_digits_value_zero_prefix((5 - d.len()) as nat, d);
        assert(digits_value(base) == n);
    }
}

} // verus!
