//! The vocabulary the policy recognizes from the command line: filter
//! names, resize-mode words, resolution strings of the shape `<w>x<h>`
//! (three or four digits each side, no leading zero), and the document
//! title derived from an output file name.

use vstd::prelude::*;
use vstd::string::StrSliceExecFns;

use crate::policy::ResizeFilter;
use crate::policy::ResizeMode;
use crate::MkpdfError;

verus! {

/// Character-wise string equality.
fn str_eq(a: &str, b: &str) -> (r: bool)
    ensures
        r == (a@ == b@),
{
    let alen = a.unicode_len();
    let blen = b.unicode_len();
    if alen != blen {
        return false;
    }
    let mut i: usize = 0;
    while i < alen
        invariant
            i <= alen,
            alen == a@.len(),
            alen == b@.len(),
            forall|j: int| 0 <= j < i ==> a@[j] == b@[j],
        decreases alen - i,
    {
        if a.get_char(i) != b.get_char(i) {
            return false;
        }
        i += 1;
    }
    proof {
        assert(a@ =~= b@);
    }
    true
}

/// The filter each recognized name denotes; `None` for an unknown name.
pub open spec fn filter_of_name(s: Seq<char>) -> Option<ResizeFilter> {
    if s == "nearest"@ || s == "low"@ || s == "fast"@ {
        Some(ResizeFilter::Nearest)
    } else if s == "linear"@ || s == "good"@ || s == "triangle"@ {
        Some(ResizeFilter::Triangle)
    } else if s == "lanczos"@ || s == "best"@ || s == "slow"@ {
        Some(ResizeFilter::Lanczos3)
    } else if s == "cubic"@ || s == "better"@ || s == "catmullrom"@ {
        Some(ResizeFilter::CatmullRom)
    } else if s == "gaussian"@ || s == "blur"@ {
        Some(ResizeFilter::Gaussian)
    } else {
        None
    }
}

/// Maps a filter name from the command line to the filter it denotes.
pub fn parse_filter_name(s: &str) -> (r: Option<ResizeFilter>)
    ensures
        r == filter_of_name(s@),
{
    if str_eq(s, "nearest") || str_eq(s, "low") || str_eq(s, "fast") {
        Some(ResizeFilter::Nearest)
    } else if str_eq(s, "linear") || str_eq(s, "good") || str_eq(s, "triangle") {
        Some(ResizeFilter::Triangle)
    } else if str_eq(s, "lanczos") || str_eq(s, "best") || str_eq(s, "slow") {
        Some(ResizeFilter::Lanczos3)
    } else if str_eq(s, "cubic") || str_eq(s, "better") || str_eq(s, "catmullrom") {
        Some(ResizeFilter::CatmullRom)
    } else if str_eq(s, "gaussian") || str_eq(s, "blur") {
        Some(ResizeFilter::Gaussian)
    } else {
        None
    }
}

/// A decimal digit.
pub open spec fn is_digit(c: char) -> bool {
    '0' <= c && c <= '9'
}

/// The value of a decimal digit.
pub open spec fn digit_val(c: char) -> int {
    c as int - '0' as int
}

/// The value of a string of decimal digits.
pub open spec fn dec_val(s: Seq<char>) -> int
    decreases s.len(),
{
    if s.len() == 0 {
        0
    } else {
        10 * dec_val(s.drop_last()) + digit_val(s.last())
    }
}

/// Ten to the `n`.
pub open spec fn pow10(n: nat) -> int
    decreases n,
{
    if n == 0 {
        1
    } else {
        10 * pow10((n - 1) as nat)
    }
}

/// One side of a resolution string: three or four decimal digits, the
/// first of them nonzero.
pub open spec fn is_size_field(s: Seq<char>) -> bool {
    &&& 3 <= s.len() <= 4
    &&& '1' <= s[0] && s[0] <= '9'
    &&& forall|i: int| 0 <= i < s.len() ==> is_digit(#[trigger] s[i])
}

/// `k` splits `s` into a width field, the letter `x`, and a height field.
pub open spec fn res_split_at(s: Seq<char>, k: int) -> bool {
    &&& 0 <= k < s.len()
    &&& s[k] == 'x'
    &&& is_size_field(s.subrange(0, k))
    &&& is_size_field(s.subrange(k + 1, s.len() as int))
}

/// A resolution string has the shape `<w>x<h>` with both sides size
/// fields.
pub open spec fn valid_resolution_str(s: Seq<char>) -> bool {
    exists|k: int| #[trigger] res_split_at(s, k)
}

/// The resolution a valid resolution string denotes.
pub open spec fn resolution_of(s: Seq<char>) -> (u32, u32)
    recommends
        valid_resolution_str(s),
{
    let k = choose|k: int| res_split_at(s, k);
    (
        (dec_val(s.subrange(0, k)) as u32),
        (dec_val(s.subrange(k + 1, s.len() as int)) as u32),
    )
}

/// A string splits as a resolution in at most one place: the split letter
/// would be a digit of any other split's field.
proof fn lemma_split_unique(s: Seq<char>, k1: int, k2: int)
    requires
        res_split_at(s, k1),
        res_split_at(s, k2),
    ensures
        k1 == k2,
{
    if k1 < k2 {
        assert(s.subrange(0, k2)[k1] == s[k1]);
        assert(is_digit(s[k1]));
        assert(false);
    }
    if k2 < k1 {
        assert(s.subrange(0, k1)[k2] == s[k2]);
        assert(is_digit(s[k2]));
        assert(false);
    }
}

/// A digit string's value is below ten to its length.
proof fn lemma_dec_val_upper(s: Seq<char>)
    requires
        forall|i: int| 0 <= i < s.len() ==> is_digit(#[trigger] s[i]),
    ensures
        0 <= dec_val(s) < pow10(s.len()),
    decreases s.len(),
{
    if s.len() > 0 {
        assert(forall|i: int|
            0 <= i < s.len() - 1 ==> s.drop_last()[i] == (#[trigger] s[i]));
        lemma_dec_val_upper(s.drop_last());
        assert(s.last() == s[s.len() - 1]);
    }
}

/// A digit string with a nonzero leading digit has a value of at least
/// ten to one less than its length.
proof fn lemma_dec_val_lower(s: Seq<char>)
    requires
        s.len() >= 1,
        '1' <= s[0],
        forall|i: int| 0 <= i < s.len() ==> is_digit(#[trigger] s[i]),
    ensures
        dec_val(s) >= pow10((s.len() - 1) as nat),
    decreases s.len(),
{
    if s.len() == 1 {
        assert(s.drop_last().len() == 0);
        assert(dec_val(s.drop_last()) == 0);
        assert(s.last() == s[0]);
    } else {
        assert(forall|i: int|
            0 <= i < s.len() - 1 ==> s.drop_last()[i] == (#[trigger] s[i]));
        lemma_dec_val_lower(s.drop_last());
        assert(s.last() == s[s.len() - 1]);
        assert(digit_val(s.last()) >= 0);
    }
}

/// Whether the characters of `s` from `start` to `end` form a size field.
fn check_size_field(s: &str, start: usize, end: usize) -> (r: bool)
    requires
        start <= end <= s@.len(),
    ensures
        r == is_size_field(s@.subrange(start as int, end as int)),
{
    let ghost sub = s@.subrange(start as int, end as int);
    if end - start < 3 || end - start > 4 {
        return false;
    }
    let c0 = s.get_char(start);
    proof {
        assert(sub[0] == s@[start as int]);
    }
    if !(c0 >= '1' && c0 <= '9') {
        return false;
    }
    let mut i: usize = start + 1;
    while i < end
        invariant
            start + 1 <= i <= end,
            end <= s@.len(),
            sub == s@.subrange(start as int, end as int),
            forall|j: int| start < j < i ==> is_digit(#[trigger] s@[j]),
        decreases end - i,
    {
        let c = s.get_char(i);
        if !(c >= '0' && c <= '9') {
            proof {
                assert(sub[i - start] == s@[i as int]);
            }
            return false;
        }
        i += 1;
    }
    proof {
        assert(forall|j: int| 0 < j < sub.len() ==> sub[j] == s@[start + j] && is_digit(#[trigger] sub[j]));
        assert('1' <= sub[0] && sub[0] <= '9');
        assert(is_digit(sub[0]));
    }
    true
}

/// The value of the digits of `s` from `start` to `end`.
fn parse_size_field(s: &str, start: usize, end: usize) -> (r: u32)
    requires
        start <= end <= s@.len(),
        is_size_field(s@.subrange(start as int, end as int)),
    ensures
        r as int == dec_val(s@.subrange(start as int, end as int)),
        100 <= r <= 9999,
{
    let ghost sub = s@.subrange(start as int, end as int);
    let mut acc: u32 = 0;
    let mut i: usize = start;
    while i < end
        invariant
            start <= i <= end,
            end <= s@.len(),
            end - start <= 4,
            sub == s@.subrange(start as int, end as int),
            is_size_field(sub),
            acc as int == dec_val(s@.subrange(start as int, i as int)),
            (acc as int) < pow10((i - start) as nat),
        decreases end - i,
    {
        let c = s.get_char(i);
        proof {
            reveal_with_fuel(pow10, 6);
            assert(sub[i - start] == s@[i as int]);
            assert(is_digit(s@[i as int]));
            assert(s@.subrange(start as int, i + 1).drop_last() =~= s@.subrange(
                start as int,
                i as int,
            ));
            assert(s@.subrange(start as int, i + 1).last() == s@[i as int]);
            assert(pow10((i + 1 - start) as nat) == 10 * pow10((i - start) as nat));
            let m = (i - start) as nat;
            assert(m == 0 || m == 1 || m == 2 || m == 3);
            assert(pow10(m) <= 1000);
        }
        let d = (c as u32) - ('0' as u32);
        acc = acc * 10 + d;
        i += 1;
    }
    proof {
        reveal_with_fuel(pow10, 6);
        lemma_dec_val_upper(sub);
        lemma_dec_val_lower(sub);
        assert(pow10(2) == 100);
        assert(pow10(3) == 1000);
        assert(pow10(4) == 10000);
    }
    acc
}

/// Parses a resolution string of the shape `<w>x<h>`, three or four
/// digits on each side with no leading zero. Returns the denoted pair
/// exactly for valid strings, `None` for everything else; the denoted
/// components always lie between 100 and 9999.
pub fn parse_resolution(s: &str) -> (r: Option<(u32, u32)>)
    ensures
        r is Some <==> valid_resolution_str(s@),
        r is Some ==> r == Some::<(u32, u32)>(resolution_of(s@)),
        r is Some ==> 100 <= r.unwrap().0 <= 9999 && 100 <= r.unwrap().1 <= 9999,
{
    let n = s.unicode_len();
    if n < 7 || n > 9 {
        proof {
            assert forall|k: int| !res_split_at(s@, k) by {
                if res_split_at(s@, k) {
                    assert(s@.subrange(0, k).len() == k);
                    assert(s@.subrange(k + 1, s@.len() as int).len() == s@.len() - k - 1);
                }
            }
        }
        return None;
    }
    let k: usize = if s.get_char(3) == 'x' {
        3
    } else if s.get_char(4) == 'x' {
        4
    } else {
        proof {
            assert forall|k: int| !res_split_at(s@, k) by {
                if res_split_at(s@, k) {
                    assert(s@.subrange(0, k).len() == k);
                    assert(k == 3 || k == 4);
                }
            }
        }
        return None;
    };
    if !check_size_field(s, 0, k) {
        proof {
            assert forall|j: int| !res_split_at(s@, j) by {
                if res_split_at(s@, j) {
                    assert(s@.subrange(0, j).len() == j);
                    assert(j == 3 || j == 4);
                    if j != k {
                        assert(s@.subrange(0, j)[k as int] == s@[k as int]);
                        assert(is_digit(s@[k as int]));
                    }
                    assert(s@.subrange(0, k as int) =~= s@.subrange(0, j));
                }
            }
        }
        return None;
    }
    if !check_size_field(s, k + 1, n) {
        proof {
            assert forall|j: int| !res_split_at(s@, j) by {
                if res_split_at(s@, j) {
                    assert(s@.subrange(0, j).len() == j);
                    assert(j == 3 || j == 4);
                    if j != k {
                        assert(s@.subrange(0, j)[k as int] == s@[k as int]);
                        assert(is_digit(s@[k as int]));
                    }
                    assert(s@.subrange(k + 1, s@.len() as int) =~= s@.subrange(
                        j + 1,
                        s@.len() as int,
                    ));
                }
            }
        }
        return None;
    }
    let w = parse_size_field(s, 0, k);
    let h = parse_size_field(s, k + 1, n);
    proof {
        assert(res_split_at(s@, k as int));
        let kk = choose|j: int| res_split_at(s@, j);
        lemma_split_unique(s@, kk, k as int);
    }
    Some((w, h))
}

/// What a resize argument denotes: the word `min` or `max` picks the
/// aggregate mode with no resolution, a valid resolution string picks the
/// custom mode with the denoted resolution, and anything else is invalid.
pub open spec fn resize_word_of(s: Seq<char>) -> Option<(ResizeMode, Option<(u32, u32)>)> {
    if s == "min"@ {
        Some((ResizeMode::Min, Option::<(u32, u32)>::None))
    } else if s == "max"@ {
        Some((ResizeMode::Max, Option::<(u32, u32)>::None))
    } else if valid_resolution_str(s) {
        Some((ResizeMode::Custom, Some(resolution_of(s))))
    } else {
        None
    }
}

/// Parses the argument of the resize option: `min`, `max`, or a
/// resolution string; everything else is a configuration error.
pub fn parse_resize_spec(s: &str) -> (r: Result<(ResizeMode, Option<(u32, u32)>), MkpdfError>)
    ensures
        r is Ok <==> resize_word_of(s@) is Some,
        r is Ok ==> r == Ok::<(ResizeMode, Option<(u32, u32)>), MkpdfError>(
            resize_word_of(s@).unwrap(),
        ),
        r is Err ==> r == Err::<(ResizeMode, Option<(u32, u32)>), MkpdfError>(
            MkpdfError::Configuration,
        ),
{
    if str_eq(s, "min") {
        Ok((ResizeMode::Min, None))
    } else if str_eq(s, "max") {
        Ok((ResizeMode::Max, None))
    } else {
        match parse_resolution(s) {
            Some(res) => Ok((ResizeMode::Custom, Some(res))),
            None => Err(MkpdfError::Configuration),
        }
    }
}

/// An option-introducing character: an ASCII letter or digit.
pub open spec fn is_opt_char(c: char) -> bool {
    ('0' <= c && c <= '9') || ('a' <= c && c <= 'z') || ('A' <= c && c <= 'Z')
}

/// Whether an argument is a short option: a dash followed by an ASCII
/// letter or digit.
pub fn is_short_option(s: &str) -> (r: bool)
    ensures
        r == (s@.len() >= 2 && s@[0] == '-' && is_opt_char(s@[1])),
{
    let n = s.unicode_len();
    if n < 2 {
        return false;
    }
    if s.get_char(0) != '-' {
        return false;
    }
    let c = s.get_char(1);
    (c >= '0' && c <= '9') || (c >= 'a' && c <= 'z') || (c >= 'A' && c <= 'Z')
}

/// Whether an argument is a long option: two dashes followed by an ASCII
/// letter or digit.
pub fn is_long_option(s: &str) -> (r: bool)
    ensures
        r == (s@.len() >= 3 && s@[0] == '-' && s@[1] == '-' && is_opt_char(s@[2])),
{
    let n = s.unicode_len();
    if n < 3 {
        return false;
    }
    if s.get_char(0) != '-' || s.get_char(1) != '-' {
        return false;
    }
    let c = s.get_char(2);
    (c >= '0' && c <= '9') || (c >= 'a' && c <= 'z') || (c >= 'A' && c <= 'Z')
}

/// The document title an output file name denotes: the name with every
/// trailing `.pdf` stripped.
pub open spec fn title_of_name(s: Seq<char>) -> Seq<char>
    decreases s.len(),
{
    if s.len() >= 4 && s.subrange(s.len() - 4, s.len() as int) == ".pdf"@ {
        title_of_name(s.subrange(0, s.len() - 4))
    } else {
        s
    }
}

/// Whether the name ends in `.pdf`.
pub fn has_pdf_suffix(s: &str) -> (r: bool)
    ensures
        r == (s@.len() >= 4 && s@.subrange(s@.len() - 4, s@.len() as int) == ".pdf"@),
{
    let n = s.unicode_len();
    if n < 4 {
        return false;
    }
    let tail = s.substring_char(n - 4, n);
    str_eq(tail, ".pdf")
}

/// Derives the document title from an output file name by stripping every
/// trailing `.pdf`.
pub fn title_of(name: &str) -> (r: &str)
    ensures
        r@ == title_of_name(name@),
{
    let mut cur: &str = name;
    while has_pdf_suffix(cur)
        invariant
            title_of_name(cur@) == title_of_name(name@),
        decreases cur@.len(),
    {
        let n = cur.unicode_len();
        cur = cur.substring_char(0, n - 4);
    }
    cur
}

} // verus!
