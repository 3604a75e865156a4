//! The solid-color render model: one RGBA value in a uniform buffer, drawn
//! with the shared color pipeline.

use std::sync::Arc;
use vstd::prelude::*;

use crate::gpu;
use crate::manifest::{
    lemma_digits_nonneg, lemma_digits_prefix, spec_all_digits, spec_digits_to_int, spec_is_digit,
};
use crate::renderer::manager::Manager;

verus! {

/// A color as four 8-bit channels.
#[derive(Debug, Clone, Copy, PartialEq, Eq, Structural)]
pub struct Rgba {
    pub red: u8,
    pub green: u8,
    pub blue: u8,
    pub alpha: u8,
}

/// Opaque black, the fallback for color strings that do not parse.
pub open spec fn spec_black() -> Rgba {
    Rgba { red: 0, green: 0, blue: 0, alpha: 255 }
}

/// The value of one hex digit, if the character is one.
pub open spec fn spec_hex_digit(c: char) -> Option<u8> {
    let v = c as u32;
    if 48 <= v <= 57 {
        Some((v - 48) as u8)
    } else if 97 <= v <= 102 {
        Some((v - 97 + 10) as u8)
    } else if 65 <= v <= 70 {
        Some((v - 65 + 10) as u8)
    } else {
        None
    }
}

/// Whether the string is `#` followed by six hex digits.
pub open spec fn spec_is_hex_color(s: Seq<char>) -> bool {
    &&& s.len() == 7
    &&& s[0] == '#'
    &&& forall|i: int| 1 <= i < 7 ==> spec_hex_digit(#[trigger] s[i]) is Some
}

/// One color channel out of two hex digits.
pub open spec fn spec_hex_byte(hi: char, lo: char) -> u8 {
    (spec_hex_digit(hi).unwrap() * 16 + spec_hex_digit(lo).unwrap()) as u8
}

/// The color a CSS-style hex string names: `#RRGGBB` gives its channels with
/// full opacity, and anything else falls back to opaque black.
pub open spec fn spec_parse_hex_color(s: Seq<char>) -> Rgba {
    if spec_is_hex_color(s) {
        Rgba {
            red: spec_hex_byte(s[1], s[2]),
            green: spec_hex_byte(s[3], s[4]),
            blue: spec_hex_byte(s[5], s[6]),
            alpha: 255,
        }
    } else {
        spec_black()
    }
}

/// The value of one hex digit character.
fn hex_digit(c: char) -> (r: Option<u8>)
    ensures
        r == spec_hex_digit(c),
{
    let v = c as u32;
    if 48 <= v && v <= 57 {
        Some((v - 48) as u8)
    } else if 97 <= v && v <= 102 {
        Some((v - 97 + 10) as u8)
    } else if 65 <= v && v <= 70 {
        Some((v - 65 + 10) as u8)
    } else {
        None
    }
}

/// Parses a `#RRGGBB` color string; invalid strings give opaque black.
pub fn parse_hex_color(hex: &str) -> (r: Rgba)
    ensures
        r == spec_parse_hex_color(hex@),
{
    if hex.unicode_len() != 7 {
        return Rgba { red: 0, green: 0, blue: 0, alpha: 255 };
    }
    if hex.get_char(0) != '#' {
        return Rgba { red: 0, green: 0, blue: 0, alpha: 255 };
    }
    let d1 = hex_digit(hex.get_char(1));
    let d2 = hex_digit(hex.get_char(2));
    let d3 = hex_digit(hex.get_char(3));
    let d4 = hex_digit(hex.get_char(4));
    let d5 = hex_digit(hex.get_char(5));
    let d6 = hex_digit(hex.get_char(6));
    match (d1, d2, d3, d4, d5, d6) {
        (Some(h1), Some(l1), Some(h2), Some(l2), Some(h3), Some(l3)) => Rgba {
            red: h1 * 16 + l1,
            green: h2 * 16 + l2,
            blue: h3 * 16 + l3,
            alpha: 255,
        },
        _ => Rgba { red: 0, green: 0, blue: 0, alpha: 255 },
    }
}


/// The first position of `c` in `s` at or after `from`.
pub open spec fn spec_find_from(s: Seq<char>, c: char, from: int) -> Option<int>
    decreases s.len() - from,
{
    if from < 0 || from >= s.len() {
        None
    } else if s[from] == c {
        Some(from)
    } else {
        spec_find_from(s, c, from + 1)
    }
}

/// What a found position means: it carries `c`, nothing before it does, and
/// a miss means no position from `from` on carries `c`.
pub proof fn lemma_find_from(s: Seq<char>, c: char, from: int)
    requires
        0 <= from,
    ensures
        match spec_find_from(s, c, from) {
            Some(i) => from <= i < s.len() && s[i] == c && forall|j: int|
                from <= j < i && 0 <= j ==> s[j] != c,
            None => forall|j: int| from <= j < s.len() && 0 <= j ==> s[j] != c,
        },
    decreases s.len() - from,
{
    if from < 0 || from >= s.len() {
        assert(spec_find_from(s, c, from) is None);
    } else if s[from] == c {
        assert(spec_find_from(s, c, from) == Some(from));
    } else {
        lemma_find_from(s, c, from + 1);
        assert(spec_find_from(s, c, from) == spec_find_from(s, c, from + 1));
    }
}

/// The start of the range with leading spaces dropped.
pub open spec fn spec_trim_start(s: Seq<char>, from: int, to: int) -> int
    decreases to - from,
{
    if 0 <= from && from < to && to <= s.len() && s[from] == ' ' {
        spec_trim_start(s, from + 1, to)
    } else {
        from
    }
}

/// The end of the range with trailing spaces dropped.
pub open spec fn spec_trim_end(s: Seq<char>, from: int, to: int) -> int
    decreases to - from,
{
    if 0 <= from && from < to && to <= s.len() && s[to - 1] == ' ' {
        spec_trim_end(s, from, to - 1)
    } else {
        to
    }
}

/// A color channel written as decimal digits, optionally surrounded by
/// spaces: a value from 0 to 255.
pub open spec fn spec_channel_value(s: Seq<char>, from: int, to: int) -> Option<u8> {
    let f = spec_trim_start(s, from, to);
    let t = spec_trim_end(s, f, to);
    if 0 <= f && f < t && t <= s.len() && spec_all_digits(s.subrange(f, t)) {
        let v = spec_digits_to_int(s.subrange(f, t));
        if v <= 255 {
            Some(v as u8)
        } else {
            None
        }
    } else {
        None
    }
}

/// The value of fractional digits in thousandths: the first three digits
/// count, shorter runs are padded with zeros.
pub open spec fn spec_frac_milli(d: Seq<char>) -> int {
    if d.len() == 0 {
        0
    } else if d.len() == 1 {
        spec_digits_to_int(d) * 100
    } else if d.len() == 2 {
        spec_digits_to_int(d) * 10
    } else {
        spec_digits_to_int(d.take(3))
    }
}

/// An alpha value written as a decimal number, optionally surrounded by
/// spaces, in thousandths clamped to one: whole digits, a dot with
/// fractional digits, or both, with at least one digit in all.
pub open spec fn spec_alpha_milli(s: Seq<char>, from: int, to: int) -> Option<int> {
    let f = spec_trim_start(s, from, to);
    let t = spec_trim_end(s, f, to);
    if !(0 <= f && f < t && t <= s.len()) {
        None
    } else {
        let dotpos = spec_find_from(s, '.', f);
        if dotpos is Some && dotpos.unwrap() < t {
            let dot = dotpos.unwrap();
            let ip = s.subrange(f, dot);
            let fp = s.subrange(dot + 1, t);
            if ip.len() == 0 && fp.len() == 0 {
                None
            } else if ip.len() > 0 && !spec_all_digits(ip) {
                None
            } else if fp.len() > 0 && !spec_all_digits(fp) {
                None
            } else {
                let whole = if ip.len() == 0 {
                    0
                } else {
                    spec_digits_to_int(ip)
                };
                let m = whole * 1000 + spec_frac_milli(fp);
                if m > 1000 {
                    Some(1000)
                } else {
                    Some(m)
                }
            }
        } else {
            if spec_all_digits(s.subrange(f, t)) {
                let m = spec_digits_to_int(s.subrange(f, t)) * 1000;
                if m > 1000 {
                    Some(1000)
                } else {
                    Some(m)
                }
            } else {
                None
            }
        }
    }
}

/// The color a functional `rgba(R, G, B, A)` string names: three channels
/// from 0 to 255 and a decimal alpha from 0 to 1, with anything malformed
/// falling back to opaque black.
pub open spec fn spec_parse_functional_color(s: Seq<char>) -> Rgba {
    if !(s.len() >= 6 && s.subrange(0, 5) == "rgba("@ && s[s.len() - 1] == ')') {
        spec_black()
    } else {
        let end = s.len() - 1;
        let p1 = spec_find_from(s, ',', 5);
        if p1 is None {
            spec_black()
        } else {
            let c1 = p1.unwrap();
            let p2 = spec_find_from(s, ',', c1 + 1);
            if p2 is None {
                spec_black()
            } else {
                let c2 = p2.unwrap();
                let p3 = spec_find_from(s, ',', c2 + 1);
                if p3 is None {
                    spec_black()
                } else {
                    let c3 = p3.unwrap();
                    if spec_find_from(s, ',', c3 + 1) is Some {
                        spec_black()
                    } else {
                        let red = spec_channel_value(s, 5, c1);
                        let green = spec_channel_value(s, c1 + 1, c2);
                        let blue = spec_channel_value(s, c2 + 1, c3);
                        let alpha = spec_alpha_milli(s, c3 + 1, end);
                        if red is Some && green is Some && blue is Some && alpha is Some {
                            Rgba {
                                red: red.unwrap(),
                                green: green.unwrap(),
                                blue: blue.unwrap(),
                                alpha: ((alpha.unwrap() * 255) / 1000) as u8,
                            }
                        } else {
                            spec_black()
                        }
                    }
                }
            }
        }
    }
}

/// The color any supported color string names: `#RRGGBB` hex form,
/// functional `rgba(...)` form, or opaque black for anything else.
pub open spec fn spec_parse_color(s: Seq<char>) -> Rgba {
    if spec_is_hex_color(s) {
        spec_parse_hex_color(s)
    } else {
        spec_parse_functional_color(s)
    }
}

/// Finds the first `c` in `s` at or after `from`.
fn find_from(s: &str, c: char, from: usize) -> (r: Option<usize>)
    ensures
        match r {
            Some(i) => spec_find_from(s@, c, from as int) == Some(i as int) && from <= i < s@.len(),
            None => spec_find_from(s@, c, from as int) is None,
        },
{
    let n = s.unicode_len();
    if from >= n {
        return None;
    }
    let mut i: usize = from;
    while i < n
        invariant
            from <= i <= n,
            n == s@.len(),
            spec_find_from(s@, c, from as int) == spec_find_from(s@, c, i as int),
        decreases n - i,
    {
        if s.get_char(i) == c {
            return Some(i);
        }
        i += 1;
    }
    None
}

/// Drops leading spaces from the range.
fn trim_start(s: &str, from: usize, to: usize) -> (r: usize)
    requires
        to <= s@.len(),
    ensures
        r == spec_trim_start(s@, from as int, to as int),
        from <= r,
        r <= to || r == from,
{
    let mut i: usize = from;
    while i < to && s.get_char(i) == ' '
        invariant
            from <= i,
            i <= to || i == from,
            to <= s@.len(),
            spec_trim_start(s@, from as int, to as int) == spec_trim_start(s@, i as int, to as int),
        decreases to - i,
    {
        i += 1;
    }
    i
}

/// Drops trailing spaces from the range.
fn trim_end(s: &str, from: usize, to: usize) -> (r: usize)
    requires
        to <= s@.len(),
    ensures
        r == spec_trim_end(s@, from as int, to as int),
        r <= to,
        from <= r || r == to,
{
    let mut j: usize = to;
    while j > from && s.get_char(j - 1) == ' '
        invariant
            j <= to,
            from <= j || j == to,
            to <= s@.len(),
            spec_trim_end(s@, from as int, to as int) == spec_trim_end(s@, from as int, j as int),
        decreases j,
    {
        j -= 1;
    }
    j
}

/// Reads a color channel from the range: decimal digits, optional spaces,
/// at most 255.
fn channel_value(s: &str, from: usize, to: usize) -> (r: Option<u8>)
    requires
        to <= s@.len(),
    ensures
        r == spec_channel_value(s@, from as int, to as int),
{
    let f = trim_start(s, from, to);
    let t = trim_end(s, f, to);
    if !(f < t) {
        return None;
    }
    let ghost digits = s@.subrange(f as int, t as int);
    let mut acc: u32 = 0;
    let mut i: usize = f;
    while i < t
        invariant
            f <= i <= t,
            t <= s@.len(),
            from <= f,
            f < t,
            f == spec_trim_start(s@, from as int, to as int),
            t == spec_trim_end(s@, f as int, to as int),
            digits == s@.subrange(f as int, t as int),
            forall|j: int| f <= j < i ==> spec_is_digit(#[trigger] s@[j]),
            acc == spec_digits_to_int(s@.subrange(f as int, i as int)),
            acc <= 2559,
        decreases t - i,
    {
        let cv = s.get_char(i) as u32;
        if cv < 48 || cv > 57 {
            proof {
                assert(digits[i - f] == s@[i as int]);
                assert(!spec_all_digits(digits));
            }
            return None;
        }
        proof {
            let pref = s@.subrange(f as int, i as int + 1);
            assert(pref.drop_last() =~= s@.subrange(f as int, i as int));
            assert(pref.last() == s@[i as int]);
        }
        if acc > 255 {
            proof {
                assert forall|j: int| 0 <= j < digits.len() implies spec_is_digit(
                    #[trigger] digits[j],
                ) || !spec_all_digits(digits) by {
                    assert(digits[j] == s@[f + j]);
                }
                if spec_all_digits(digits) {
                    assert forall|j: int| f <= j < t implies spec_is_digit(#[trigger] s@[j]) by {
                        assert(digits[j - f] == s@[j]);
                    }
                    lemma_digits_prefix(digits, i - f);
                    assert(digits.take(i - f) =~= s@.subrange(f as int, i as int));
                    assert(spec_digits_to_int(digits) > 255);
                }
            }
            return None;
        }
        acc = acc * 10 + (cv - 48);
        i += 1;
    }
    proof {
        assert(s@.subrange(f as int, t as int) =~= digits);
        assert forall|j: int| 0 <= j < digits.len() implies spec_is_digit(#[trigger] digits[j]) by {
            assert(digits[j] == s@[f + j]);
        }
        assert(spec_all_digits(digits));
    }
    if acc <= 255 {
        Some(acc as u8)
    } else {
        None
    }
}

/// Reads digits of the range exactly, or reports how they fail: the run's
/// value capped once it exceeds one, and whether every character is a digit.
fn digits_value_capped(s: &str, from: usize, to: usize) -> (r: Option<u32>)
    requires
        to <= s@.len(),
        from <= to,
    ensures
        match r {
            Some(v) => {
                &&& spec_all_digits(s@.subrange(from as int, to as int)) || from == to
                &&& (v <= 1000 ==> v == spec_digits_to_int(s@.subrange(from as int, to as int)))
                &&& (v > 1000 ==> spec_digits_to_int(s@.subrange(from as int, to as int)) > 1000)
            },
            None => from < to && !spec_all_digits(s@.subrange(from as int, to as int)),
        },
{
    let ghost digits = s@.subrange(from as int, to as int);
    let mut acc: u32 = 0;
    let mut i: usize = from;
    while i < to
        invariant
            from <= i <= to,
            to <= s@.len(),
            digits == s@.subrange(from as int, to as int),
            forall|j: int| from <= j < i ==> spec_is_digit(#[trigger] s@[j]),
            acc <= 1000 ==> acc == spec_digits_to_int(s@.subrange(from as int, i as int)),
            acc > 1000 ==> spec_digits_to_int(s@.subrange(from as int, i as int)) > 1000,
            acc <= 10009,
        decreases to - i,
    {
        let cv = s.get_char(i) as u32;
        if cv < 48 || cv > 57 {
            proof {
                assert(digits[i - from] == s@[i as int]);
                assert(!spec_all_digits(digits));
            }
            return None;
        }
        proof {
            let pref = s@.subrange(from as int, i as int + 1);
            assert(pref.drop_last() =~= s@.subrange(from as int, i as int));
            assert(pref.last() == s@[i as int]);
            if acc > 1000 {
                lemma_digits_nonneg(s@.subrange(from as int, i as int));
                assert(spec_digits_to_int(pref) > 1000);
            }
        }
        if acc <= 1000 {
            acc = acc * 10 + (cv - 48);
        }
        i += 1;
    }
    proof {
        assert(s@.subrange(from as int, to as int) =~= digits);
        if from < to {
            assert forall|j: int| 0 <= j < digits.len() implies spec_is_digit(
                #[trigger] digits[j],
            ) by {
                assert(digits[j] == s@[from + j]);
            }
            assert(spec_all_digits(digits));
        }
    }
    Some(acc)
}

/// Reads an alpha value from the range: a decimal number from 0 to 1, in
/// thousandths.
fn alpha_milli(s: &str, from: usize, to: usize) -> (r: Option<u32>)
    requires
        to <= s@.len(),
    ensures
        match r {
            Some(v) => spec_alpha_milli(s@, from as int, to as int) == Some(v as int) && v <= 1000,
            None => spec_alpha_milli(s@, from as int, to as int) is None,
        },
{
    let f = trim_start(s, from, to);
    let t = trim_end(s, f, to);
    if !(f < t) {
        return None;
    }
    let dotpos = find_from(s, '.', f);
    let has_dot = match dotpos {
        Some(d) => d < t,
        None => false,
    };
    if has_dot {
        let dot = match dotpos {
            Some(d) => d,
            None => 0,
        };
        if dot == f && dot + 1 == t {
            return None;
        }
        let whole = match digits_value_capped(s, f, dot) {
            Some(v) => v,
            None => {
                return None;
            },
        };
        let ghost fp = s@.subrange(dot + 1, t as int);
        let mut facc: u32 = 0;
        let mut count: usize = 0;
        let mut j: usize = dot + 1;
        while j < t
            invariant
                dot + 1 <= j <= t,
                t <= s@.len(),
                from <= f,
                f < t,
                f <= dot,
                dot < t,
                f == spec_trim_start(s@, from as int, to as int),
                t == spec_trim_end(s@, f as int, to as int),
                spec_find_from(s@, '.', f as int) == Some(dot as int),
                s@.subrange(f as int, dot as int).len() == 0 || spec_all_digits(
                    s@.subrange(f as int, dot as int),
                ),
                fp == s@.subrange(dot + 1, t as int),
                count == j - (dot + 1),
                forall|q: int| dot + 1 <= q < j ==> spec_is_digit(#[trigger] s@[q]),
                count < 3 ==> facc == spec_digits_to_int(s@.subrange(dot + 1, j as int)),
                count >= 3 ==> facc == spec_digits_to_int(s@.subrange(dot + 1, dot + 4)),
                count == 0 ==> facc == 0,
                count == 1 ==> facc <= 9,
                count == 2 ==> facc <= 99,
                facc <= 999,
            decreases t - j,
        {
            let cv = s.get_char(j) as u32;
            if cv < 48 || cv > 57 {
                proof {
                    assert(fp[j - (dot + 1)] == s@[j as int]);
                    assert(!spec_all_digits(fp));
                }
                return None;
            }
            proof {
                let pref = s@.subrange(dot + 1, j as int + 1);
                assert(pref.drop_last() =~= s@.subrange(dot + 1, j as int));
                assert(pref.last() == s@[j as int]);
            }
            if count < 3 {
                facc = facc * 10 + (cv - 48);
            }
            count += 1;
            j += 1;
        }
        proof {
            assert(s@.subrange(dot + 1, t as int) =~= fp);
            assert forall|q: int| 0 <= q < fp.len() implies spec_is_digit(#[trigger] fp[q]) by {
                assert(fp[q] == s@[dot + 1 + q]);
            }
            if fp.len() >= 1 {
                assert(spec_all_digits(fp));
            }
            if fp.len() >= 3 {
                assert(fp.take(3) =~= s@.subrange(dot + 1, dot + 4));
            } else {
                assert(s@.subrange(dot + 1, t as int) =~= fp);
            }
        }
        let frac3: u32 = if count == 0 {
            0
        } else if count == 1 {
            facc * 100
        } else if count == 2 {
            facc * 10
        } else {
            facc
        };
        if whole > 1000 {
            Some(1000)
        } else {
            let m = whole * 1000 + frac3;
            proof {
                lemma_digits_nonneg(s@.subrange(f as int, dot as int));
            }
            if m > 1000 {
                Some(1000)
            } else {
                Some(m)
            }
        }
    } else {
        let whole = match digits_value_capped(s, f, t) {
            Some(v) => v,
            None => {
                return None;
            },
        };
        proof {
            lemma_digits_nonneg(s@.subrange(f as int, t as int));
        }
        if whole >= 1 {
            Some(1000)
        } else {
            Some(0)
        }
    }
}

/// Parses a functional `rgba(R, G, B, A)` color string; anything malformed
/// gives opaque black.
pub fn parse_functional_color(s: &str) -> (r: Rgba)
    ensures
        r == spec_parse_functional_color(s@),
{
    let black = Rgba { red: 0, green: 0, blue: 0, alpha: 255 };
    let n = s.unicode_len();
    if n < 6 {
        return black;
    }
    let prefix_ok = s.get_char(0) == 'r' && s.get_char(1) == 'g' && s.get_char(2) == 'b'
        && s.get_char(3) == 'a' && s.get_char(4) == '(';
    proof {
        reveal_strlit("rgba(");
        if prefix_ok {
            assert(s@.subrange(0, 5) =~= "rgba("@);
        } else {
            assert(s@.subrange(0, 5) != "rgba("@) by {
                if s@.subrange(0, 5) == "rgba("@ {
                    assert(s@[0] == s@.subrange(0, 5)[0]);
                    assert(s@[1] == s@.subrange(0, 5)[1]);
                    assert(s@[2] == s@.subrange(0, 5)[2]);
                    assert(s@[3] == s@.subrange(0, 5)[3]);
                    assert(s@[4] == s@.subrange(0, 5)[4]);
                }
            }
        }
    }
    if !prefix_ok {
        return black;
    }
    if s.get_char(n - 1) != ')' {
        return black;
    }
    let end = n - 1;
    let c1 = match find_from(s, ',', 5) {
        Some(v) => v,
        None => {
            return black;
        },
    };
    let c2 = match find_from(s, ',', c1 + 1) {
        Some(v) => v,
        None => {
            return black;
        },
    };
    let c3 = match find_from(s, ',', c2 + 1) {
        Some(v) => v,
        None => {
            return black;
        },
    };
    if find_from(s, ',', c3 + 1).is_some() {
        return black;
    }
    proof {
        lemma_find_from(s@, ',', 5);
        lemma_find_from(s@, ',', c1 as int + 1);
        lemma_find_from(s@, ',', c2 as int + 1);
    }
    let red = channel_value(s, 5, c1);
    let green = channel_value(s, c1 + 1, c2);
    let blue = channel_value(s, c2 + 1, c3);
    let alpha = alpha_milli(s, c3 + 1, end);
    match (red, green, blue, alpha) {
        (Some(cr), Some(cg), Some(cb), Some(am)) => Rgba {
            red: cr,
            green: cg,
            blue: cb,
            alpha: ((am * 255) / 1000) as u8,
        },
        _ => black,
    }
}

/// Whether the string has the `#RRGGBB` hex form.
fn is_hex_color(s: &str) -> (r: bool)
    ensures
        r == spec_is_hex_color(s@),
{
    if s.unicode_len() != 7 {
        return false;
    }
    if s.get_char(0) != '#' {
        return false;
    }
    let mut i: usize = 1;
    while i < 7
        invariant
            1 <= i <= 7,
            s@.len() == 7,
            forall|j: int| 1 <= j < i ==> spec_hex_digit(#[trigger] s@[j]) is Some,
        decreases 7 - i,
    {
        if hex_digit(s.get_char(i)).is_none() {
            return false;
        }
        i += 1;
    }
    true
}

/// Parses a color string of either supported form: `#RRGGBB` hex or
/// functional `rgba(R, G, B, A)`; anything else gives opaque black.
pub fn parse_color(s: &str) -> (r: Rgba)
    ensures
        r == spec_parse_color(s@),
{
    if is_hex_color(s) {
        parse_hex_color(s)
    } else {
        parse_functional_color(s)
    }
}

/// A renderable solid color: its channel values, the uniform buffer the
/// surrounding application encodes them into, and the shared pipeline and
/// bind set.
pub struct ColorModel {
    /// The color this model shows.
    pub color: Rgba,
    /// The uniform buffer the color is encoded into.
    pub color_buffer: wgpu::Buffer,
    /// The shared compiled pipeline.
    pub render_pipeline: Arc<wgpu::RenderPipeline>,
    /// The bind set referencing this instance's buffer.
    pub bind_group: Arc<wgpu::BindGroup>,
}

impl ColorModel {
    /// Assembles a color model from its parts.
    pub fn new(
        color: Rgba,
        color_buffer: wgpu::Buffer,
        render_pipeline: Arc<wgpu::RenderPipeline>,
        bind_group: Arc<wgpu::BindGroup>,
    ) -> (r: Self)
        ensures
            r.color == color,
            r.render_pipeline == render_pipeline,
            r.bind_group == bind_group,
    {
        ColorModel { color, color_buffer, render_pipeline, bind_group }
    }

    /// The shared pipeline this model draws with.
    pub fn pipeline(&self) -> &Arc<wgpu::RenderPipeline> {
        &self.render_pipeline
    }

    /// The bind set this model draws with.
    pub fn bindgroup(&self) -> &Arc<wgpu::BindGroup> {
        &self.bind_group
    }
}

/// Builds a solid-color render model.
pub struct ColorModelBuilder {
    /// The color to show.
    pub color: Rgba,
    /// A debugging label for the GPU objects.
    pub label: String,
}

impl ColorModelBuilder {
    /// A builder for the given color.
    pub fn new(color: Rgba, label: String) -> (r: Self)
        ensures
            r.color == color,
            r.label@ == label@,
    {
        ColorModelBuilder { color, label }
    }

    /// A builder for the color a hex or functional color string names;
    /// invalid strings fall back to opaque black.
    pub fn from_hex_color(hex_color: &str, label: String) -> (r: Self)
        ensures
            r.color == spec_parse_color(hex_color@),
            r.label@ == label@,
    {
        ColorModelBuilder { color: parse_color(hex_color), label }
    }

    /// Builds the model: allocates this instance's uniform buffer, fetches
    /// or creates the shared layout and pipeline under their stable labels,
    /// and allocates the bind set. The caller encodes the color value into
    /// the returned model's buffer.
    pub fn build<F: FnOnce() -> Arc<wgpu::BindGroupLayout>, G: FnOnce() -> Arc<
        wgpu::RenderPipeline,
    >>(
        &self,
        device: &wgpu::Device,
        layouts: &mut Manager<wgpu::BindGroupLayout>,
        pipelines: &mut Manager<wgpu::RenderPipeline>,
        layout_factory: F,
        pipeline_factory: G,
    ) -> (r: ColorModel)
        requires
            old(layouts).wf(),
            old(pipelines).wf(),
            call_requires(layout_factory, ()),
            call_requires(pipeline_factory, ()),
        ensures
            final(layouts).wf(),
            final(pipelines).wf(),
            r.color == self.color,
            final(layouts).spec_has("color_bind_group_layout"@),
            final(pipelines).spec_has("color_render_pipeline"@),
            final(pipelines).spec_get("color_render_pipeline"@) == Some(r.render_pipeline),
            old(layouts).spec_has("color_bind_group_layout"@) ==> *final(layouts) == *old(layouts),
            old(pipelines).spec_has("color_render_pipeline"@) ==> *final(pipelines) == *old(
                pipelines,
            ),
            forall|k: Seq<char>|
                k != "color_bind_group_layout"@ ==> final(layouts).spec_get(k) == old(
                    layouts,
                ).spec_get(k),
            forall|k: Seq<char>|
                k != "color_render_pipeline"@ ==> final(pipelines).spec_get(k) == old(
                    pipelines,
                ).spec_get(k),
    {
        let color_buffer = gpu::create_uniform_buffer(device, self.label.as_str(), 16);
        let layout = layouts.get_or_init("color_bind_group_layout", layout_factory);
        let pipeline = pipelines.get_or_init("color_render_pipeline", pipeline_factory);
        let bind_group = Arc::new(
            gpu::create_buffer_bind_group(device, &layout, &color_buffer, self.label.as_str()),
        );
        ColorModel::new(self.color, color_buffer, pipeline, bind_group)
    }
}

} // verus!
