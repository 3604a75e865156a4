//! Small verified helpers shared across the engine: string comparison and
//! search, the stable ordering used by pipeline assembly, and wallpaper
//! lookup by name.

use vstd::prelude::*;

use crate::types::WallpaperInfo;

verus! {

/// Compares two string slices by their characters.
pub fn str_eq(a: &str, b: &str) -> (r: bool)
    ensures
        r == (a@ == b@),
{
    let x: String = a.to_owned();
    let y: String = b.to_owned();
    x == y
}

/// Whether `sub` occurs as a contiguous run of characters inside `s`.
pub open spec fn spec_str_contains(s: Seq<char>, sub: Seq<char>) -> bool {
    exists|i: int|
        0 <= i && i + sub.len() <= s.len() && #[trigger] s.subrange(i, i + sub.len() as int) == sub
}

/// Searches `s` for an occurrence of `sub`.
pub fn str_contains(s: &str, sub: &str) -> (r: bool)
    ensures
        r == spec_str_contains(s@, sub@),
{
    let n = s.unicode_len();
    let m = sub.unicode_len();
    if m > n {
        return false;
    }
    if m == 0 {
        proof {
            assert(s@.subrange(0, 0 + sub@.len() as int) =~= sub@);
        }
        return true;
    }
    let mut i: usize = 0;
    while i <= n - m
        invariant
            m <= n,
            n == s@.len(),
            m == sub@.len(),
            0 <= i <= n - m + 1,
            1 <= m,
            forall|p: int|
                0 <= p < i ==> #[trigger] s@.subrange(p, p + sub@.len() as int) != sub@,
        decreases n - m + 1 - i,
    {
        let mut j: usize = 0;
        let mut matched = true;
        while j < m
            invariant
                m <= n,
                n == s@.len(),
                m == sub@.len(),
                0 <= i <= n - m,
                0 <= j <= m,
                matched ==> forall|q: int| 0 <= q < j ==> s@[i + q] == sub@[q],
                !matched ==> s@.subrange(i as int, i + sub@.len() as int) != sub@,
            decreases m - j,
        {
            if s.get_char(i + j) != sub.get_char(j) {
                proof {
                    let piece = s@.subrange(i as int, i + sub@.len() as int);
                    assert(piece[j as int] == s@[i + j]);
                }
                matched = false;
                j = m;
            } else {
                j += 1;
            }
        }
        if matched {
            proof {
                let piece = s@.subrange(i as int, i + sub@.len() as int);
                assert forall|q: int| 0 <= q < sub@.len() implies piece[q] == sub@[q] by {
                    assert(s@[i + q] == sub@[q]);
                }
                assert(piece =~= sub@);
            }
            return true;
        }
        i += 1;
    }
    proof {
        assert forall|p: int|
            0 <= p && p + sub@.len() <= s@.len() implies #[trigger] s@.subrange(
            p,
            p + sub@.len() as int,
        ) != sub@ by {
            assert(p < i);
        }
    }
    false
}

/// Whether `a` matches `b` character by character when ASCII capitals in
/// `a` are folded to lower case; `b` is expected to be lowercase.
pub open spec fn spec_fold_matches(a: Seq<char>, b: Seq<char>) -> bool {
    a.len() == b.len() && forall|i: int|
        0 <= i < a.len() ==> ((#[trigger] a[i]) == b[i] || (65 <= a[i] as u32 <= 90 && a[i] as u32
            + 32 == b[i] as u32))
}

/// Whether `s` ends in `suffix`, folding ASCII capitals in `s` to lower
/// case; `suffix` is expected to be lowercase.
pub open spec fn spec_ends_with_ignore_ascii_case(s: Seq<char>, suffix: Seq<char>) -> bool {
    suffix.len() <= s.len() && spec_fold_matches(
        s.skip(s.len() - suffix.len()),
        suffix,
    )
}

/// Tests whether `s` ends in the lowercase ASCII `suffix`, folding capitals.
pub fn ends_with_ignore_ascii_case(s: &str, suffix: &str) -> (r: bool)
    ensures
        r == spec_ends_with_ignore_ascii_case(s@, suffix@),
{
    let n = s.unicode_len();
    let m = suffix.unicode_len();
    if m > n {
        return false;
    }
    let start = n - m;
    let ghost tail = s@.skip(s@.len() - suffix@.len());
    let mut j: usize = 0;
    while j < m
        invariant
            m <= n,
            n == s@.len(),
            m == suffix@.len(),
            start == n - m,
            tail == s@.skip(s@.len() - suffix@.len()),
            0 <= j <= m,
            forall|q: int|
                0 <= q < j ==> ((#[trigger] tail[q]) == suffix@[q] || (65 <= tail[q] as u32 <= 90
                    && tail[q] as u32 + 32 == suffix@[q] as u32)),
        decreases m - j,
    {
        let ca = s.get_char(start + j) as u32;
        let cb = suffix.get_char(j) as u32;
        proof {
            assert(tail[j as int] == s@[start + j]);
        }
        let same = ca == cb || (65 <= ca && ca <= 90 && ca + 32 == cb);
        if !same {
            return false;
        }
        j += 1;
    }
    true
}

/// The positions of the input keys, stably ordered: the output lists every
/// input index once, ascending by key, and equal keys keep their original
/// relative order.
#[verifier::rlimit(60)]
pub fn sorted_order(zs: &Vec<i32>) -> (r: Vec<usize>)
    ensures
        r@.len() == zs@.len(),
        forall|a: int| 0 <= a < r@.len() ==> #[trigger] r@[a] < zs@.len(),
        forall|a: int, b: int|
            0 <= a < b < r@.len() ==> zs@[#[trigger] r@[a] as int] <= zs@[#[trigger] r@[b] as int],
        forall|a: int, b: int|
            0 <= a < b < r@.len() && zs@[#[trigger] r@[a] as int] == zs@[#[trigger] r@[b] as int]
                ==> r@[a] < r@[b],
        forall|k: int| 0 <= k < zs@.len() ==> #[trigger] r@.contains(k as usize),
{
    let n = zs.len();
    let mut r: Vec<usize> = Vec::with_capacity(n);
    let mut idx: usize = 0;
    while idx < n
        invariant
            n == zs@.len(),
            0 <= idx <= n,
            r@.len() == idx,
            forall|a: int| 0 <= a < r@.len() ==> #[trigger] r@[a] < idx,
            forall|a: int, b: int|
                0 <= a < b < r@.len() ==> zs@[#[trigger] r@[a] as int] <= zs@[
                    #[trigger] r@[b] as int
                ],
            forall|a: int, b: int|
                0 <= a < b < r@.len() && zs@[#[trigger] r@[a] as int] == zs@[
                    #[trigger] r@[b] as int
                ] ==> r@[a] < r@[b],
            forall|k: int| 0 <= k < idx ==> #[trigger] r@.contains(k as usize),
        decreases n - idx,
    {
        let z = zs[idx];
        let mut pos: usize = 0;
        while pos < r.len() && zs[r[pos]] <= z
            invariant
                n == zs@.len(),
                idx < n,
                z == zs@[idx as int],
                r@.len() == idx,
                forall|a: int| 0 <= a < r@.len() ==> #[trigger] r@[a] < idx,
                0 <= pos <= r@.len(),
                forall|a: int| 0 <= a < pos ==> zs@[#[trigger] r@[a] as int] <= z,
                forall|a: int, b: int|
                    0 <= a < b < r@.len() ==> zs@[#[trigger] r@[a] as int] <= zs@[
                        #[trigger] r@[b] as int
                    ],
            decreases r@.len() - pos,
        {
            pos += 1;
        }
        let ghost r0 = r@;
        proof {
            r0.insert_ensures(pos as int, idx);
            // Every entry at or past the insertion point has a key strictly
            // above the new one.
            assert forall|c: int| pos <= c < r0.len() implies zs@[#[trigger] r0[c] as int] > z by {
                assert(zs@[r0[pos as int] as int] > z);
                if c > pos {
                    assert(zs@[r0[pos as int] as int] <= zs@[r0[c] as int]);
                }
            }
        }
        r.insert(pos, idx);
        proof {
            assert forall|a: int, b: int|
                0 <= a < b < r@.len() implies zs@[#[trigger] r@[a] as int] <= zs@[
                #[trigger] r@[b] as int
            ] by {
                let pa = if a < pos { a } else { a - 1 };
                let pb = if b < pos { b } else { b - 1 };
                if a == pos {
                    assert(r@[a] == idx);
                    assert(r@[b] == r0[pb]);
                    assert(zs@[r0[pb] as int] > z);
                } else if b == pos {
                    assert(r@[b] == idx);
                    assert(r@[a] == r0[pa]);
                    assert(zs@[r0[pa] as int] <= z);
                } else {
                    assert(r@[a] == r0[pa]);
                    assert(r@[b] == r0[pb]);
                }
            }
            assert forall|a: int, b: int|
                0 <= a < b < r@.len() && zs@[#[trigger] r@[a] as int] == zs@[
                #[trigger] r@[b] as int
            ] implies r@[a] < r@[b] by {
                let pa = if a < pos { a } else { a - 1 };
                let pb = if b < pos { b } else { b - 1 };
                if a == pos {
                    assert(r@[b] == r0[pb]);
                    assert(zs@[r0[pb] as int] > z);
                } else if b == pos {
                    assert(r@[a] == r0[pa]);
                    assert(r@[a] < idx);
                } else {
                    assert(r@[a] == r0[pa]);
                    assert(r@[b] == r0[pb]);
                }
            }
            assert forall|k: int| 0 <= k < idx + 1 implies #[trigger] r@.contains(
                k as usize,
            ) by {
                if k == idx {
                    assert(r@[pos as int] == idx);
                } else {
                    assert(r0.contains(k as usize));
                    let a0 = choose|a: int| 0 <= a < r0.len() && r0[a] == k as usize;
                    if a0 < pos {
                        assert(r@[a0] == r0[a0]);
                    } else {
                        assert(r@[a0 + 1] == r0[a0]);
                    }
                }
            }
        }
        idx += 1;
    }
    r
}

/// The first wallpaper carrying the given name, if any.
pub open spec fn spec_find_name(s: Seq<WallpaperInfo>, name: Seq<char>) -> Option<WallpaperInfo>
    decreases s.len(),
{
    if s.len() == 0 {
        None
    } else if s[0].name@ == name {
        Some(s[0])
    } else {
        spec_find_name(s.skip(1), name)
    }
}

/// Finds the first available wallpaper with the given name.
pub fn find_wallpaper_by_name(wallpapers: &Vec<WallpaperInfo>, name: &str) -> (r: Option<
    WallpaperInfo,
>)
    ensures
        r == spec_find_name(wallpapers@, name@),
        r matches Some(w) ==> w.name@ == name@,
{
    proof {
        assert(wallpapers@.skip(0) =~= wallpapers@);
    }
    let mut i: usize = 0;
    while i < wallpapers.len()
        invariant
            0 <= i <= wallpapers@.len(),
            spec_find_name(wallpapers@, name@) == spec_find_name(wallpapers@.skip(i as int), name@),
            forall|j: int| 0 <= j < i ==> wallpapers@[j].name@ != name@,
        decreases wallpapers@.len() - i,
    {
        let w = &wallpapers[i];
        proof {
            assert(wallpapers@.skip(i as int)[0] == wallpapers@[i as int]);
        }
        if str_eq(w.name.as_str(), name) {
            return Some(WallpaperInfo { name: w.name.clone(), path: w.path.clone() });
        }
        proof {
            assert(wallpapers@.skip(i as int).skip(1) =~= wallpapers@.skip(i as int + 1));
        }
        i += 1;
    }
    proof {
        assert(wallpapers@.skip(i as int).len() == 0);
    }
    None
}

} // verus!

