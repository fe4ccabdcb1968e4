use vstd::prelude::*;

verus! {

/// One captured pixel.
#[derive(Clone, Copy, PartialEq, Eq, Structural, Debug)]
pub struct Rgb {
    pub r: u8,
    pub g: u8,
    pub b: u8,
}

pub open spec fn abs_diff(a: int, b: int) -> int {
    if a >= b {
        a - b
    } else {
        b - a
    }
}

/// A pixel matches when each channel lies within `tolerance` of the target.
pub open spec fn matches_spec(p: Rgb, target: [i32; 3], tolerance: int) -> bool {
    &&& abs_diff(p.r as int, target[0] as int) <= tolerance
    &&& abs_diff(p.g as int, target[1] as int) <= tolerance
    &&& abs_diff(p.b as int, target[2] as int) <= tolerance
}

/// The center index of a scanline of `len` pixels.
pub open spec fn center_of(len: nat) -> int {
    len as int / 2
}

/// Some pixel at or left of the center matches.
pub open spec fn left_found_spec(row: Seq<Rgb>, target: [i32; 3], tolerance: int) -> bool {
    exists|j: int|
        0 <= j < row.len() && j <= center_of(row.len()) && #[trigger] matches_spec(
            row[j],
            target,
            tolerance,
        )
}

/// Some pixel at or right of the center matches.
pub open spec fn right_found_spec(row: Seq<Rgb>, target: [i32; 3], tolerance: int) -> bool {
    exists|j: int|
        0 <= j < row.len() && center_of(row.len()) <= j && #[trigger] matches_spec(
            row[j],
            target,
            tolerance,
        )
}

/// The target color straddles the center of the scanline: it is found on both
/// sides of it, or at the center itself.
pub open spec fn straddles(row: Seq<Rgb>, target: [i32; 3], tolerance: int) -> bool {
    left_found_spec(row, target, tolerance) && right_found_spec(row, target, tolerance)
}

/// What one pass over a scanline found. The extreme positions are reported
/// for completeness; the firing decision reads only the two flags.
#[derive(Clone, Copy, PartialEq, Eq, Structural, Debug)]
pub struct ScanReport {
    /// A match at or left of the center.
    pub left_found: bool,
    /// A match at or right of the center.
    pub right_found: bool,
    /// The leftmost match at or left of the center; the row length if none.
    pub left_pos: usize,
    /// The rightmost match at or right of the center; zero if none.
    pub right_pos: usize,
}

/// The report that `scan_row` gives for `row`.
pub open spec fn report_of(
    row: Seq<Rgb>,
    target: [i32; 3],
    tolerance: int,
    rep: ScanReport,
) -> bool {
    let c = center_of(row.len());
    &&& rep.left_found == left_found_spec(row, target, tolerance)
    &&& rep.right_found == right_found_spec(row, target, tolerance)
    &&& rep.left_found ==> {
        &&& rep.left_pos <= c
        &&& rep.left_pos < row.len()
        &&& matches_spec(row[rep.left_pos as int], target, tolerance)
        &&& forall|j: int| 0 <= j < rep.left_pos ==> !matches_spec(row[j], target, tolerance)
    }
    &&& !rep.left_found ==> rep.left_pos == row.len()
    &&& rep.right_found ==> {
        &&& c <= rep.right_pos < row.len()
        &&& matches_spec(row[rep.right_pos as int], target, tolerance)
        &&& forall|j: int|
            rep.right_pos < j < row.len() ==> !matches_spec(row[j], target, tolerance)
    }
    &&& !rep.right_found ==> rep.right_pos == 0
}

impl ScanReport {
    /// Whether the match straddles the center.
    pub fn triggered(&self) -> (r: bool)
        ensures
            r == (self.left_found && self.right_found),
    {
        self.left_found && self.right_found
    }
}

fn channel_within(value: u8, target: i32, tolerance: i32) -> (r: bool)
    ensures
        r == (abs_diff(value as int, target as int) <= tolerance as int),
{
    let d: i64 = value as i64 - target as i64;
    let a: i64 = if d >= 0 {
        d
    } else {
        -d
    };
    a <= tolerance as i64
}

/// Whether every channel of `p` lies within `tolerance` of `target`.
pub fn pixel_matches(p: Rgb, target: [i32; 3], tolerance: i32) -> (r: bool)
    ensures
        r == matches_spec(p, target, tolerance as int),
{
    channel_within(p.r, target[0], tolerance) && channel_within(p.g, target[1], tolerance)
        && channel_within(p.b, target[2], tolerance)
}

/// Scans one row of pixels for the target color around its center.
pub fn scan_row(row: &Vec<Rgb>, target: [i32; 3], tolerance: i32) -> (rep: ScanReport)
    ensures
        report_of(row@, target, tolerance as int, rep),
{
    let len: usize = row.len();
    let center: usize = len / 2;
    let mut left_found = false;
    let mut right_found = false;
    let mut left_pos: usize = len;
    let mut right_pos: usize = 0;
    let mut i: usize = 0;
    while i < len
        invariant
            len == row@.len(),
            center == center_of(row@.len()),
            i <= len,
            left_found == exists|j: int|
                0 <= j < i && j <= center && #[trigger] matches_spec(
                    row@[j],
                    target,
                    tolerance as int,
                ),
            right_found == exists|j: int|
                0 <= j < i && center <= j && #[trigger] matches_spec(
                    row@[j],
                    target,
                    tolerance as int,
                ),
            left_found ==> {
                &&& left_pos <= center
                &&& left_pos < i
                &&& matches_spec(row@[left_pos as int], target, tolerance as int)
                &&& forall|j: int|
                    0 <= j < left_pos ==> !matches_spec(row@[j], target, tolerance as int)
            },
            !left_found ==> left_pos == len,
            right_found ==> {
                &&& center <= right_pos < i
                &&& matches_spec(row@[right_pos as int], target, tolerance as int)
                &&& forall|j: int|
                    right_pos < j < i ==> !matches_spec(row@[j], target, tolerance as int)
            },
            !right_found ==> right_pos == 0,
        decreases len - i,
    {
        if pixel_matches(row[i], target, tolerance) {
            if i <= center {
                if !left_found {
                    left_pos = i;
                }
                left_found = true;
            }
            if i >= center {
                right_found = true;
                right_pos = i;
            }
        }
        i += 1;
    }
    ScanReport { left_found, right_found, left_pos, right_pos }
}

/// A row whose center pixel is exactly the target color straddles the center,
/// even with zero tolerance.
pub proof fn lemma_exact_center_match(row: Seq<Rgb>, target: [i32; 3])
    requires
        row.len() > 0,
        row[center_of(row.len())].r as int == target[0] as int,
        row[center_of(row.len())].g as int == target[1] as int,
        row[center_of(row.len())].b as int == target[2] as int,
    ensures
        straddles(row, target, 0),
{
    let c = center_of(row.len());
    assert(matches_spec(row[c], target, 0));
}

/// The largest difference between a channel of `p` and the target's.
pub open spec fn max_channel_diff(p: Rgb, target: [i32; 3]) -> int {
    let dr = abs_diff(p.r as int, target[0] as int);
    let dg = abs_diff(p.g as int, target[1] as int);
    let db = abs_diff(p.b as int, target[2] as int);
    if dr >= dg && dr >= db {
        dr
    } else if dg >= db {
        dg
    } else {
        db
    }
}

/// The tolerance is inclusive: a pixel whose largest channel difference is
/// exactly the tolerance matches, one whose largest difference is one more
/// does not.
pub proof fn lemma_tolerance_boundary(p: Rgb, target: [i32; 3], tolerance: int)
    ensures
        max_channel_diff(p, target) == tolerance ==> matches_spec(p, target, tolerance),
        max_channel_diff(p, target) == tolerance + 1 ==> !matches_spec(p, target, tolerance),
{
}

/// In a row of two or more pixels, a match at the first pixel alone does not
/// reach the center from the right, so it does not straddle; matches at both
/// ends do.
pub proof fn lemma_straddle_rule(row: Seq<Rgb>, target: [i32; 3], tolerance: int)
    requires
        row.len() > 1,
    ensures
        matches_spec(row[0], target, tolerance) && (forall|j: int|
            1 <= j < row.len() ==> !#[trigger] matches_spec(row[j], target, tolerance))
            ==> !right_found_spec(row, target, tolerance) && !straddles(row, target, tolerance),
        matches_spec(row[0], target, tolerance) && matches_spec(
            row[row.len() - 1],
            target,
            tolerance,
        ) ==> straddles(row, target, tolerance),
{
    let last = row.len() - 1;
    if matches_spec(row[0], target, tolerance) && matches_spec(row[last], target, tolerance) {
        assert(left_found_spec(row, target, tolerance));
        assert(right_found_spec(row, target, tolerance));
    }
}

} // verus!
