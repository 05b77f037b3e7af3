use vstd::prelude::*;

use vstd::arithmetic::div_mod::{
    lemma_div_is_ordered, lemma_div_multiples_vanish, lemma_div_nonincreasing,
    lemma_div_pos_is_pos, lemma_remainder_lower,
};
use vstd::arithmetic::mul::{
    lemma_mul_inequality, lemma_mul_is_commutative, lemma_mul_is_distributive_add,
    lemma_mul_is_distributive_add_other_way, lemma_mul_upper_bound,
};

verus! {

/// An axis-aligned rectangular screen region, measured in terminal cells.
/// A region never reaches past the `u16` plane: `x + width` and
/// `y + height` stay within `u16::MAX`.
#[derive(Clone, Copy, PartialEq, Eq, Structural, Debug)]
pub struct Region {
    pub x: u16,
    pub y: u16,
    pub width: u16,
    pub height: u16,
}

/// The summed widths of a row of regions.
pub open spec fn total_width(regions: Seq<Region>) -> int
    decreases regions.len(),
{
    if regions.len() == 0 {
        0
    } else {
        total_width(regions.drop_last()) + regions.last().width
    }
}

proof fn lemma_total_width_push(s: Seq<Region>, r: Region)
    ensures
        total_width(s.push(r)) == total_width(s) + r.width,
{
    assert(s.push(r).drop_last() =~= s);
    assert(s.push(r).last() == r);
}

/// Divides `region` into `n` side-by-side slots, left to right. Every
/// slot is `width / n` cells wide except the last, which absorbs the
/// remainder that integer division leaves, so the slots tile the region
/// exactly: no gap and no overlap.
pub fn split_horizontal(region: Region, n: usize) -> (r: Vec<Region>)
    requires
        1 <= n,
        region.x + region.width <= u16::MAX,
    ensures
        r@.len() == n,
        forall|i: int|
            0 <= i < n ==> (#[trigger] r@[i]).y == region.y && r@[i].height == region.height,
        forall|i: int| 0 <= i < n - 1 ==> (#[trigger] r@[i]).width == region.width as int / n as int,
        r@[n - 1].width == region.width - (n - 1) * (region.width as int / n as int),
        r@[0].x == region.x,
        forall|i: int| 1 <= i < n ==> (#[trigger] r@[i]).x == r@[i - 1].x + r@[i - 1].width,
        total_width(r@) == region.width,
        r@[n - 1].x + r@[n - 1].width == region.x + region.width,
{
    proof {
        lemma_div_nonincreasing(region.width as int, n as int);
        lemma_div_pos_is_pos(region.width as int, n as int);
        lemma_remainder_lower(region.width as int, n as int);
    }
    let base: u16 = ((region.width as usize) / n) as u16;
    let mut out: Vec<Region> = Vec::new();
    let mut x: u16 = region.x;
    let mut used: u16 = 0;
    let mut i: usize = 0;
    while i + 1 < n
        invariant
            1 <= n,
            i + 1 <= n,
            region.x + region.width <= u16::MAX,
            base == region.width as int / n as int,
            out@.len() == i,
            used == i * base,
            used <= region.width,
            x == region.x + used,
            total_width(out@) == used,
            forall|k: int|
                0 <= k < i ==> (#[trigger] out@[k]).y == region.y && out@[k].height
                    == region.height && out@[k].width == base,
            i > 0 ==> out@[0].x == region.x,
            forall|k: int| 1 <= k < i ==> (#[trigger] out@[k]).x == out@[k - 1].x + out@[k - 1].width,
            i > 0 ==> x == out@[i - 1].x + out@[i - 1].width,
        decreases n - i,
    {
        proof {
            lemma_mul_is_distributive_add_other_way(base as int, i as int, 1);
            lemma_mul_inequality((i + 1) as int, n as int, base as int);
            lemma_remainder_lower(region.width as int, n as int);
            lemma_total_width_push(out@, Region { x, y: region.y, width: base, height: region.height });
        }
        out.push(Region { x, y: region.y, width: base, height: region.height });
        x = x + base;
        used = used + base;
        i = i + 1;
    }
    proof {
        lemma_mul_inequality(i as int, n as int, base as int);
        lemma_remainder_lower(region.width as int, n as int);
        lemma_total_width_push(
            out@,
            Region { x, y: region.y, width: (region.width - used) as u16, height: region.height },
        );
    }
    let last_width: u16 = region.width - used;
    out.push(Region { x, y: region.y, width: last_width, height: region.height });
    out
}

/// Splits `region` into a top band holding `top_percent` of the height
/// (integer percentage, rounded down) and a bottom band holding the rest;
/// the two bands tile the region exactly.
pub fn split_vertical(region: Region, top_percent: u16) -> (r: (Region, Region))
    requires
        top_percent <= 100,
        region.y + region.height <= u16::MAX,
    ensures
        r.0.x == region.x && r.0.width == region.width,
        r.1.x == region.x && r.1.width == region.width,
        r.0.y == region.y,
        r.0.height == region.height * top_percent / 100,
        r.1.y == region.y + r.0.height,
        r.1.height == region.height - r.0.height,
        r.0.height + r.1.height == region.height,
{
    proof {
        lemma_mul_upper_bound(region.height as int, u16::MAX as int, top_percent as int, 100);
        lemma_mul_inequality(top_percent as int, 100, region.height as int);
        lemma_mul_is_commutative(region.height as int, top_percent as int);
        lemma_div_is_ordered(
            region.height as int * top_percent as int,
            region.height as int * 100,
            100,
        );
        lemma_div_multiples_vanish(region.height as int, 100);
        lemma_div_pos_is_pos(region.height as int * top_percent as int, 100);
    }
    let top_height: u16 = ((region.height as u32) * (top_percent as u32) / 100) as u16;
    let top = Region { x: region.x, y: region.y, width: region.width, height: top_height };
    let bottom = Region {
        x: region.x,
        y: region.y + top_height,
        width: region.width,
        height: region.height - top_height,
    };
    (top, bottom)
}

proof fn lemma_div_sum_le(a: int, b: int, d: int)
    ensures
        0 <= a && 0 <= b && 0 < d ==> a / d + b / d <= (a + b) / d,
{
    assert(0 <= a && 0 <= b && 0 < d ==> a / d + b / d <= (a + b) / d) by (nonlinear_arith);
}

proof fn lemma_centered_extent(span: u16, percent: u16)
    requires
        percent <= 100,
    ensures
        span * ((100 - percent) / 2) / 100 + span * percent / 100 <= span,
        span * percent / 100 <= span,
        span * ((100 - percent) / 2) / 100 <= span,
        span * percent <= u16::MAX * 100,
        span * ((100 - percent) / 2) <= u16::MAX * 100,
{
    let margin = (100 - percent) as int / 2;
    lemma_mul_upper_bound(span as int, u16::MAX as int, percent as int, 100);
    lemma_mul_upper_bound(span as int, u16::MAX as int, margin, 100);
    lemma_mul_is_commutative(span as int, percent as int);
    lemma_mul_is_commutative(span as int, margin);
    lemma_mul_inequality(percent as int, 100, span as int);
    lemma_mul_inequality(margin, 100, span as int);
    lemma_div_is_ordered(span as int * percent as int, span as int * 100, 100);
    lemma_div_is_ordered(span as int * margin, span as int * 100, 100);
    lemma_div_multiples_vanish(span as int, 100);
    lemma_div_pos_is_pos(span as int * percent as int, 100);
    lemma_div_pos_is_pos(span as int * margin, 100);
    lemma_div_sum_le(span as int * margin, span as int * percent as int, 100);
    lemma_mul_is_distributive_add(span as int, margin, percent as int);
    lemma_mul_inequality(margin + percent as int, 100, span as int);
    lemma_mul_is_commutative(span as int, margin + percent as int);
    lemma_div_is_ordered(span as int * (margin + percent as int), span as int * 100, 100);
}

/// The sub-region spanning `percent_x` of the width and `percent_y` of
/// the height of `region` (integer percentages, rounded down), centered
/// within it: what the percentage leaves over is split evenly, up to
/// rounding, between the two margins on each axis. The result always lies
/// inside `region`.
pub fn centered_rect(region: Region, percent_x: u16, percent_y: u16) -> (r: Region)
    requires
        percent_x <= 100,
        percent_y <= 100,
        region.x + region.width <= u16::MAX,
        region.y + region.height <= u16::MAX,
    ensures
        r.width == region.width * percent_x / 100,
        r.height == region.height * percent_y / 100,
        r.x == region.x + region.width * ((100 - percent_x) / 2) / 100,
        r.y == region.y + region.height * ((100 - percent_y) / 2) / 100,
        region.x <= r.x && r.x + r.width <= region.x + region.width,
        region.y <= r.y && r.y + r.height <= region.y + region.height,
{
    proof {
        lemma_centered_extent(region.width, percent_x);
        lemma_centered_extent(region.height, percent_y);
    }
    let margin_x: u16 = (100 - percent_x) / 2;
    let margin_y: u16 = (100 - percent_y) / 2;
    let off_x: u16 = ((region.width as u32) * (margin_x as u32) / 100) as u16;
    let off_y: u16 = ((region.height as u32) * (margin_y as u32) / 100) as u16;
    let width: u16 = ((region.width as u32) * (percent_x as u32) / 100) as u16;
    let height: u16 = ((region.height as u32) * (percent_y as u32) / 100) as u16;
    Region { x: region.x + off_x, y: region.y + off_y, width, height }
}

} // verus!
