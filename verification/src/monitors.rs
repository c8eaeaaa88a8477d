use vstd::prelude::*;

verus! {

/// The number of the display named `current` among the displays named
/// `names`, counted from 1: one more than the place of the first display
/// with that name, or 1 when no display has it.
pub fn get_current_monitor_index(names: &Vec<String>, current: &str) -> (r: usize)
    ensures
        1 <= r,
        (r <= names@.len() && names@[r - 1]@ == current@ && forall|j: int| 0 <= j < r - 1 ==> names@[j]@ != current@)
            || (r == 1 && forall|j: int| 0 <= j < names@.len() ==> names@[j]@ != current@),
{
    let cur = String::from_str(current);
    let mut i: usize = 0;
    while i < names.len()
        invariant
            i <= names@.len(),
            cur@ == current@,
            forall|j: int| 0 <= j < i ==> names@[j]@ != current@,
        decreases names.len() - i,
    {
        if names[i] == cur {
            return i + 1;
        }
        i = i + 1;
    }
    1
}

/// The value of `w as i32`: `w` itself when it fits, `w - 2^32` otherwise.
pub open spec fn as_signed(w: u32) -> int {
    if w <= 0x7fff_ffff { w as int } else { w as int - 0x1_0000_0000 }
}

/// The sum of the widths, each taken as an `i32`.
pub open spec fn width_sum(ws: Seq<u32>) -> int
    decreases ws.len(),
{
    if ws.len() == 0 { 0 } else { width_sum(ws.drop_last()) + as_signed(ws.last()) }
}

/// The number of displays that lie left of display `index`.
pub open spec fn displays_before(ws: Seq<u32>, index: usize) -> int {
    if index < ws.len() { index as int } else { ws.len() as int }
}

fn signed_width(w: u32) -> (r: i32)
    ensures
        r as int == as_signed(w),
{
    let r = w as i32;
    assert(w <= 0x7fff_ffff ==> r == w) by (bit_vector)
        requires r == w as i32;
    assert(w > 0x7fff_ffff ==> r == w - 0x1_0000_0000) by (bit_vector)
        requires r == w as i32;
    r
}

/// Where display `index` starts, the displays lying side by side from the
/// left: across, the widths of the displays before it, added up. The sums on the way
/// must fit in an `i32`.
pub fn get_monitor_position(widths: &Vec<u32>, index: usize) -> (p: (i32, i32))
    requires
        forall|k: int| 0 <= k <= displays_before(widths@, index) ==> i32::MIN <= #[trigger] width_sum(widths@.take(k)) <= i32::MAX,
    ensures
        p.0 as int == width_sum(widths@.take(displays_before(widths@, index))),
        p.1 == 0,
{
    let mut x: i32 = 0;
    let mut i: usize = 0;
    let ghost n = displays_before(widths@, index);
    assert(widths@.take(0) =~= Seq::<u32>::empty());
    while i < widths.len() && i < index
        invariant
            i <= n,
            n == displays_before(widths@, index),
            forall|k: int| 0 <= k <= n ==> i32::MIN <= #[trigger] width_sum(widths@.take(k)) <= i32::MAX,
            x as int == width_sum(widths@.take(i as int)),
        decreases widths.len() - i,
    {
        proof {
            assert(widths@.take(i + 1).drop_last() =~= widths@.take(i as int));
            assert(widths@.take(i + 1).last() == widths@[i as int]);
            assert(i32::MIN <= width_sum(widths@.take(i + 1)) <= i32::MAX);
        }
        x = x + signed_width(widths[i]);
        i = i + 1;
    }
    (x, 0)
}

/// Where displays start: the first at 0; each next one where the one before
/// it starts, moved by that display's width (taken as an `i32`); a display
/// past the last one starts where the last one ends. A width that fits in an
/// `i32` counts as itself.
pub proof fn law_monitor_positions(ws: Seq<u32>, index: usize, k: int)
    ensures
        width_sum(ws.take(displays_before(ws, 0))) == 0,
        0 <= k < ws.len() ==> width_sum(ws.take(k + 1)) == width_sum(ws.take(k)) + as_signed(ws[k]),
        displays_before(ws, index) == (if index < ws.len() { index as int } else { ws.len() as int }),
        forall|w: u32| w <= 0x7fff_ffff ==> #[trigger] as_signed(w) == w,
{
    assert(ws.take(0) =~= Seq::<u32>::empty());
    if 0 <= k < ws.len() {
        assert(ws.take(k + 1).drop_last() =~= ws.take(k));
    }
}

} // verus!
