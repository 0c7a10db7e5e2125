use vstd::prelude::*;

verus! {

/// Below this width in CSS pixels the page uses its narrow layout.
pub const NARROW_BELOW: i32 = 700;

/// The position, among the river's markers, of Kirikiriroa, the meeting
/// place, whose marker ring is drawn larger.
pub const MEETING_PLACE_MARKER: usize = 6;

/// Radius in CSS pixels of the meeting place's marker ring.
pub const MEETING_PLACE_RING: u32 = 19;

/// Radius in CSS pixels of every other marker ring.
pub const TOWN_RING: u32 = 10;

/// The two layouts of the page.
#[derive(Clone, Copy, Debug, PartialEq, Eq)]
pub enum Layout {
    Narrow,
    Wide,
}

/// Widths in CSS pixels of the river's outer red band and inner dark band.
#[derive(Clone, Copy, Debug, PartialEq, Eq)]
pub struct RiverBands {
    pub outer: u32,
    pub inner: u32,
}

/// The layout for a viewport `width` CSS pixels wide.
pub open spec fn layout_of(width: int) -> Layout {
    if width < NARROW_BELOW {
        Layout::Narrow
    } else {
        Layout::Wide
    }
}

/// The river's band widths in a layout.
pub open spec fn bands_of(layout: Layout) -> RiverBands {
    match layout {
        Layout::Narrow => RiverBands { outer: 34, inner: 25 },
        Layout::Wide => RiverBands { outer: 54, inner: 42 },
    }
}

/// The layout for a viewport `width` CSS pixels wide.
pub fn layout_for(width: i32) -> (layout: Layout)
    ensures
        layout == layout_of(width as int),
        (layout == Layout::Narrow) == (width < 700),
        (layout == Layout::Wide) == (width >= 700),
{
    if width < NARROW_BELOW {
        Layout::Narrow
    } else {
        Layout::Wide
    }
}

/// The river's band widths in a layout; the inner band always lies within
/// the outer one.
pub fn river_bands(layout: Layout) -> (bands: RiverBands)
    ensures
        bands == bands_of(layout),
        bands.inner < bands.outer,
        layout == Layout::Narrow ==> bands.outer == 34 && bands.inner == 25,
        layout == Layout::Wide ==> bands.outer == 54 && bands.inner == 42,
{
    match layout {
        Layout::Narrow => RiverBands { outer: 34, inner: 25 },
        Layout::Wide => RiverBands { outer: 54, inner: 42 },
    }
}

/// The radius of the ring around the marker at position `index`.
pub fn marker_ring_radius(index: usize) -> (radius: u32)
    ensures
        radius == (if index == MEETING_PLACE_MARKER {
            MEETING_PLACE_RING
        } else {
            TOWN_RING
        }),
        index == 6 ==> radius == 19,
        index != 6 ==> radius == 10,
{
    if index == MEETING_PLACE_MARKER {
        MEETING_PLACE_RING
    } else {
        TOWN_RING
    }
}

/// The page is narrow exactly below 700 CSS pixels and wide from 700 on,
/// so a narrower viewport is never wide where a wider one is narrow.
pub proof fn lemma_layout_breakpoint(width: int, wider: int)
    requires
        width <= wider,
    ensures
        NARROW_BELOW == 700,
        layout_of(width) == Layout::Narrow <==> width < 700,
        layout_of(width) == Layout::Wide <==> width >= 700,
        layout_of(wider) == Layout::Narrow ==> layout_of(width) == Layout::Narrow,
        layout_of(width) == Layout::Wide ==> layout_of(wider) == Layout::Wide,
        bands_of(Layout::Narrow) == (RiverBands { outer: 34, inner: 25 }),
        bands_of(Layout::Wide) == (RiverBands { outer: 54, inner: 42 }),
{
}

/// The order keys of the river's samples rise along the river.
pub open spec fn keys_sorted(keys: Seq<u64>) -> bool {
    forall|i: int, j: int| 0 <= i <= j < keys.len() ==> keys[i] <= keys[j]
}

/// `index` is the river sample to draw at `target`: the first sample whose
/// key is not below `target`, or the last sample when every key lies below
/// it.
pub open spec fn is_sample_index(keys: Seq<u64>, target: u64, index: int) -> bool {
    &&& 0 <= index < keys.len()
    &&& forall|j: int| 0 <= j < index ==> keys[j] < target
    &&& index < keys.len() - 1 ==> keys[index] >= target
}

/// The river sample to draw at a point of the river, found by bisection
/// over the samples' order keys (ordered as the samples' progress along
/// the river).
pub fn river_sample_index(keys: &[u64], target: u64) -> (index: usize)
    requires
        keys@.len() > 0,
        keys_sorted(keys@),
    ensures
        is_sample_index(keys@, target, index as int),
{
    let len = keys.len();
    let mut low: usize = 0;
    let mut high: usize = len;
    while low < high
        invariant
            low <= high <= len,
            len == keys@.len(),
            keys_sorted(keys@),
            forall|j: int| 0 <= j < low ==> keys@[j] < target,
            forall|j: int| high <= j < len ==> keys@[j] >= target,
        decreases high - low,
    {
        let middle = low + (high - low) / 2;
        if keys[middle] < target {
            low = middle + 1;
        } else {
            high = middle;
        }
    }
    if low >= len - 1 {
        len - 1
    } else {
        low
    }
}

/// For sorted keys there is exactly one sample index for each target.
pub proof fn lemma_sample_index_unique(keys: Seq<u64>, target: u64, first: int, second: int)
    requires
        keys_sorted(keys),
        is_sample_index(keys, target, first),
        is_sample_index(keys, target, second),
    ensures
        first == second,
{
    if first < second {
        assert(keys[first] < target);
    } else if second < first {
        assert(keys[second] < target);
    }
}

/// A point further down the river never draws an earlier sample.
pub proof fn lemma_sample_index_monotone(
    keys: Seq<u64>,
    target: u64,
    later: u64,
    index: int,
    later_index: int,
)
    requires
        keys_sorted(keys),
        target <= later,
        is_sample_index(keys, target, index),
        is_sample_index(keys, later, later_index),
    ensures
        index <= later_index,
{
    if later_index < index {
        assert(keys[later_index] < target);
    }
}

} // verus!
