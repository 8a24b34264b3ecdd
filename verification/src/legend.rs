//! Legends: which slot of a key each line of a label lands on, and with what
//! size and colour.

use vstd::prelude::*;
use crate::color::{default_legend_color, legend_color, Color};
use crate::lines::{first_lines, split, texts};

verus! {

/// Number of legend slots on a key: a grid of three by three on its top, read
/// row by row, then three on its front.
pub const NUM_LEGENDS: usize = 12;

/// Alignment of legends in effect where a layout sets none.
pub const DEFAULT_ALIGNMENT: usize = 4;

/// Smallest font size of a legend.
pub const MIN_SIZE: usize = 1;

/// Largest font size of a legend.
pub const MAX_SIZE: usize = 9;

/// Font size of a legend where a layout sets none.
pub const DEFAULT_SIZE: usize = 3;

/// What the table holds for a line that an alignment gives no slot.
pub const DROP: u8 = 12;

/// For each alignment code a row, and in it for each line of a label, counted
/// from 0, the slot that the line lands on.
pub const REMAP: [[u8; 12]; 8] = [
    [0, 6, 2, 8, 9, 11, 3, 5, 1, 4, 7, 10],
    [1, 7, 12, 12, 9, 11, 4, 12, 12, 12, 12, 10],
    [3, 12, 5, 12, 9, 11, 12, 12, 12, 12, 12, 10],
    [4, 12, 12, 12, 9, 11, 12, 12, 12, 12, 12, 10],
    [0, 6, 2, 8, 10, 12, 3, 5, 1, 4, 7, 12],
    [1, 7, 12, 12, 10, 12, 4, 12, 12, 12, 12, 12],
    [3, 12, 5, 12, 10, 12, 12, 12, 12, 12, 12, 12],
    [4, 12, 12, 12, 10, 12, 12, 12, 12, 12, 12, 12],
];

/// A single legend of a key.
#[derive(Debug, PartialEq)]
pub struct Legend {
    /// The legend's text.
    pub text: String,
    /// The font size, from `MIN_SIZE` to `MAX_SIZE`.
    pub size: usize,
    /// The legend's colour.
    pub color: Color,
}

/// What a `Legend` holds.
pub struct LegendView {
    pub text: Seq<char>,
    pub size: usize,
    pub color: Color,
}

impl View for Legend {
    type V = LegendView;

    open spec fn view(&self) -> LegendView {
        LegendView { text: self.text@, size: self.size, color: self.color }
    }
}

impl Clone for Legend {
    fn clone(&self) -> (legend: Self)
        ensures
            legend@ == self@,
    {
        Legend { text: self.text.clone(), size: self.size, color: self.color }
    }
}

impl Default for Legend {
    /// An empty legend of the default size, in black.
    fn default() -> (legend: Self)
        ensures
            legend@ == (LegendView {
                text: Seq::<char>::empty(),
                size: DEFAULT_SIZE,
                color: legend_color(),
            }),
    {
        Legend { text: String::new(), size: DEFAULT_SIZE, color: default_legend_color() }
    }
}

/// What each slot of `legends` holds.
pub open spec fn legend_views(legends: Seq<Option<Legend>>) -> Seq<Option<LegendView>> {
    Seq::new(
        legends.len(),
        |i: int|
            match legends[i] {
                Some(legend) => Some(legend@),
                None => None,
            },
    )
}

/// The slot that the line at `position` of a label lands on under
/// `alignment`, or `None` where the alignment has no slot for it, or is no
/// alignment code at all.
pub open spec fn slot_of(alignment: int, position: int) -> Option<int> {
    if 0 <= alignment < 8 && 0 <= position < 12 && REMAP[alignment][position] != DROP {
        Some(REMAP[alignment][position] as int)
    } else {
        None
    }
}

/// The last of the first `n` positions that is filled and lands on `slot`.
pub open spec fn source(filled: Seq<bool>, alignment: int, slot: int, n: int) -> Option<int>
    decreases n,
{
    if n <= 0 {
        None
    } else if filled[n - 1] && slot_of(alignment, n - 1) == Some(slot) {
        Some(n - 1)
    } else {
        source(filled, alignment, slot, n - 1)
    }
}

/// For a label whose lines are filled as `filled` says, the position of the
/// line that each slot shows: where two land on one slot, the later one.
pub open spec fn sources(filled: Seq<bool>, alignment: int) -> Seq<Option<int>> {
    Seq::new(12, |slot: int| source(filled, alignment, slot, filled.len() as int))
}

/// `n` held to the range of font sizes.
pub open spec fn clamp_size(n: int) -> usize {
    if n < 1 {
        1
    } else if n > 9 {
        9
    } else {
        n as usize
    }
}

/// Which of `each` are given.
pub open spec fn given<A>(each: Seq<Option<A>>) -> Seq<bool> {
    Seq::new(each.len(), |i: int| each[i] is Some)
}

/// The font size of `slot`: the size that `each` gives to the line that lands
/// there; else `secondary`, unless the slot is the first; else `base`.
pub open spec fn size_for(
    base: usize,
    secondary: Option<usize>,
    each: Seq<Option<usize>>,
    alignment: int,
    slot: int,
) -> usize {
    match source(given(each), alignment, slot, each.len() as int) {
        Some(p) => each[p]->0,
        None => match secondary {
            Some(size) if slot != 0 => size,
            _ => base,
        },
    }
}

/// The font size of every slot.
pub open spec fn sizes_of(
    base: usize,
    secondary: Option<usize>,
    each: Seq<Option<usize>>,
    alignment: int,
) -> Seq<usize> {
    Seq::new(12, |slot: int| size_for(base, secondary, each, alignment, slot))
}

/// The colour of the legend at `slot`: the one that `each` gives to the slot,
/// else `base`.
pub open spec fn color_for(base: Color, each: Seq<Option<Color>>, slot: int) -> Color {
    if 0 <= slot < each.len() && each[slot] is Some {
        each[slot]->0
    } else {
        base
    }
}

/// The legend colour of every slot.
pub open spec fn colors_of(base: Color, each: Seq<Option<Color>>) -> Seq<Color> {
    Seq::new(12, |slot: int| color_for(base, each, slot))
}

/// Which of `lines` hold any text.
pub open spec fn nonempty(lines: Seq<Seq<char>>) -> Seq<bool> {
    Seq::new(lines.len(), |i: int| lines[i].len() > 0)
}

/// The legends of a key labelled `text`: each slot shows the non-empty line
/// that lands on it, in the size and colour of the slot, and is empty where
/// there is no such line. Only the first twelve lines count.
pub open spec fn legends_of(
    text: Seq<char>,
    sizes: Seq<usize>,
    colors: Seq<Color>,
    alignment: int,
) -> Seq<Option<LegendView>> {
    let lines = first_lines(text, 12);
    Seq::new(
        12,
        |slot: int|
            match source(nonempty(lines), alignment, slot, lines.len() as int) {
                Some(p) => Some(
                    LegendView { text: lines[p], size: sizes[slot], color: colors[slot] },
                ),
                None => None,
            },
    )
}

/// Every size that `each` gives is a font size.
pub open spec fn sizes_in_range(each: Seq<Option<usize>>) -> bool {
    forall|i: int|
        0 <= i < each.len() ==> (#[trigger] each[i] matches Some(size) ==> MIN_SIZE <= size
            <= MAX_SIZE)
}

/// There are twelve slots, and every legend has a font size.
pub open spec fn legends_wf(legends: Seq<Option<LegendView>>) -> bool {
    &&& legends.len() == 12
    &&& forall|slot: int|
        0 <= slot < 12 ==> (#[trigger] legends[slot] matches Some(legend) ==> MIN_SIZE
            <= legend.size <= MAX_SIZE)
}

/// The line that a slot shows is one of the lines looked at, is filled, and
/// lands on the slot.
pub proof fn lemma_source(filled: Seq<bool>, alignment: int, slot: int, n: int)
    requires
        n <= filled.len(),
    ensures
        source(filled, alignment, slot, n) matches Some(p) ==> 0 <= p < n && filled[p] && slot_of(
            alignment,
            p,
        ) == Some(slot),
    decreases n,
{
    if n > 0 && !(filled[n - 1] && slot_of(alignment, n - 1) == Some(slot)) {
        lemma_source(filled, alignment, slot, n - 1);
    }
}

/// Sizes resolved from font sizes are font sizes.
pub proof fn lemma_sizes_in_range(
    base: usize,
    secondary: Option<usize>,
    each: Seq<Option<usize>>,
    alignment: int,
)
    requires
        MIN_SIZE <= base <= MAX_SIZE,
        secondary matches Some(size) ==> MIN_SIZE <= size <= MAX_SIZE,
        sizes_in_range(each),
    ensures
        sizes_of(base, secondary, each, alignment).len() == 12,
        forall|slot: int|
            0 <= slot < 12 ==> MIN_SIZE <= #[trigger] sizes_of(
                base,
                secondary,
                each,
                alignment,
            )[slot] <= MAX_SIZE,
{
    assert forall|slot: int| 0 <= slot < 12 implies MIN_SIZE <= #[trigger] sizes_of(
        base,
        secondary,
        each,
        alignment,
    )[slot] <= MAX_SIZE by {
        lemma_source(given(each), alignment, slot, each.len() as int);
    }
}

/// Legends built with font sizes fill twelve slots and keep those sizes.
pub proof fn lemma_legends_wf(
    text: Seq<char>,
    sizes: Seq<usize>,
    colors: Seq<Color>,
    alignment: int,
)
    requires
        sizes.len() == 12,
        forall|slot: int| 0 <= slot < 12 ==> MIN_SIZE <= #[trigger] sizes[slot] <= MAX_SIZE,
    ensures
        legends_wf(legends_of(text, sizes, colors, alignment)),
{
}

/// Maps a line of a label to its slot.
pub fn remap(position: usize, alignment: usize) -> (r: Option<usize>)
    ensures
        match r {
            Some(slot) => slot < 12 && slot_of(alignment as int, position as int) == Some(
                slot as int,
            ),
            None => slot_of(alignment as int, position as int) is None,
        },
{
    if alignment < 8 && position < 12 {
        let slot: u8 = REMAP[alignment][position];
        if slot != DROP {
            Some(slot as usize)
        } else {
            None
        }
    } else {
        None
    }
}

/// Finds for each slot the line that it shows.
pub fn arrange(filled: &Vec<bool>, alignment: usize) -> (found: Vec<Option<usize>>)
    ensures
        found.len() == 12,
        forall|slot: int|
            0 <= slot < 12 ==> match #[trigger] found[slot] {
                Some(p) => sources(filled@, alignment as int)[slot] == Some(p as int),
                None => sources(filled@, alignment as int)[slot] is None,
            },
        forall|slot: int|
            0 <= slot < 12 ==> (#[trigger] found[slot] matches Some(p) ==> p < filled.len()
                && filled[p as int]),
{
    let mut found: Vec<Option<usize>> = Vec::new();
    while found.len() < 12
        invariant
            found.len() <= 12,
            forall|slot: int| 0 <= slot < found.len() ==> #[trigger] found[slot] is None,
        decreases 12 - found.len(),
    {
        found.push(None);
    }
    let mut p: usize = 0;
    while p < filled.len()
        invariant
            p <= filled.len(),
            found.len() == 12,
            forall|slot: int|
                0 <= slot < 12 ==> match #[trigger] found[slot] {
                    Some(q) => source(filled@, alignment as int, slot, p as int) == Some(q as int),
                    None => source(filled@, alignment as int, slot, p as int) is None,
                },
            forall|slot: int|
                0 <= slot < 12 ==> (#[trigger] found[slot] matches Some(q) ==> q < p
                    && filled[q as int]),
        decreases filled.len() - p,
    {
        if filled[p] {
            match remap(p, alignment) {
                Some(slot) => {
                    found.set(slot, Some(p));
                },
                None => {},
            }
        }
        p += 1;
    }
    found
}

/// Holds a number to the range of font sizes.
pub fn font_size(n: i64) -> (size: usize)
    ensures
        size == clamp_size(n as int),
        MIN_SIZE <= size <= MAX_SIZE,
{
    if n < 1 {
        1
    } else if n > 9 {
        9
    } else {
        n as usize
    }
}

/// Resolves the font size of every slot.
pub fn resolve_sizes(
    base: usize,
    secondary: Option<usize>,
    each: &Vec<Option<usize>>,
    alignment: usize,
) -> (sizes: Vec<usize>)
    ensures
        sizes@ == sizes_of(base, secondary, each@, alignment as int),
{
    let mut filled: Vec<bool> = Vec::new();
    let mut i: usize = 0;
    while i < each.len()
        invariant
            i <= each.len(),
            filled@ == given(each@).take(i as int),
        decreases each.len() - i,
    {
        filled.push(each[i].is_some());
        i += 1;
    }
    assert(filled@ == given(each@));
    let found = arrange(&filled, alignment);
    let mut sizes: Vec<usize> = Vec::new();
    let mut slot: usize = 0;
    while slot < 12
        invariant
            slot <= 12,
            found.len() == 12,
            filled@ == given(each@),
            sizes.len() == slot,
            forall|s: int|
                0 <= s < 12 ==> match #[trigger] found[s] {
                    Some(p) => sources(filled@, alignment as int)[s] == Some(p as int),
                    None => sources(filled@, alignment as int)[s] is None,
                },
            forall|s: int|
                0 <= s < 12 ==> (#[trigger] found[s] matches Some(p) ==> p < filled.len()
                    && filled[p as int]),
            forall|s: int|
                0 <= s < slot ==> #[trigger] sizes[s] == size_for(
                    base,
                    secondary,
                    each@,
                    alignment as int,
                    s,
                ),
        decreases 12 - slot,
    {
        let size = match found[slot] {
            Some(p) => match each[p] {
                Some(size) => size,
                None => base,
            },
            None => match secondary {
                Some(size) if slot != 0 => size,
                _ => base,
            },
        };
        sizes.push(size);
        slot += 1;
    }
    assert(sizes@ == sizes_of(base, secondary, each@, alignment as int));
    sizes
}

/// Resolves the legend colour of every slot.
pub fn resolve_colors(base: Color, each: &Vec<Option<Color>>) -> (colors: Vec<Color>)
    ensures
        colors@ == colors_of(base, each@),
{
    let mut colors: Vec<Color> = Vec::new();
    let mut slot: usize = 0;
    while slot < 12
        invariant
            slot <= 12,
            colors.len() == slot,
            forall|s: int| 0 <= s < slot ==> #[trigger] colors[s] == color_for(base, each@, s),
        decreases 12 - slot,
    {
        let color = if slot < each.len() {
            match each[slot] {
                Some(color) => color,
                None => base,
            }
        } else {
            base
        };
        colors.push(color);
        slot += 1;
    }
    assert(colors@ == colors_of(base, each@));
    colors
}

/// Builds the legends of a key from its label.
pub fn build_legends(text: &str, sizes: &Vec<usize>, colors: &Vec<Color>, alignment: usize) -> (legends:
    Vec<Option<Legend>>)
    requires
        sizes.len() == 12,
        colors.len() == 12,
    ensures
        legend_views(legends@) == legends_of(text@, sizes@, colors@, alignment as int),
{
    let lines = split(text, NUM_LEGENDS);
    let ghost shown = first_lines(text@, 12);
    let mut filled: Vec<bool> = Vec::new();
    let mut i: usize = 0;
    while i < lines.len()
        invariant
            i <= lines.len(),
            texts(lines@) == shown,
            filled@ == nonempty(shown).take(i as int),
        decreases lines.len() - i,
    {
        assert(texts(lines@)[i as int] == lines[i as int]@);
        filled.push(!lines[i].as_str().is_empty());
        i += 1;
    }
    assert(filled@ == nonempty(shown));
    let found = arrange(&filled, alignment);
    let mut legends: Vec<Option<Legend>> = Vec::new();
    let mut slot: usize = 0;
    while slot < 12
        invariant
            slot <= 12,
            sizes.len() == 12,
            colors.len() == 12,
            found.len() == 12,
            texts(lines@) == shown,
            shown == first_lines(text@, 12),
            filled@ == nonempty(shown),
            legends.len() == slot,
            forall|s: int|
                0 <= s < 12 ==> match #[trigger] found[s] {
                    Some(p) => sources(filled@, alignment as int)[s] == Some(p as int),
                    None => sources(filled@, alignment as int)[s] is None,
                },
            forall|s: int|
                0 <= s < 12 ==> (#[trigger] found[s] matches Some(p) ==> p < filled.len()
                    && filled[p as int]),
            forall|s: int|
                0 <= s < slot ==> #[trigger] legend_views(legends@)[s] == legends_of(
                    text@,
                    sizes@,
                    colors@,
                    alignment as int,
                )[s],
        decreases 12 - slot,
    {
        let ghost before = legends@;
        let legend = match found[slot] {
            Some(p) => {
                assert(texts(lines@)[p as int] == lines[p as int]@);
                Some(Legend { text: lines[p].clone(), size: sizes[slot], color: colors[slot] })
            },
            None => None,
        };
        legends.push(legend);
        proof {
            let wanted = legends_of(text@, sizes@, colors@, alignment as int);
            assert(sources(filled@, alignment as int)[slot as int] == source(
                nonempty(shown),
                alignment as int,
                slot as int,
                shown.len() as int,
            ));
            assert forall|s: int| 0 <= s <= slot implies #[trigger] legend_views(legends@)[s]
                == wanted[s] by {
                if s < slot {
                    assert(legends@[s] == before[s]);
                    assert(legend_views(before)[s] == wanted[s]);
                } else {
                    assert(legends@[s] == legend);
                }
            }
        }
        slot += 1;
    }
    assert(legend_views(legends@) == legends_of(text@, sizes@, colors@, alignment as int));
    legends
}

} // verus!
