//! The fields of a modifier object that take more than a plain value:
//! alignment, font sizes and legend colours.

use vstd::prelude::*;
use crate::color::{color_from_str, parse_color, Color};
use crate::json::{find, get_integer, get_text, integer_field, lookup, text_field, Json, Member};
use crate::legend::{clamp_size, font_size, sizes_in_range, MAX_SIZE, MIN_SIZE};
use crate::lines::{first_lines, lemma_split_lines_nonempty, split, texts};

verus! {

/// The alignment under `code`: a whole number from 0 to 7. Any other value
/// counts as none.
pub open spec fn alignment_field<T>(members: Seq<Member<T>>, code: Seq<char>) -> Option<usize> {
    match integer_field(members, code) {
        Some(n) if 0 <= n <= 7 => Some(n as usize),
        _ => None,
    }
}

/// The font size under `code`: a whole number, held to the range of sizes.
pub open spec fn size_field<T>(members: Seq<Member<T>>, code: Seq<char>) -> Option<usize> {
    match integer_field(members, code) {
        Some(n) => Some(clamp_size(n as int)),
        None => None,
    }
}

/// The font size that one element of a list of sizes gives.
pub open spec fn size_entry<T>(value: Json<T>) -> Option<usize> {
    match value {
        Json::Integer(n) => Some(clamp_size(n as int)),
        _ => None,
    }
}

/// The sizes that a list gives to the lines of a label, one for each of its
/// first twelve elements.
pub open spec fn size_entries<T>(items: Seq<Json<T>>) -> Seq<Option<usize>> {
    Seq::new(
        if items.len() <= 12 {
            items.len()
        } else {
            12
        },
        |i: int| size_entry(items[i]),
    )
}

/// The list of font sizes under `code`, if the object holds an array there.
pub open spec fn sizes_field<T>(members: Seq<Member<T>>, code: Seq<char>) -> Option<
    Seq<Option<usize>>,
> {
    match lookup(members, code) {
        Some(Json::Array(items)) => Some(size_entries(items@)),
        _ => None,
    }
}

/// The colour that the first line of a list of legend colours gives to all
/// legends.
pub open spec fn base_color(text: Seq<char>) -> Option<Color> {
    parse_color(first_lines(text, 12)[0])
}

/// The colours that a list of legend colours gives to single slots: line `i`
/// speaks for slot `i`, from the second line on.
pub open spec fn slot_colors(text: Seq<char>) -> Seq<Option<Color>> {
    let lines = first_lines(text, 12);
    Seq::new(
        12,
        |slot: int|
            if 1 <= slot < lines.len() {
                parse_color(lines[slot])
            } else {
                None
            },
    )
}

/// Reads the alignment under `code`.
pub fn get_alignment<T>(members: &Vec<Member<T>>, code: &str) -> (r: Option<usize>)
    ensures
        r == alignment_field(members@, code@),
        r matches Some(a) ==> a < 8,
{
    match get_integer(members, code) {
        Some(n) => if 0 <= n && n <= 7 {
            Some(n as usize)
        } else {
            None
        },
        None => None,
    }
}

/// Reads the font size under `code`.
pub fn get_size<T>(members: &Vec<Member<T>>, code: &str) -> (r: Option<usize>)
    ensures
        r == size_field(members@, code@),
        r matches Some(size) ==> MIN_SIZE <= size <= MAX_SIZE,
{
    match get_integer(members, code) {
        Some(n) => Some(font_size(n)),
        None => None,
    }
}

/// Reads the list of font sizes under `code`.
pub fn get_sizes<T>(members: &Vec<Member<T>>, code: &str) -> (r: Option<Vec<Option<usize>>>)
    ensures
        match r {
            Some(sizes) => sizes_field(members@, code@) == Some(sizes@) && sizes.len() <= 12
                && sizes_in_range(sizes@),
            None => sizes_field(members@, code@) is None,
        },
{
    match find(members, code) {
        Some(Json::Array(items)) => {
            let mut sizes: Vec<Option<usize>> = Vec::new();
            let mut i: usize = 0;
            while i < items.len() && i < 12
                invariant
                    i <= items.len(),
                    i <= 12,
                    sizes.len() == i,
                    forall|j: int| 0 <= j < i ==> #[trigger] sizes[j] == size_entry(items[j]),
                    sizes_in_range(sizes@),
                decreases items.len() - i,
            {
                let entry = match &items[i] {
                    Json::Integer(n) => Some(font_size(*n)),
                    _ => None,
                };
                sizes.push(entry);
                i += 1;
            }
            assert(sizes@ == size_entries(items@));
            Some(sizes)
        },
        _ => None,
    }
}

/// Reads the list of legend colours under `code`: the colour for all
/// legends, then the colour of each slot.
pub fn get_colors<T>(members: &Vec<Member<T>>, code: &str) -> (r: Option<
    (Option<Color>, Vec<Option<Color>>),
>)
    ensures
        match r {
            Some((base, each)) => {
                &&& text_field(members@, code@) matches Some(text)
                &&& base == base_color(text)
                &&& each@ == slot_colors(text)
            },
            None => text_field(members@, code@) is None,
        },
{
    match get_text(members, code) {
        Some(text) => {
            let lines = split(text.as_str(), 12);
            let ghost shown = first_lines(text@, 12);
            proof {
                lemma_split_lines_nonempty(text@);
            }
            assert(texts(lines@).len() == lines.len());
            assert(shown.len() >= 1);
            assert(texts(lines@)[0] == lines[0]@);
            let base = color_from_str(lines[0].as_str());
            let mut each: Vec<Option<Color>> = Vec::new();
            let mut slot: usize = 0;
            while slot < 12
                invariant
                    slot <= 12,
                    each.len() == slot,
                    texts(lines@) == shown,
                    shown == first_lines(text@, 12),
                    forall|s: int| 0 <= s < slot ==> #[trigger] each[s] == slot_colors(text@)[s],
                decreases 12 - slot,
            {
                let color = if 1 <= slot && slot < lines.len() {
                    assert(texts(lines@)[slot as int] == lines[slot as int]@);
                    color_from_str(lines[slot].as_str())
                } else {
                    None
                };
                each.push(color);
                slot += 1;
            }
            assert(each@ == slot_colors(text@));
            Some((base, each))
        },
        None => None,
    }
}

} // verus!
