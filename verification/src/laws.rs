//! Laws of the decoding: what holds of every layout.

use vstd::prelude::*;
use crate::fields::{alignment_field, size_field, sizes_field};
use crate::json::{color_field, flag_field, real_field, text_field, Json, Member};
use crate::key::KeyView;
use crate::keyboard::{decoded, elements, Error, KeyIterator, Keyboard, KeyboardView};
use crate::legend::slot_of;
use crate::scalar::Real;
use crate::state::{after_key, key_of, StateView};
use crate::walker::{
    at_or_before, is_place, keys_before, keys_of, lemma_keys_grow, state_at, step, tokens,
};

verus! {

/// A property of keys that a modifier can set.
pub enum Field {
    Color,
    TextColors,
    Width,
    Height,
    Rotation,
    OriginX,
    OriginY,
    Profile,
    Alignment,
    FontSize,
    SecondFontSize,
    FontSizes,
    Homing,
    Stepped,
    Ghosted,
    Decal,
    Mount,
    Brand,
    Type,
    X2,
    Y2,
    Width2,
    Height2,
}

impl Field {
    /// Whether the field speaks of the second part of a key, and so of the
    /// next key only.
    pub open spec fn one_shot(self) -> bool {
        self is X2 || self is Y2 || self is Width2 || self is Height2
    }
}

/// Whether a modifier gives a value to `field`.
pub open spec fn supplies<T: Real>(members: Seq<Member<T>>, field: Field) -> bool {
    match field {
        Field::Color => color_field(members, "c"@) is Some,
        Field::TextColors => text_field(members, "t"@) is Some,
        Field::Width => real_field(members, "w"@) is Some,
        Field::Height => real_field(members, "h"@) is Some,
        Field::Rotation => real_field(members, "r"@) is Some,
        Field::OriginX => real_field(members, "rx"@) is Some,
        Field::OriginY => real_field(members, "ry"@) is Some,
        Field::Profile => text_field(members, "p"@) is Some,
        Field::Alignment => alignment_field(members, "a"@) is Some,
        Field::FontSize => size_field(members, "f"@) is Some,
        Field::SecondFontSize => size_field(members, "f2"@) is Some,
        Field::FontSizes => sizes_field(members, "fa"@) is Some,
        Field::Homing => flag_field(members, "n"@) is Some,
        Field::Stepped => flag_field(members, "l"@) is Some,
        Field::Ghosted => flag_field(members, "g"@) is Some,
        Field::Decal => flag_field(members, "d"@) is Some,
        Field::Mount => text_field(members, "sm"@) is Some,
        Field::Brand => text_field(members, "sb"@) is Some,
        Field::Type => text_field(members, "st"@) is Some,
        Field::X2 => real_field(members, "x2"@) is Some,
        Field::Y2 => real_field(members, "y2"@) is Some,
        Field::Width2 => real_field(members, "w2"@) is Some,
        Field::Height2 => real_field(members, "h2"@) is Some,
    }
}

/// Whether a token is a modifier that gives a value to `field`.
pub open spec fn sets<T: Real>(token: Json<T>, field: Field) -> bool {
    token matches Json::Object(members) && supplies(members@, field)
}

/// Whether two states agree on `field`.
pub open spec fn same<T>(a: StateView<T>, b: StateView<T>, field: Field) -> bool {
    match field {
        Field::Color => a.color == b.color,
        Field::TextColors => a.text_color == b.text_color && a.slot_colors == b.slot_colors,
        Field::Width => a.width == b.width,
        Field::Height => a.height == b.height,
        Field::Rotation => a.rotation == b.rotation,
        Field::OriginX => a.rx == b.rx,
        Field::OriginY => a.ry == b.ry,
        Field::Profile => a.profile == b.profile,
        Field::Alignment => a.alignment == b.alignment,
        Field::FontSize => a.font == b.font,
        Field::SecondFontSize => a.font2 == b.font2,
        Field::FontSizes => a.font_each == b.font_each,
        Field::Homing => a.homing == b.homing,
        Field::Stepped => a.stepped == b.stepped,
        Field::Ghosted => a.ghosted == b.ghosted,
        Field::Decal => a.decal == b.decal,
        Field::Mount => a.mount == b.mount,
        Field::Brand => a.brand == b.brand,
        Field::Type => a.typ == b.typ,
        Field::X2 => a.x2 == b.x2,
        Field::Y2 => a.y2 == b.y2,
        Field::Width2 => a.width2 == b.width2,
        Field::Height2 => a.height2 == b.height2,
    }
}

/// Whether nothing is said in a state of the part of a key's second part
/// that `field` names.
pub open spec fn unset<T>(state: StateView<T>, field: Field) -> bool {
    match field {
        Field::X2 => state.x2 is None,
        Field::Y2 => state.y2 is None,
        Field::Width2 => state.width2 is None,
        Field::Height2 => state.height2 is None,
        _ => false,
    }
}

/// Whether a key has for `field` what a key has of which nothing was said
/// there: no offset, and the size of the key itself.
pub open spec fn plain<T: Real>(key: KeyView<T>, field: Field) -> bool {
    match field {
        Field::X2 => key.x2 == T::spec_from_integer(0),
        Field::Y2 => key.y2 == T::spec_from_integer(0),
        Field::Width2 => key.width2 == key.width,
        Field::Height2 => key.height2 == key.height,
        _ => false,
    }
}

/// Whether two keys agree on `field`, for the fields that a key shows as
/// they are.
pub open spec fn agree<T>(a: KeyView<T>, b: KeyView<T>, field: Field) -> bool {
    match field {
        Field::Color => a.color == b.color,
        Field::Width => a.width == b.width,
        Field::Height => a.height == b.height,
        Field::Rotation => a.rotation == b.rotation,
        Field::OriginX => a.rx == b.rx,
        Field::OriginY => a.ry == b.ry,
        Field::Profile => a.profile == b.profile,
        Field::Homing => a.homing == b.homing,
        Field::Stepped => a.stepped == b.stepped,
        Field::Ghosted => a.ghosted == b.ghosted,
        Field::Decal => a.decal == b.decal,
        Field::Mount => a.key_switch.mount == b.key_switch.mount,
        Field::Brand => a.key_switch.brand == b.key_switch.brand,
        Field::Type => a.key_switch.typ == b.key_switch.typ,
        _ => false,
    }
}

/// Whether a key shows `field` as it is, and not through its legends.
pub open spec fn shown(field: Field) -> bool {
    !field.one_shot() && !(field is Alignment || field is FontSize || field is SecondFontSize
        || field is FontSizes || field is TextColors)
}

/// The key that the label at the place `(r, c)` makes.
pub open spec fn key_at<T: Real>(items: Seq<Json<T>>, r: int, c: int) -> KeyView<T> {
    match tokens(items, r)[c] {
        Json::Text(text) => key_of(state_at(items, r, c), text@),
        _ => arbitrary(),
    }
}

/// Whether a label stands at the place `(r, c)`.
pub open spec fn label_at<T>(items: Seq<Json<T>>, r: int, c: int) -> bool {
    &&& is_place(items, r, c)
    &&& r < items.len()
    &&& c < tokens(items, r).len()
    &&& tokens(items, r)[c] is Text
}

/// Whether the place `(r, c)` lies before `(r2, c2)`.
pub open spec fn before(r: int, c: int, r2: int, c2: int) -> bool {
    r < r2 || (r == r2 && c < c2)
}

/// Whether no token from the place `(r, c)` up to, and without, the place
/// `(r2, c2)` gives a value to `field`.
pub open spec fn quiet<T: Real>(
    items: Seq<Json<T>>,
    r: int,
    c: int,
    r2: int,
    c2: int,
    field: Field,
) -> bool {
    forall|i: int, j: int|
        at_or_before(r, c, i, j) && before(i, j, r2, c2) && 0 <= i < items.len() && 0 <= j
            < tokens(items, i).len() ==> !#[trigger] sets(tokens(items, i)[j], field)
}

/// An alignment never sends a line to a slot that is not there, and never
/// two lines to one slot.
pub proof fn slots_are_distinct(alignment: int, first: int, second: int)
    ensures
        slot_of(alignment, first) matches Some(slot) ==> 0 <= slot < 12,
        slot_of(alignment, first) is Some && slot_of(alignment, first) == slot_of(
            alignment,
            second,
        ) ==> first == second,
{
}

/// A token that does not set a field leaves it as it is; but a label ends
/// what was said of the second part of a key.
pub proof fn token_keeps<T: Real>(state: StateView<T>, token: Json<T>, field: Field)
    requires
        !sets(token, field),
    ensures
        !(field.one_shot() && token is Text) ==> same(step(state, token), state, field),
        field.one_shot() && (token is Text || unset(state, field)) ==> unset(
            step(state, token),
            field,
        ),
{
}

/// A field that a modifier sets stays in effect on every later key until a
/// modifier sets it again: where no token between two places of a layout
/// gives the field a value, the state has at the later place what it had at
/// the earlier one. What is said of a key's second part is excepted.
pub proof fn field_persists<T: Real>(
    items: Seq<Json<T>>,
    r: int,
    c: int,
    r2: int,
    c2: int,
    field: Field,
)
    requires
        is_place(items, r, c),
        is_place(items, r2, c2),
        at_or_before(r, c, r2, c2),
        !field.one_shot(),
        quiet(items, r, c, r2, c2, field),
    ensures
        same(state_at(items, r2, c2), state_at(items, r, c), field),
    decreases r2, c2,
{
    if r == r2 && c == c2 {
    } else if c2 > 0 {
        field_persists(items, r, c, r2, c2 - 1, field);
        assert(!sets(tokens(items, r2)[c2 - 1], field));
        token_keeps(state_at(items, r2, c2 - 1), tokens(items, r2)[c2 - 1], field);
    } else {
        field_persists(items, r, c, r2 - 1, tokens(items, r2 - 1).len() as int, field);
    }
}

/// Every label makes a key of the layout: the one after the keys of the
/// labels before it.
pub proof fn label_makes_key<T: Real>(items: Seq<Json<T>>, r: int, c: int)
    requires
        label_at(items, r, c),
    ensures
        keys_before(items, r, c).len() < keys_of(items).len(),
        keys_of(items)[keys_before(items, r, c).len() as int] == key_at(items, r, c),
{
    let made = keys_before(items, r, c + 1);
    assert(made == keys_before(items, r, c).push(key_at(items, r, c)));
    lemma_keys_grow(items, r, c + 1, items.len() as int, 0);
    assert(keys_of(items).take(made.len() as int)[made.len() - 1] == made[made.len() - 1]);
}

/// Two keys show the same for a field that no modifier between their
/// labels sets.
pub proof fn keys_keep_field<T: Real>(
    items: Seq<Json<T>>,
    r: int,
    c: int,
    r2: int,
    c2: int,
    field: Field,
)
    requires
        label_at(items, r, c),
        label_at(items, r2, c2),
        at_or_before(r, c, r2, c2),
        shown(field),
        quiet(items, r, c, r2, c2, field),
    ensures
        agree(key_at(items, r, c), key_at(items, r2, c2), field),
{
    field_persists(items, r, c, r2, c2, field);
}

/// Two labels of the same text have the same legends where no modifier
/// between them sets the alignment, a font size or the legend colours.
pub proof fn keys_keep_legends<T: Real>(items: Seq<Json<T>>, r: int, c: int, r2: int, c2: int)
    requires
        label_at(items, r, c),
        label_at(items, r2, c2),
        at_or_before(r, c, r2, c2),
        tokens(items, r)[c]->Text_0@ == tokens(items, r2)[c2]->Text_0@,
        quiet(items, r, c, r2, c2, Field::Alignment),
        quiet(items, r, c, r2, c2, Field::FontSize),
        quiet(items, r, c, r2, c2, Field::SecondFontSize),
        quiet(items, r, c, r2, c2, Field::FontSizes),
        quiet(items, r, c, r2, c2, Field::TextColors),
    ensures
        key_at(items, r, c).legends == key_at(items, r2, c2).legends,
{
    field_persists(items, r, c, r2, c2, Field::Alignment);
    field_persists(items, r, c, r2, c2, Field::FontSize);
    field_persists(items, r, c, r2, c2, Field::SecondFontSize);
    field_persists(items, r, c, r2, c2, Field::FontSizes);
    field_persists(items, r, c, r2, c2, Field::TextColors);
    legends_follow_fields(
        state_at(items, r2, c2),
        state_at(items, r, c),
        tokens(items, r)[c]->Text_0@,
    );
}

/// What a modifier says of the second part of a key holds for the next key
/// only: where a label stands at `(r, c)` and no token from there to a later
/// place says it again, nothing is said of it at that place.
pub proof fn second_part_is_one_shot<T: Real>(
    items: Seq<Json<T>>,
    r: int,
    c: int,
    r2: int,
    c2: int,
    field: Field,
)
    requires
        is_place(items, r, c + 1),
        tokens(items, r)[c] is Text,
        is_place(items, r2, c2),
        0 <= c,
        at_or_before(r, c + 1, r2, c2),
        field.one_shot(),
        quiet(items, r, c + 1, r2, c2, field),
    ensures
        unset(state_at(items, r2, c2), field),
    decreases r2, c2,
{
    if r == r2 && c + 1 == c2 {
        assert(state_at(items, r, c + 1) == after_key(state_at(items, r, c)));
    } else if c2 > 0 {
        second_part_is_one_shot(items, r, c, r2, c2 - 1, field);
        assert(!sets(tokens(items, r2)[c2 - 1], field));
        token_keeps(state_at(items, r2, c2 - 1), tokens(items, r2)[c2 - 1], field);
    } else {
        second_part_is_one_shot(items, r, c, r2 - 1, tokens(items, r2 - 1).len() as int, field);
    }
}

/// The second part that one key was given does not reach the next: where a
/// label stands at `(r, c)`, another at a later place, and no token between
/// them speaks of the second part, the later key has none.
pub proof fn next_key_is_plain<T: Real>(
    items: Seq<Json<T>>,
    r: int,
    c: int,
    r2: int,
    c2: int,
    field: Field,
)
    requires
        label_at(items, r, c),
        label_at(items, r2, c2),
        before(r, c, r2, c2),
        field.one_shot(),
        quiet(items, r, c + 1, r2, c2, field),
    ensures
        plain(key_at(items, r2, c2), field),
{
    second_part_is_one_shot(items, r, c, r2, c2, field);
    unset_part_is_plain(state_at(items, r2, c2), tokens(items, r2)[c2]->Text_0@, field);
}

/// A key made where nothing is said of its second part has none: no offset,
/// and the size of the key itself.
pub proof fn unset_part_is_plain<T: Real>(state: StateView<T>, text: Seq<char>, field: Field)
    requires
        unset(state, field),
    ensures
        plain(key_of(state, text), field),
{
}

/// Two keys made from one label in states that agree on the alignment, the
/// font sizes and the legend colours have the same legends.
pub proof fn legends_follow_fields<T: Real>(a: StateView<T>, b: StateView<T>, text: Seq<char>)
    requires
        same(a, b, Field::Alignment),
        same(a, b, Field::FontSize),
        same(a, b, Field::SecondFontSize),
        same(a, b, Field::FontSizes),
        same(a, b, Field::TextColors),
    ensures
        key_of(a, text).legends == key_of(b, text).legends,
{
}

/// Decoding a layout twice gives the same keyboard.
pub proof fn decoding_repeats<T: Real>(doc: Json<T>, first: Keyboard<T>, second: Keyboard<T>)
    requires
        decoded(doc) == Ok::<KeyboardView<T>, Error>(first@),
        decoded(doc) == Ok::<KeyboardView<T>, Error>(second@),
    ensures
        first@ == second@,
{
}

/// Two iterators that have handed out nothing yet of one layout have the
/// same keys to come: those of the layout.
pub proof fn iterators_agree<T: Real>(
    doc: Json<T>,
    first: KeyIterator<'_, T>,
    second: KeyIterator<'_, T>,
)
    requires
        first.source() == elements(doc),
        second.source() == elements(doc),
        first.emitted().len() == 0,
        second.emitted().len() == 0,
    ensures
        first.remaining() == second.remaining(),
        first.remaining() == keys_of(elements(doc)),
{
    assert(keys_of(elements(doc)).skip(0) == keys_of(elements(doc)));
}

} // verus!
