//! The state that the walker carries from token to token: the cursor, and
//! every property that the next key takes over.

use vstd::prelude::*;
use crate::color::{default_key_color, default_legend_color, key_color, legend_color, Color};
use crate::fields::{
    alignment_field, base_color, get_alignment, get_colors, get_size, get_sizes, size_field,
    sizes_field, slot_colors,
};
use crate::json::{
    color_field, flag_field, get_color, get_flag, get_real, get_text, real_field, text_field,
    Member,
};
use crate::key::{Key, KeyView, Switch, SwitchView};
use crate::legend::{
    build_legends, colors_of, legends_of, lemma_legends_wf, lemma_sizes_in_range, resolve_colors,
    resolve_sizes, sizes_in_range, sizes_of, DEFAULT_ALIGNMENT, DEFAULT_SIZE, MAX_SIZE, MIN_SIZE,
};
use crate::scalar::Real;

verus! {

/// The walker's state.
#[derive(Debug)]
pub struct KeyState<T> {
    /// Where the next key goes.
    pub x: T,
    pub y: T,
    pub width: T,
    pub height: T,
    /// The second part of the next key, as far as it was given.
    pub x2: Option<T>,
    pub y2: Option<T>,
    pub width2: Option<T>,
    pub height2: Option<T>,
    pub rotation: T,
    /// The centre of rotation, from which rows start.
    pub rx: T,
    pub ry: T,
    pub color: Color,
    /// The colour of legends whose slot has none of its own.
    pub text_color: Color,
    /// The colour of each slot's legend, where one was given.
    pub slot_colors: Vec<Option<Color>>,
    pub alignment: usize,
    /// The font size of all legends.
    pub font: usize,
    /// The font size of all legends but the first, where one was given.
    pub font2: Option<usize>,
    /// The font size of each line of a label, where one was given.
    pub font_each: Vec<Option<usize>>,
    pub profile: String,
    pub mount: String,
    pub brand: String,
    pub typ: String,
    pub ghosted: bool,
    pub stepped: bool,
    pub homing: bool,
    pub decal: bool,
}

/// What a `KeyState` holds.
pub struct StateView<T> {
    pub x: T,
    pub y: T,
    pub width: T,
    pub height: T,
    pub x2: Option<T>,
    pub y2: Option<T>,
    pub width2: Option<T>,
    pub height2: Option<T>,
    pub rotation: T,
    pub rx: T,
    pub ry: T,
    pub color: Color,
    pub text_color: Color,
    pub slot_colors: Seq<Option<Color>>,
    pub alignment: usize,
    pub font: usize,
    pub font2: Option<usize>,
    pub font_each: Seq<Option<usize>>,
    pub profile: Seq<char>,
    pub mount: Seq<char>,
    pub brand: Seq<char>,
    pub typ: Seq<char>,
    pub ghosted: bool,
    pub stepped: bool,
    pub homing: bool,
    pub decal: bool,
}

impl<T> View for KeyState<T> {
    type V = StateView<T>;

    open spec fn view(&self) -> StateView<T> {
        StateView {
            x: self.x,
            y: self.y,
            width: self.width,
            height: self.height,
            x2: self.x2,
            y2: self.y2,
            width2: self.width2,
            height2: self.height2,
            rotation: self.rotation,
            rx: self.rx,
            ry: self.ry,
            color: self.color,
            text_color: self.text_color,
            slot_colors: self.slot_colors@,
            alignment: self.alignment,
            font: self.font,
            font2: self.font2,
            font_each: self.font_each@,
            profile: self.profile@,
            mount: self.mount@,
            brand: self.brand@,
            typ: self.typ@,
            ghosted: self.ghosted,
            stepped: self.stepped,
            homing: self.homing,
            decal: self.decal,
        }
    }
}

impl<T> StateView<T> {
    /// The alignment is an alignment code and every font size is one.
    pub open spec fn wf(self) -> bool {
        &&& self.alignment < 8
        &&& MIN_SIZE <= self.font <= MAX_SIZE
        &&& self.font2 matches Some(size) ==> MIN_SIZE <= size <= MAX_SIZE
        &&& sizes_in_range(self.font_each)
    }
}

/// `new` where it is given, else `old`.
pub open spec fn or_else<A>(new: Option<A>, old: A) -> A {
    match new {
        Some(value) => value,
        None => old,
    }
}

/// `new` where it is given, else `old`.
pub open spec fn or_keep<A>(new: Option<A>, old: Option<A>) -> Option<A> {
    match new {
        Some(value) => Some(value),
        None => old,
    }
}

/// `base` moved by `delta`, or `base` itself where no move is given.
pub open spec fn moved<T: Real>(base: T, delta: Option<T>) -> T {
    match delta {
        Some(d) => base.spec_plus(d),
        None => base,
    }
}

/// The state before the first token: a default key at the origin.
pub open spec fn initial<T: Real>() -> StateView<T> {
    StateView {
        x: T::spec_from_integer(0),
        y: T::spec_from_integer(0),
        width: T::spec_from_integer(1),
        height: T::spec_from_integer(1),
        x2: None,
        y2: None,
        width2: None,
        height2: None,
        rotation: T::spec_from_integer(0),
        rx: T::spec_from_integer(0),
        ry: T::spec_from_integer(0),
        color: key_color(),
        text_color: legend_color(),
        slot_colors: Seq::new(12, |slot: int| None),
        alignment: DEFAULT_ALIGNMENT,
        font: DEFAULT_SIZE,
        font2: None,
        font_each: Seq::empty(),
        profile: Seq::empty(),
        mount: Seq::empty(),
        brand: Seq::empty(),
        typ: Seq::empty(),
        ghosted: false,
        stepped: false,
        homing: false,
        decal: false,
    }
}

/// Whether a modifier speaks of the rotation or of its centre, which sends
/// the cursor back to the centre.
pub open spec fn turns<T: Real>(members: Seq<Member<T>>) -> bool {
    ||| real_field(members, "r"@) is Some
    ||| real_field(members, "rx"@) is Some
    ||| real_field(members, "ry"@) is Some
}

/// The state after a modifier.
///
/// A field that the modifier gives with a value of the right type replaces
/// the state's; every other field stays. `x` and `y` move the cursor and are
/// not kept. Where the modifier speaks of the rotation, the cursor first
/// goes to the centre of rotation, as the modifier leaves it.
pub open spec fn apply<T: Real>(state: StateView<T>, members: Seq<Member<T>>) -> StateView<T> {
    let rx = or_else(real_field(members, "rx"@), state.rx);
    let ry = or_else(real_field(members, "ry"@), state.ry);
    StateView {
        x: moved(
            if turns(members) {
                rx
            } else {
                state.x
            },
            real_field(members, "x"@),
        ),
        y: moved(
            if turns(members) {
                ry
            } else {
                state.y
            },
            real_field(members, "y"@),
        ),
        width: or_else(real_field(members, "w"@), state.width),
        height: or_else(real_field(members, "h"@), state.height),
        x2: or_keep(real_field(members, "x2"@), state.x2),
        y2: or_keep(real_field(members, "y2"@), state.y2),
        width2: or_keep(real_field(members, "w2"@), state.width2),
        height2: or_keep(real_field(members, "h2"@), state.height2),
        rotation: or_else(real_field(members, "r"@), state.rotation),
        rx,
        ry,
        color: or_else(color_field(members, "c"@), state.color),
        text_color: match text_field(members, "t"@) {
            Some(text) => or_else(base_color(text), state.text_color),
            None => state.text_color,
        },
        slot_colors: match text_field(members, "t"@) {
            Some(text) => slot_colors(text),
            None => state.slot_colors,
        },
        alignment: or_else(alignment_field(members, "a"@), state.alignment),
        font: or_else(size_field(members, "f"@), state.font),
        font2: or_keep(size_field(members, "f2"@), state.font2),
        font_each: or_else(sizes_field(members, "fa"@), state.font_each),
        profile: or_else(text_field(members, "p"@), state.profile),
        mount: or_else(text_field(members, "sm"@), state.mount),
        brand: or_else(text_field(members, "sb"@), state.brand),
        typ: or_else(text_field(members, "st"@), state.typ),
        ghosted: or_else(flag_field(members, "g"@), state.ghosted),
        stepped: or_else(flag_field(members, "l"@), state.stepped),
        homing: or_else(flag_field(members, "n"@), state.homing),
        decal: or_else(flag_field(members, "d"@), state.decal),
    }
}

/// The key that a label makes in a state: the label's lines as legends, and
/// the state's properties. A second part that was not given lies on the key
/// itself.
pub open spec fn key_of<T: Real>(state: StateView<T>, text: Seq<char>) -> KeyView<T> {
    KeyView {
        legends: legends_of(
            text,
            sizes_of(state.font, state.font2, state.font_each, state.alignment as int),
            colors_of(state.text_color, state.slot_colors),
            state.alignment as int,
        ),
        color: state.color,
        x: state.x,
        y: state.y,
        width: state.width,
        height: state.height,
        x2: or_else(state.x2, T::spec_from_integer(0)),
        y2: or_else(state.y2, T::spec_from_integer(0)),
        width2: or_else(state.width2, state.width),
        height2: or_else(state.height2, state.height),
        rotation: state.rotation,
        rx: state.rx,
        ry: state.ry,
        profile: state.profile,
        key_switch: SwitchView { mount: state.mount, brand: state.brand, typ: state.typ },
        ghosted: state.ghosted,
        stepped: state.stepped,
        homing: state.homing,
        decal: state.decal,
    }
}

/// How far a key moves the cursor: by its width, or, where its second part
/// was given an offset or a width, by the larger of its width and the reach
/// of the second part.
pub open spec fn advance<T: Real>(state: StateView<T>) -> T {
    if state.x2 is Some || state.width2 is Some {
        state.width.spec_larger(
            or_else(state.x2, T::spec_from_integer(0)).spec_plus(
                or_else(state.width2, state.width),
            ),
        )
    } else {
        state.width
    }
}

/// The state after a key: the cursor has moved past it, and nothing is said
/// of the next key's second part. All else stays.
pub open spec fn after_key<T: Real>(state: StateView<T>) -> StateView<T> {
    StateView {
        x: state.x.spec_plus(advance(state)),
        x2: None,
        y2: None,
        width2: None,
        height2: None,
        ..state
    }
}

/// The state after a row: the cursor is one unit further down, at the
/// centre of rotation's `x`. All else stays.
pub open spec fn after_row<T: Real>(state: StateView<T>) -> StateView<T> {
    StateView { x: state.rx, y: state.y.spec_plus(T::spec_from_integer(1)), ..state }
}

/// A modifier leaves a state well formed.
pub proof fn lemma_apply_wf<T: Real>(state: StateView<T>, members: Seq<Member<T>>)
    requires
        state.wf(),
    ensures
        apply(state, members).wf(),
{
}

/// A key made in a well-formed state is well formed.
pub proof fn lemma_key_wf<T: Real>(state: StateView<T>, text: Seq<char>)
    requires
        state.wf(),
    ensures
        key_of(state, text).wf(),
{
    lemma_sizes_in_range(state.font, state.font2, state.font_each, state.alignment as int);
    lemma_legends_wf(
        text,
        sizes_of(state.font, state.font2, state.font_each, state.alignment as int),
        colors_of(state.text_color, state.slot_colors),
        state.alignment as int,
    );
}

fn replace<A>(target: &mut A, new: Option<A>)
    ensures
        *final(target) == or_else(new, *old(target)),
{
    if let Some(value) = new {
        *target = value;
    }
}

fn fill<A>(target: &mut Option<A>, new: Option<A>)
    ensures
        *final(target) == or_keep(new, *old(target)),
{
    if let Some(value) = new {
        *target = Some(value);
    }
}

fn replace_text(target: &mut String, new: Option<&String>)
    ensures
        final(target)@ == (match new {
            Some(text) => text@,
            None => old(target)@,
        }),
{
    if let Some(text) = new {
        *target = text.clone();
    }
}

fn shift<T: Real>(base: T, delta: Option<T>) -> (r: T)
    ensures
        r == moved(base, delta),
{
    match delta {
        Some(d) => base.plus(d),
        None => base,
    }
}

fn copy_of<A: Copy>(items: &Vec<A>) -> (copy: Vec<A>)
    ensures
        copy@ == items@,
{
    let mut copy: Vec<A> = Vec::new();
    let mut i: usize = 0;
    while i < items.len()
        invariant
            i <= items.len(),
            copy@ == items@.take(i as int),
        decreases items.len() - i,
    {
        copy.push(items[i]);
        assert(items@.take(i + 1) == items@.take(i as int).push(items[i as int]));
        i += 1;
    }
    assert(items@.take(i as int) == items@);
    copy
}

impl<T: Copy> Clone for KeyState<T> {
    fn clone(&self) -> (state: Self)
        ensures
            state@ == self@,
    {
        KeyState {
            x: self.x,
            y: self.y,
            width: self.width,
            height: self.height,
            x2: self.x2,
            y2: self.y2,
            width2: self.width2,
            height2: self.height2,
            rotation: self.rotation,
            rx: self.rx,
            ry: self.ry,
            color: self.color,
            text_color: self.text_color,
            slot_colors: copy_of(&self.slot_colors),
            alignment: self.alignment,
            font: self.font,
            font2: self.font2,
            font_each: copy_of(&self.font_each),
            profile: self.profile.clone(),
            mount: self.mount.clone(),
            brand: self.brand.clone(),
            typ: self.typ.clone(),
            ghosted: self.ghosted,
            stepped: self.stepped,
            homing: self.homing,
            decal: self.decal,
        }
    }
}

fn no_slot_colors() -> (each: Vec<Option<Color>>)
    ensures
        each@ == Seq::<Option<Color>>::new(12, |slot: int| None),
{
    let mut each: Vec<Option<Color>> = Vec::new();
    while each.len() < 12
        invariant
            each.len() <= 12,
            forall|slot: int| 0 <= slot < each.len() ==> #[trigger] each[slot] is None,
        decreases 12 - each.len(),
    {
        each.push(None);
    }
    assert(each@ == Seq::<Option<Color>>::new(12, |slot: int| None));
    each
}

impl<T: Real> KeyState<T> {
    /// The state before the first token.
    pub fn new() -> (state: Self)
        ensures
            state@ == initial::<T>(),
            state@.wf(),
    {
        KeyState {
            x: T::from_integer(0),
            y: T::from_integer(0),
            width: T::from_integer(1),
            height: T::from_integer(1),
            x2: None,
            y2: None,
            width2: None,
            height2: None,
            rotation: T::from_integer(0),
            rx: T::from_integer(0),
            ry: T::from_integer(0),
            color: default_key_color(),
            text_color: default_legend_color(),
            slot_colors: no_slot_colors(),
            alignment: DEFAULT_ALIGNMENT,
            font: DEFAULT_SIZE,
            font2: None,
            font_each: Vec::new(),
            profile: String::new(),
            mount: String::new(),
            brand: String::new(),
            typ: String::new(),
            ghosted: false,
            stepped: false,
            homing: false,
            decal: false,
        }
    }

    /// Takes a modifier into the state.
    pub fn update(&mut self, members: &Vec<Member<T>>)
        requires
            old(self)@.wf(),
        ensures
            final(self)@ == apply(old(self)@, members@),
            final(self)@.wf(),
    {
        let r = get_real(members, "r");
        let rx = get_real(members, "rx");
        let ry = get_real(members, "ry");
        replace(&mut self.rotation, r);
        replace(&mut self.rx, rx);
        replace(&mut self.ry, ry);
        if r.is_some() || rx.is_some() || ry.is_some() {
            self.x = self.rx;
            self.y = self.ry;
        }
        self.x = shift(self.x, get_real(members, "x"));
        self.y = shift(self.y, get_real(members, "y"));
        replace(&mut self.width, get_real(members, "w"));
        replace(&mut self.height, get_real(members, "h"));
        fill(&mut self.x2, get_real(members, "x2"));
        fill(&mut self.y2, get_real(members, "y2"));
        fill(&mut self.width2, get_real(members, "w2"));
        fill(&mut self.height2, get_real(members, "h2"));
        replace(&mut self.color, get_color(members, "c"));
        match get_colors(members, "t") {
            Some((base, each)) => {
                replace(&mut self.text_color, base);
                self.slot_colors = each;
            },
            None => {},
        }
        replace(&mut self.alignment, get_alignment(members, "a"));
        replace(&mut self.font, get_size(members, "f"));
        fill(&mut self.font2, get_size(members, "f2"));
        replace(&mut self.font_each, get_sizes(members, "fa"));
        replace_text(&mut self.profile, get_text(members, "p"));
        replace_text(&mut self.mount, get_text(members, "sm"));
        replace_text(&mut self.brand, get_text(members, "sb"));
        replace_text(&mut self.typ, get_text(members, "st"));
        replace(&mut self.ghosted, get_flag(members, "g"));
        replace(&mut self.stepped, get_flag(members, "l"));
        replace(&mut self.homing, get_flag(members, "n"));
        replace(&mut self.decal, get_flag(members, "d"));
    }

    /// Makes the key that a label stands for.
    pub fn build_key(&self, text: &str) -> (key: Key<T>)
        requires
            self@.wf(),
        ensures
            key@ == key_of(self@, text@),
            key@.wf(),
    {
        proof {
            lemma_key_wf(self@, text@);
            lemma_sizes_in_range(self.font, self.font2, self.font_each@, self.alignment as int);
        }
        let sizes = resolve_sizes(self.font, self.font2, &self.font_each, self.alignment);
        let colors = resolve_colors(self.text_color, &self.slot_colors);
        Key {
            legends: build_legends(text, &sizes, &colors, self.alignment),
            color: self.color,
            x: self.x,
            y: self.y,
            width: self.width,
            height: self.height,
            x2: match self.x2 {
                Some(value) => value,
                None => T::from_integer(0),
            },
            y2: match self.y2 {
                Some(value) => value,
                None => T::from_integer(0),
            },
            width2: match self.width2 {
                Some(value) => value,
                None => self.width,
            },
            height2: match self.height2 {
                Some(value) => value,
                None => self.height,
            },
            rotation: self.rotation,
            rx: self.rx,
            ry: self.ry,
            profile: self.profile.clone(),
            key_switch: Switch {
                mount: self.mount.clone(),
                brand: self.brand.clone(),
                typ: self.typ.clone(),
            },
            ghosted: self.ghosted,
            stepped: self.stepped,
            homing: self.homing,
            decal: self.decal,
        }
    }

    /// Moves on past the key just made.
    pub fn next_key(&mut self)
        ensures
            final(self)@ == after_key(old(self)@),
            old(self)@.wf() ==> final(self)@.wf(),
    {
        let step = if self.x2.is_some() || self.width2.is_some() {
            let offset = match self.x2 {
                Some(value) => value,
                None => T::from_integer(0),
            };
            let width2 = match self.width2 {
                Some(value) => value,
                None => self.width,
            };
            self.width.larger(offset.plus(width2))
        } else {
            self.width
        };
        self.x = self.x.plus(step);
        self.x2 = None;
        self.y2 = None;
        self.width2 = None;
        self.height2 = None;
    }

    /// Moves on to the next row.
    pub fn next_row(&mut self)
        ensures
            final(self)@ == after_row(old(self)@),
            old(self)@.wf() ==> final(self)@.wf(),
    {
        self.x = self.rx;
        self.y = self.y.plus(T::from_integer(1));
    }
}

} // verus!
