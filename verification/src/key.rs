//! Keys and their switches.

use vstd::prelude::*;
use crate::color::{default_key_color, key_color, Color};
use crate::legend::{legend_views, legends_wf, Legend, LegendView};
use crate::scalar::Real;

verus! {

/// A key switch.
#[derive(Debug, PartialEq)]
pub struct Switch {
    /// The switch mount, such as `"cherry"` or `"alps"`.
    pub mount: String,
    /// The switch brand.
    pub brand: String,
    /// The switch type: a part number or a colour, depending on the brand.
    pub typ: String,
}

/// What a `Switch` holds.
pub struct SwitchView {
    pub mount: Seq<char>,
    pub brand: Seq<char>,
    pub typ: Seq<char>,
}

impl View for Switch {
    type V = SwitchView;

    open spec fn view(&self) -> SwitchView {
        SwitchView { mount: self.mount@, brand: self.brand@, typ: self.typ@ }
    }
}

/// The switch of which nothing is said.
pub open spec fn no_switch() -> SwitchView {
    SwitchView {
        mount: Seq::<char>::empty(),
        brand: Seq::<char>::empty(),
        typ: Seq::<char>::empty(),
    }
}

impl Default for Switch {
    fn default() -> (switch: Self)
        ensures
            switch@ == no_switch(),
    {
        Switch { mount: String::new(), brand: String::new(), typ: String::new() }
    }
}

impl Clone for Switch {
    fn clone(&self) -> (switch: Self)
        ensures
            switch@ == self@,
    {
        Switch { mount: self.mount.clone(), brand: self.brand.clone(), typ: self.typ.clone() }
    }
}

/// A single key. Positions and sizes are in keyboard units, the rotation in
/// degrees.
#[derive(Debug, PartialEq)]
pub struct Key<T> {
    /// The legends, one slot for each place on the key: the top row from left
    /// to right, the middle row, the bottom row, then the front. A slot
    /// without text is `None`.
    pub legends: Vec<Option<Legend>>,
    /// The colour of the key.
    pub color: Color,
    /// Horizontal position.
    pub x: T,
    /// Vertical position.
    pub y: T,
    /// Width.
    pub width: T,
    /// Height.
    pub height: T,
    /// Horizontal offset of the second part of a stepped or L-shaped key.
    pub x2: T,
    /// Vertical offset of the second part.
    pub y2: T,
    /// Width of the second part; that of the key where it has none.
    pub width2: T,
    /// Height of the second part; that of the key where it has none.
    pub height2: T,
    /// Rotation, clockwise.
    pub rotation: T,
    /// Horizontal position of the centre of rotation.
    pub rx: T,
    /// Vertical position of the centre of rotation.
    pub ry: T,
    /// The keycap profile and row.
    pub profile: String,
    /// The key switch.
    pub key_switch: Switch,
    /// Whether the key is ghosted.
    pub ghosted: bool,
    /// Whether the key is stepped.
    pub stepped: bool,
    /// Whether this is a homing key.
    pub homing: bool,
    /// Whether this is a decal.
    pub decal: bool,
}

/// What a `Key` holds.
pub struct KeyView<T> {
    pub legends: Seq<Option<LegendView>>,
    pub color: Color,
    pub x: T,
    pub y: T,
    pub width: T,
    pub height: T,
    pub x2: T,
    pub y2: T,
    pub width2: T,
    pub height2: T,
    pub rotation: T,
    pub rx: T,
    pub ry: T,
    pub profile: Seq<char>,
    pub key_switch: SwitchView,
    pub ghosted: bool,
    pub stepped: bool,
    pub homing: bool,
    pub decal: bool,
}

impl<T> KeyView<T> {
    /// There are twelve slots, and every legend has a size in range.
    pub open spec fn wf(self) -> bool {
        legends_wf(self.legends)
    }
}

impl<T> View for Key<T> {
    type V = KeyView<T>;

    open spec fn view(&self) -> KeyView<T> {
        KeyView {
            legends: legend_views(self.legends@),
            color: self.color,
            x: self.x,
            y: self.y,
            width: self.width,
            height: self.height,
            x2: self.x2,
            y2: self.y2,
            width2: self.width2,
            height2: self.height2,
            rotation: self.rotation,
            rx: self.rx,
            ry: self.ry,
            profile: self.profile@,
            key_switch: self.key_switch@,
            ghosted: self.ghosted,
            stepped: self.stepped,
            homing: self.homing,
            decal: self.decal,
        }
    }
}

/// Twelve slots without a legend.
pub open spec fn no_legends() -> Seq<Option<LegendView>> {
    Seq::new(12, |slot: int| None)
}

/// The key of which nothing is said: one unit wide and high at the origin,
/// unrotated, without legends, in the default colour.
pub open spec fn default_key<T: Real>() -> KeyView<T> {
    KeyView {
        legends: no_legends(),
        color: key_color(),
        x: T::spec_from_integer(0),
        y: T::spec_from_integer(0),
        width: T::spec_from_integer(1),
        height: T::spec_from_integer(1),
        x2: T::spec_from_integer(0),
        y2: T::spec_from_integer(0),
        width2: T::spec_from_integer(1),
        height2: T::spec_from_integer(1),
        rotation: T::spec_from_integer(0),
        rx: T::spec_from_integer(0),
        ry: T::spec_from_integer(0),
        profile: Seq::<char>::empty(),
        key_switch: no_switch(),
        ghosted: false,
        stepped: false,
        homing: false,
        decal: false,
    }
}

/// Twelve empty slots.
pub fn empty_legends() -> (legends: Vec<Option<Legend>>)
    ensures
        legend_views(legends@) == no_legends(),
{
    let mut legends: Vec<Option<Legend>> = Vec::new();
    while legends.len() < 12
        invariant
            legends.len() <= 12,
            forall|slot: int| 0 <= slot < legends.len() ==> #[trigger] legends[slot] is None,
        decreases 12 - legends.len(),
    {
        legends.push(None);
    }
    assert(legend_views(legends@) == no_legends());
    legends
}

/// A copy of `legends`.
pub fn clone_legends(legends: &Vec<Option<Legend>>) -> (copy: Vec<Option<Legend>>)
    ensures
        legend_views(copy@) == legend_views(legends@),
{
    let mut copy: Vec<Option<Legend>> = Vec::new();
    let mut i: usize = 0;
    while i < legends.len()
        invariant
            i <= legends.len(),
            copy.len() == i,
            forall|j: int|
                0 <= j < i ==> #[trigger] legend_views(copy@)[j] == legend_views(legends@)[j],
        decreases legends.len() - i,
    {
        let ghost before = copy@;
        let legend = match &legends[i] {
            Some(legend) => Some(legend.clone()),
            None => None,
        };
        copy.push(legend);
        proof {
            assert forall|j: int| 0 <= j <= i implies #[trigger] legend_views(copy@)[j]
                == legend_views(legends@)[j] by {
                if j < i {
                    assert(copy@[j] == before[j]);
                    assert(legend_views(before)[j] == legend_views(legends@)[j]);
                }
            }
        }
        i += 1;
    }
    assert(legend_views(copy@) == legend_views(legends@));
    copy
}

impl<T: Real> Default for Key<T> {
    fn default() -> (key: Self)
        ensures
            key@ == default_key::<T>(),
            key@.wf(),
    {
        Key {
            legends: empty_legends(),
            color: default_key_color(),
            x: T::from_integer(0),
            y: T::from_integer(0),
            width: T::from_integer(1),
            height: T::from_integer(1),
            x2: T::from_integer(0),
            y2: T::from_integer(0),
            width2: T::from_integer(1),
            height2: T::from_integer(1),
            rotation: T::from_integer(0),
            rx: T::from_integer(0),
            ry: T::from_integer(0),
            profile: String::new(),
            key_switch: Switch::default(),
            ghosted: false,
            stepped: false,
            homing: false,
            decal: false,
        }
    }
}

impl<T: Copy> Clone for Key<T> {
    fn clone(&self) -> (key: Self)
        ensures
            key@ == self@,
    {
        Key {
            legends: clone_legends(&self.legends),
            color: self.color,
            x: self.x,
            y: self.y,
            width: self.width,
            height: self.height,
            x2: self.x2,
            y2: self.y2,
            width2: self.width2,
            height2: self.height2,
            rotation: self.rotation,
            rx: self.rx,
            ry: self.ry,
            profile: self.profile.clone(),
            key_switch: self.key_switch.clone(),
            ghosted: self.ghosted,
            stepped: self.stepped,
            homing: self.homing,
            decal: self.decal,
        }
    }
}

} // verus!
