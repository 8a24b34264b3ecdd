//! What a layout says of itself as a whole.

use vstd::prelude::*;
use crate::color::{background_color, default_background_color, Color};
use crate::json::{
    color_field, flag_field, get_color, get_flag, get_text, lookup, text_field, find, Json, Member,
};
use crate::key::{Switch, SwitchView, no_switch};

verus! {

/// The background of a layout.
#[derive(Debug, PartialEq)]
pub struct Background {
    /// The name of the background.
    pub name: String,
    /// The CSS style of the background.
    pub style: String,
}

/// What a `Background` holds.
pub struct BackgroundView {
    pub name: Seq<char>,
    pub style: Seq<char>,
}

impl View for Background {
    type V = BackgroundView;

    open spec fn view(&self) -> BackgroundView {
        BackgroundView { name: self.name@, style: self.style@ }
    }
}

/// The background of which nothing is said.
pub open spec fn no_background() -> BackgroundView {
    BackgroundView { name: Seq::<char>::empty(), style: Seq::<char>::empty() }
}

impl Default for Background {
    fn default() -> (background: Self)
        ensures
            background@ == no_background(),
    {
        Background { name: String::new(), style: String::new() }
    }
}

impl Clone for Background {
    fn clone(&self) -> (background: Self)
        ensures
            background@ == self@,
    {
        Background { name: self.name.clone(), style: self.style.clone() }
    }
}

/// The metadata of a layout.
#[derive(Debug, PartialEq)]
pub struct Metadata {
    /// Background colour of the layout.
    pub background_color: Color,
    /// Background style of the layout.
    pub background: Background,
    /// Corner radii of the background, in the notation of CSS.
    pub radii: String,
    /// The name of the layout.
    pub name: String,
    /// The author of the layout.
    pub author: String,
    /// The switch that keys have where they name none.
    pub key_switch: Switch,
    /// Whether the switches are plate mounted.
    pub plate_mount: bool,
    /// Whether the switches are PCB mounted.
    pub pcb_mount: bool,
    /// Notes on the layout.
    pub notes: String,
}

/// What a `Metadata` holds.
pub struct MetadataView {
    pub background_color: Color,
    pub background: BackgroundView,
    pub radii: Seq<char>,
    pub name: Seq<char>,
    pub author: Seq<char>,
    pub key_switch: SwitchView,
    pub plate_mount: bool,
    pub pcb_mount: bool,
    pub notes: Seq<char>,
}

impl View for Metadata {
    type V = MetadataView;

    open spec fn view(&self) -> MetadataView {
        MetadataView {
            background_color: self.background_color,
            background: self.background@,
            radii: self.radii@,
            name: self.name@,
            author: self.author@,
            key_switch: self.key_switch@,
            plate_mount: self.plate_mount,
            pcb_mount: self.pcb_mount,
            notes: self.notes@,
        }
    }
}

/// The metadata of a layout that gives none.
pub open spec fn no_metadata() -> MetadataView {
    MetadataView {
        background_color: background_color(),
        background: no_background(),
        radii: Seq::<char>::empty(),
        name: Seq::<char>::empty(),
        author: Seq::<char>::empty(),
        key_switch: no_switch(),
        plate_mount: false,
        pcb_mount: false,
        notes: Seq::<char>::empty(),
    }
}

/// The text under `code`, empty where the object holds no string there.
pub open spec fn text_or_empty<T>(members: Seq<Member<T>>, code: Seq<char>) -> Seq<char> {
    match text_field(members, code) {
        Some(s) => s,
        None => Seq::<char>::empty(),
    }
}

/// The truth value under `code`, false where the object holds none there.
pub open spec fn flag_or_false<T>(members: Seq<Member<T>>, code: Seq<char>) -> bool {
    match flag_field(members, code) {
        Some(b) => b,
        None => false,
    }
}

/// The background that a metadata object describes under `background`.
pub open spec fn background_of<T>(members: Seq<Member<T>>) -> BackgroundView {
    match lookup(members, "background"@) {
        Some(Json::Object(inner)) => BackgroundView {
            name: text_or_empty(inner@, "name"@),
            style: text_or_empty(inner@, "style"@),
        },
        _ => no_background(),
    }
}

/// The metadata that an object describes. Each field has its default where
/// the object gives no value of the right type for it; members that the
/// format does not know are passed over.
pub open spec fn metadata_of<T>(members: Seq<Member<T>>) -> MetadataView {
    MetadataView {
        background_color: match color_field(members, "backcolor"@) {
            Some(color) => color,
            None => background_color(),
        },
        background: background_of(members),
        radii: text_or_empty(members, "radii"@),
        name: text_or_empty(members, "name"@),
        author: text_or_empty(members, "author"@),
        key_switch: SwitchView {
            mount: text_or_empty(members, "switchMount"@),
            brand: text_or_empty(members, "switchBrand"@),
            typ: text_or_empty(members, "switchType"@),
        },
        plate_mount: flag_or_false(members, "plate"@),
        pcb_mount: flag_or_false(members, "pcb"@),
        notes: text_or_empty(members, "notes"@),
    }
}

/// The metadata of a layout whose top-level elements are `items`: what the
/// first one describes where it is an object, and all defaults otherwise.
pub open spec fn metadata_in<T>(items: Seq<Json<T>>) -> MetadataView {
    if items.len() > 0 {
        match items[0] {
            Json::Object(members) => metadata_of(members@),
            _ => no_metadata(),
        }
    } else {
        no_metadata()
    }
}

impl Default for Metadata {
    fn default() -> (metadata: Self)
        ensures
            metadata@ == no_metadata(),
    {
        Metadata {
            background_color: default_background_color(),
            background: Background::default(),
            radii: String::new(),
            name: String::new(),
            author: String::new(),
            key_switch: Switch::default(),
            plate_mount: false,
            pcb_mount: false,
            notes: String::new(),
        }
    }
}

impl Clone for Metadata {
    fn clone(&self) -> (metadata: Self)
        ensures
            metadata@ == self@,
    {
        Metadata {
            background_color: self.background_color,
            background: self.background.clone(),
            radii: self.radii.clone(),
            name: self.name.clone(),
            author: self.author.clone(),
            key_switch: self.key_switch.clone(),
            plate_mount: self.plate_mount,
            pcb_mount: self.pcb_mount,
            notes: self.notes.clone(),
        }
    }
}

/// Reads the text under `code`, or the empty text.
pub fn read_text<T>(members: &Vec<Member<T>>, code: &str) -> (text: String)
    ensures
        text@ == text_or_empty(members@, code@),
{
    match get_text(members, code) {
        Some(s) => s.clone(),
        None => String::new(),
    }
}

/// Reads the truth value under `code`, or false.
pub fn read_flag<T>(members: &Vec<Member<T>>, code: &str) -> (flag: bool)
    ensures
        flag == flag_or_false(members@, code@),
{
    match get_flag(members, code) {
        Some(b) => b,
        None => false,
    }
}

fn read_background<T>(members: &Vec<Member<T>>) -> (background: Background)
    ensures
        background@ == background_of(members@),
{
    match find(members, "background") {
        Some(Json::Object(inner)) => Background {
            name: read_text(inner, "name"),
            style: read_text(inner, "style"),
        },
        _ => Background::default(),
    }
}

impl Metadata {
    /// Decodes a metadata object.
    pub fn from_members<T>(members: &Vec<Member<T>>) -> (metadata: Self)
        ensures
            metadata@ == metadata_of(members@),
    {
        Metadata {
            background_color: match get_color(members, "backcolor") {
                Some(color) => color,
                None => default_background_color(),
            },
            background: read_background(members),
            radii: read_text(members, "radii"),
            name: read_text(members, "name"),
            author: read_text(members, "author"),
            key_switch: Switch {
                mount: read_text(members, "switchMount"),
                brand: read_text(members, "switchBrand"),
                typ: read_text(members, "switchType"),
            },
            plate_mount: read_flag(members, "plate"),
            pcb_mount: read_flag(members, "pcb"),
            notes: read_text(members, "notes"),
        }
    }

    /// Decodes the metadata of a layout from its top-level elements.
    pub fn from_items<T>(items: &Vec<Json<T>>) -> (metadata: Self)
        ensures
            metadata@ == metadata_in(items@),
    {
        if items.len() > 0 {
            match &items[0] {
                Json::Object(members) => Metadata::from_members(members),
                _ => Metadata::default(),
            }
        } else {
            Metadata::default()
        }
    }
}

} // verus!
