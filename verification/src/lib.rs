//! Decoding of keyboard layouts kept in the array-of-arrays JSON form of
//! Keyboard Layout Editor into fully defaulted key records.
//!
//! A layout is a JSON array: an optional object of metadata, then rows. A row
//! is an array of tokens: an object changes the properties of the keys that
//! follow, a string is the label of one key. The library takes the parsed
//! tree as a [`Json`] and decodes it all at once with
//! [`Keyboard::deserialize`], or key by key with [`KeyIterator`].
//!
//! Coordinates are of any type that implements [`Real`]. What the decoding
//! means is written down in the modules `state` and `walker`, and every
//! function is proved to do what is written there; `laws` holds what follows
//! for all layouts.

pub mod color;
pub mod fields;
pub mod json;
pub mod key;
pub mod keyboard;
pub mod laws;
pub mod legend;
pub mod lines;
pub mod metadata;
pub mod scalar;
pub mod state;
pub mod walker;

pub use color::Color;
pub use json::{Json, Member};
pub use key::{Key, Switch};
pub use keyboard::{Error, KeyIterator, Keyboard};
pub use legend::Legend;
pub use metadata::{Background, Metadata};
pub use scalar::Real;
