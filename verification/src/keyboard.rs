//! Decoding a layout: all at once into a `Keyboard`, or key by key through a
//! `KeyIterator`.

use vstd::prelude::*;
use crate::json::Json;
use crate::key::{Key, KeyView};
use crate::metadata::{metadata_in, no_metadata, Metadata, MetadataView};
use crate::scalar::Real;
use crate::state::KeyState;
use crate::walker::{
    begins_with, first_bad, first_row, is_place, keys_before, keys_of, lemma_keys_grow,
    lemma_state_wf, state_at, tokens,
};

verus! {

/// Why a tree is no layout.
#[derive(Debug, Clone, Copy, PartialEq, Eq)]
pub enum Error {
    /// The tree is not an array.
    NotAnArray,
    /// The element at `index` of the top-level array should be a row, and is
    /// not an array.
    RowNotAnArray { index: usize },
}

/// A keyboard layout.
#[derive(Debug, PartialEq)]
pub struct Keyboard<T> {
    /// The layout's metadata.
    pub metadata: Metadata,
    /// The layout's keys, in the order of their labels.
    pub keys: Vec<Key<T>>,
}

/// What a `Keyboard` holds.
pub struct KeyboardView<T> {
    pub metadata: MetadataView,
    pub keys: Seq<KeyView<T>>,
}

/// What each key of `keys` holds.
pub open spec fn key_views<T>(keys: Seq<Key<T>>) -> Seq<KeyView<T>> {
    Seq::new(keys.len(), |i: int| keys[i]@)
}

impl<T> View for Keyboard<T> {
    type V = KeyboardView<T>;

    open spec fn view(&self) -> KeyboardView<T> {
        KeyboardView { metadata: self.metadata@, keys: key_views(self.keys@) }
    }
}

impl<T> KeyboardView<T> {
    /// Every key is well formed.
    pub open spec fn wf(self) -> bool {
        forall|i: int| 0 <= i < self.keys.len() ==> (#[trigger] self.keys[i]).wf()
    }
}

/// Whether a tree has the shape of a layout, and if not, why: it must be an
/// array, and each of its elements an array too, but for a first element
/// that is an object. Of several elements that are none, the first is named.
pub open spec fn checked<T>(doc: Json<T>) -> Result<(), Error> {
    match doc {
        Json::Array(items) => match first_bad(items@, first_row(items@)) {
            Some(index) => Err(Error::RowNotAnArray { index: index as usize }),
            None => Ok(()),
        },
        _ => Err(Error::NotAnArray),
    }
}

/// The top-level elements of a tree that is an array.
pub open spec fn elements<T>(doc: Json<T>) -> Seq<Json<T>> {
    match doc {
        Json::Array(items) => items@,
        _ => Seq::empty(),
    }
}

/// The keyboard that a tree describes, or why it describes none.
pub open spec fn decoded<T: Real>(doc: Json<T>) -> Result<KeyboardView<T>, Error> {
    match checked(doc) {
        Ok(_) => Ok(
            KeyboardView { metadata: metadata_in(elements(doc)), keys: keys_of(elements(doc)) },
        ),
        Err(error) => Err(error),
    }
}

/// Finds the first row among a layout's top-level elements.
pub fn first_row_of<T>(items: &Vec<Json<T>>) -> (first: usize)
    ensures
        first == first_row(items@),
{
    if items.len() > 0 {
        match &items[0] {
            Json::Object(_) => 1,
            _ => 0,
        }
    } else {
        0
    }
}

/// Checks the shape of a tree and hands out its top-level elements.
pub fn check<T>(doc: &Json<T>) -> (r: Result<&Vec<Json<T>>, Error>)
    ensures
        match r {
            Ok(items) => checked(*doc) is Ok && *doc == Json::Array(*items),
            Err(error) => checked(*doc) == Err::<(), Error>(error),
        },
{
    match doc {
        Json::Array(items) => {
            let first = first_row_of(items);
            let mut i: usize = first;
            while i < items.len()
                invariant
                    *doc == Json::Array(*items),
                    first == first_row(items@),
                    first <= i,
                    first_bad(items@, first as int) == first_bad(items@, i as int),
                decreases items.len() - i,
            {
                match &items[i] {
                    Json::Array(_) => {},
                    _ => {
                        assert(first_bad(items@, i as int) == Some(i as int));
                        return Err(Error::RowNotAnArray { index: i });
                    },
                }
                i += 1;
            }
            Ok(items)
        },
        _ => Err(Error::NotAnArray),
    }
}

/// The keys of a layout, made one at a time and in order. It cannot go back:
/// to read a layout again, make a new iterator.
#[derive(Debug)]
pub struct KeyIterator<'a, T> {
    items: &'a Vec<Json<T>>,
    row: usize,
    col: usize,
    state: KeyState<T>,
}

impl<'a, T: Real> KeyIterator<'a, T> {
    /// The top-level elements of the layout that the keys are read from.
    pub closed spec fn source(&self) -> Seq<Json<T>> {
        self.items@
    }

    /// The iterator stands at a place in its layout, in the state of that
    /// place.
    pub closed spec fn wf(&self) -> bool {
        &&& is_place(self.items@, self.row as int, self.col as int)
        &&& self.state@ == state_at(self.items@, self.row as int, self.col as int)
    }

    /// The keys handed out so far.
    pub closed spec fn emitted(&self) -> Seq<KeyView<T>> {
        keys_before(self.items@, self.row as int, self.col as int)
    }

    /// The keys still to come.
    pub open spec fn remaining(&self) -> Seq<KeyView<T>> {
        keys_of(self.source()).skip(self.emitted().len() as int)
    }

    /// An iterator over the keys of a layout.
    pub fn deserialize(doc: &'a Json<T>) -> (r: Result<Self, Error>)
        ensures
            match r {
                Ok(keys) => {
                    &&& decoded(*doc) matches Ok(keyboard)
                    &&& keys.wf()
                    &&& keys.source() == elements(*doc)
                    &&& keys.emitted().len() == 0
                    &&& keys.remaining() == keyboard.keys
                },
                Err(error) => decoded(*doc) == Err::<KeyboardView<T>, Error>(error),
            },
    {
        match check(doc) {
            Ok(items) => {
                let first = first_row_of(items);
                let keys = KeyIterator { items, row: first, col: 0, state: KeyState::new() };
                assert(keys_of(items@).skip(0) == keys_of(items@));
                Ok(keys)
            },
            Err(error) => Err(error),
        }
    }

    /// The next key, or `None` when all were handed out.
    pub fn next(&mut self) -> (r: Option<Key<T>>)
        requires
            old(self).wf(),
        ensures
            final(self).wf(),
            final(self).source() == old(self).source(),
            match r {
                Some(key) => {
                    &&& old(self).remaining().len() > 0
                    &&& key@ == old(self).remaining()[0]
                    &&& key@.wf()
                    &&& final(self).emitted() == old(self).emitted().push(key@)
                    &&& final(self).remaining() == old(self).remaining().drop_first()
                },
                None => {
                    &&& old(self).remaining().len() == 0
                    &&& final(self).emitted() == old(self).emitted()
                    &&& final(self).remaining().len() == 0
                },
            },
    {
        let ghost items = self.items@;
        let ghost done = self.emitted();
        let ghost end = items.len() as int;
        loop
            invariant
                self.wf(),
                self.items@ == items,
                self.emitted() == done,
                done == old(self).emitted(),
                items == old(self).source(),
                end == items.len(),
            decreases
                items.len() - self.row,
                if self.row < items.len() {
                    tokens(items, self.row as int).len() - self.col
                } else {
                    0
                },
        {
            proof {
                lemma_state_wf(items, self.row as int, self.col as int);
            }
            if self.row >= self.items.len() {
                assert(keys_of(items).skip(done.len() as int).len() == 0);
                return None;
            }
            let ghost r = self.row as int;
            let ghost c = self.col as int;
            match &self.items[self.row] {
                Json::Array(row) => {
                    if self.col < row.len() {
                        match &row[self.col] {
                            Json::Object(members) => {
                                self.state.update(members);
                                self.col += 1;
                            },
                            Json::Text(text) => {
                                let key = self.state.build_key(text.as_str());
                                self.state.next_key();
                                self.col += 1;
                                proof {
                                    let all = keys_of(items);
                                    let now = keys_before(items, r, c + 1);
                                    assert(now == done.push(key@));
                                    lemma_keys_grow(items, r, c + 1, end, 0);
                                    assert(begins_with(all, now));
                                    assert(all.take(now.len() as int)[done.len() as int]
                                        == key@);
                                    assert(all.skip(done.len() as int).drop_first() == all.skip(
                                        now.len() as int,
                                    ));
                                }
                                return Some(key);
                            },
                            _ => {
                                self.col += 1;
                            },
                        }
                    } else {
                        self.state.next_row();
                        self.row += 1;
                        self.col = 0;
                    }
                },
                // An element that is no row counts as a row without tokens.
                _ => {
                    self.state.next_row();
                    self.row += 1;
                    self.col = 0;
                },
            }
        }
    }
}

impl<'a, T: Real> Clone for KeyIterator<'a, T> {
    /// A second iterator at the same place of the same layout.
    fn clone(&self) -> (keys: Self)
        ensures
            keys.wf() == self.wf(),
            keys.source() == self.source(),
            keys.emitted() == self.emitted(),
            keys.remaining() == self.remaining(),
    {
        KeyIterator { items: self.items, row: self.row, col: self.col, state: self.state.clone() }
    }
}

impl<T: Real> Keyboard<T> {
    /// Decodes a whole layout.
    pub fn deserialize(doc: &Json<T>) -> (r: Result<Self, Error>)
        ensures
            match r {
                Ok(keyboard) => decoded(*doc) == Ok::<KeyboardView<T>, Error>(keyboard@)
                    && keyboard@.wf(),
                Err(error) => decoded(*doc) == Err::<KeyboardView<T>, Error>(error),
            },
    {
        match KeyIterator::deserialize(doc) {
            Ok(mut iterator) => {
                let ghost all = iterator.remaining();
                let mut keys: Vec<Key<T>> = Vec::new();
                loop
                    invariant
                        iterator.wf(),
                        iterator.source() == elements(*doc),
                        key_views(keys@) + iterator.remaining() == all,
                        forall|i: int| 0 <= i < keys.len() ==> (#[trigger] keys[i])@.wf(),
                    ensures
                        key_views(keys@) == all,
                        forall|i: int| 0 <= i < keys.len() ==> (#[trigger] keys[i])@.wf(),
                    decreases iterator.remaining().len(),
                {
                    let ghost before = keys@;
                    let ghost rest = iterator.remaining();
                    match iterator.next() {
                        Some(key) => {
                            keys.push(key);
                            assert(key_views(keys@) == key_views(before).push(key@));
                            assert(key_views(before).push(rest[0]) + rest.drop_first()
                                == key_views(before) + rest);
                        },
                        None => {
                            assert(key_views(keys@) + rest == key_views(keys@));
                            break ;
                        },
                    }
                }
                let metadata = match doc {
                    Json::Array(items) => Metadata::from_items(items),
                    _ => Metadata::default(),
                };
                Ok(Keyboard { metadata, keys })
            },
            Err(error) => Err(error),
        }
    }
}

impl<T: Copy> Clone for Keyboard<T> {
    fn clone(&self) -> (keyboard: Self)
        ensures
            keyboard@ == self@,
    {
        let mut keys: Vec<Key<T>> = Vec::new();
        let mut i: usize = 0;
        while i < self.keys.len()
            invariant
                i <= self.keys.len(),
                key_views(keys@) == key_views(self.keys@).take(i as int),
            decreases self.keys.len() - i,
        {
            let ghost before = keys@;
            keys.push(self.keys[i].clone());
            assert(key_views(keys@) == key_views(before).push(self.keys[i as int]@));
            assert(key_views(self.keys@).take(i + 1) == key_views(self.keys@).take(
                i as int,
            ).push(self.keys[i as int]@));
            i += 1;
        }
        assert(key_views(self.keys@).take(i as int) == key_views(self.keys@));
        Keyboard { metadata: self.metadata.clone(), keys }
    }
}

impl<T> Default for Keyboard<T> {
    /// A keyboard without keys.
    fn default() -> (keyboard: Self)
        ensures
            keyboard@ == (KeyboardView::<T> { metadata: no_metadata(), keys: Seq::empty() }),
    {
        let keyboard = Keyboard { metadata: Metadata::default(), keys: Vec::new() };
        assert(key_views(keyboard.keys@) == Seq::<KeyView<T>>::empty());
        keyboard
    }
}

} // verus!
