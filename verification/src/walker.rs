//! What a layout's rows mean: the state at every token, and the keys made
//! up to it.
//!
//! A place in a layout is a row `r` and a count `c` of the row's tokens that
//! lie before it; `(r, 0)` is the start of row `r`.

use vstd::prelude::*;
use crate::json::Json;
use crate::key::KeyView;
use crate::scalar::Real;
use crate::state::{after_key, after_row, apply, initial, key_of, lemma_key_wf, StateView};

verus! {

/// The index of the first row among a layout's top-level elements: the
/// element before it, if there is one, is the metadata object.
pub open spec fn first_row<T>(items: Seq<Json<T>>) -> int {
    if items.len() > 0 && items[0] is Object {
        1
    } else {
        0
    }
}

/// The tokens of row `r`.
pub open spec fn tokens<T>(items: Seq<Json<T>>, r: int) -> Seq<Json<T>> {
    match items[r] {
        Json::Array(row) => row@,
        _ => Seq::empty(),
    }
}

/// The first element from `from` on that is no row, if there is one.
pub open spec fn first_bad<T>(items: Seq<Json<T>>, from: int) -> Option<int>
    decreases items.len() - from,
{
    if from < 0 || from >= items.len() {
        None
    } else if !(items[from] is Array) {
        Some(from)
    } else {
        first_bad(items, from + 1)
    }
}

/// The state after a token: a modifier is taken into the state, a label
/// makes a key, and anything else is passed over.
pub open spec fn step<T: Real>(state: StateView<T>, token: Json<T>) -> StateView<T> {
    match token {
        Json::Object(members) => apply(state, members@),
        Json::Text(_) => after_key(state),
        _ => state,
    }
}

/// Whether `(r, c)` is a place in the layout.
pub open spec fn is_place<T>(items: Seq<Json<T>>, r: int, c: int) -> bool {
    &&& first_row(items) <= r <= items.len()
    &&& 0 <= c
    &&& if r < items.len() {
        c <= tokens(items, r).len()
    } else {
        c == 0
    }
}

/// Whether the place `(r, c)` lies at or before `(r2, c2)`.
pub open spec fn at_or_before(r: int, c: int, r2: int, c2: int) -> bool {
    r < r2 || (r == r2 && c <= c2)
}

/// The state at the place `(r, c)`.
pub open spec fn state_at<T: Real>(items: Seq<Json<T>>, r: int, c: int) -> StateView<T>
    decreases r, c,
{
    if c > 0 {
        step(state_at(items, r, c - 1), tokens(items, r)[c - 1])
    } else if r > first_row(items) {
        after_row(state_at(items, r - 1, tokens(items, r - 1).len() as int))
    } else {
        initial()
    }
}

/// The keys made before the place `(r, c)`, in the order of their labels.
pub open spec fn keys_before<T: Real>(items: Seq<Json<T>>, r: int, c: int) -> Seq<KeyView<T>>
    decreases r, c,
{
    if c > 0 {
        let before = keys_before(items, r, c - 1);
        match tokens(items, r)[c - 1] {
            Json::Text(text) => before.push(key_of(state_at(items, r, c - 1), text@)),
            _ => before,
        }
    } else if r > first_row(items) {
        keys_before(items, r - 1, tokens(items, r - 1).len() as int)
    } else {
        Seq::empty()
    }
}

/// All keys of a layout.
pub open spec fn keys_of<T: Real>(items: Seq<Json<T>>) -> Seq<KeyView<T>> {
    keys_before(items, items.len() as int, 0)
}

/// Whether `longer` begins with `shorter`.
pub open spec fn begins_with<A>(longer: Seq<A>, shorter: Seq<A>) -> bool {
    shorter.len() <= longer.len() && longer.take(shorter.len() as int) == shorter
}

/// The state is well formed at every place.
pub proof fn lemma_state_wf<T: Real>(items: Seq<Json<T>>, r: int, c: int)
    ensures
        state_at(items, r, c).wf(),
    decreases r, c,
{
    if c > 0 {
        lemma_state_wf(items, r, c - 1);
    } else if r > first_row(items) {
        lemma_state_wf(items, r - 1, tokens(items, r - 1).len() as int);
    }
}

/// Every key made before a place is well formed.
pub proof fn lemma_keys_wf<T: Real>(items: Seq<Json<T>>, r: int, c: int)
    ensures
        forall|i: int| 0 <= i < keys_before(items, r, c).len() ==> (#[trigger] keys_before(
            items,
            r,
            c,
        )[i]).wf(),
    decreases r, c,
{
    let keys = keys_before(items, r, c);
    if c > 0 {
        let before = keys_before(items, r, c - 1);
        lemma_keys_wf(items, r, c - 1);
        lemma_state_wf(items, r, c - 1);
        match tokens(items, r)[c - 1] {
            Json::Text(text) => {
                lemma_key_wf(state_at(items, r, c - 1), text@);
            },
            _ => {},
        }
        assert forall|i: int| 0 <= i < keys.len() implies (#[trigger] keys[i]).wf() by {
            if i < before.len() {
                assert(keys[i] == before[i]);
            }
        }
    } else if r > first_row(items) {
        lemma_keys_wf(items, r - 1, tokens(items, r - 1).len() as int);
        assert(keys == keys_before(items, r - 1, tokens(items, r - 1).len() as int));
        assert forall|i: int| 0 <= i < keys.len() implies (#[trigger] keys[i]).wf() by {}
    } else {
        assert(keys.len() == 0);
    }
}

/// The keys made before a place are still there, in the same order, at
/// every later place.
pub proof fn lemma_keys_grow<T: Real>(items: Seq<Json<T>>, r: int, c: int, r2: int, c2: int)
    requires
        is_place(items, r, c),
        is_place(items, r2, c2),
        at_or_before(r, c, r2, c2),
    ensures
        begins_with(keys_before(items, r2, c2), keys_before(items, r, c)),
    decreases r2, c2,
{
    let early = keys_before(items, r, c);
    if r == r2 && c == c2 {
        assert(early.take(early.len() as int) == early);
    } else if c2 > 0 {
        lemma_keys_grow(items, r, c, r2, c2 - 1);
        let before = keys_before(items, r2, c2 - 1);
        assert(before.take(early.len() as int) == early);
        assert(keys_before(items, r2, c2).take(early.len() as int) == before.take(
            early.len() as int,
        ));
    } else {
        lemma_keys_grow(items, r, c, r2 - 1, tokens(items, r2 - 1).len() as int);
    }
}

} // verus!
