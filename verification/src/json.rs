//! A structured JSON-shaped value model.
//!
//! The wire protocol exchanges JSON text; the library works on this
//! structured form and leaves the text layer to the caller. Numbers are
//! integers: the protocol fields the library reads (ids, flags, button
//! parameters) are integral. Objects keep their fields in order; equality is
//! structural, so callers should hand objects over in a canonical key order
//! (the value comparisons the library performs are exact, field for field).

use vstd::prelude::*;

verus! {

broadcast use vstd::std_specs::vec::group_vec_axioms;

/// A JSON-shaped value: the payload form of every protocol message.
#[derive(Debug)]
pub enum Json {
    Null,
    Bool(bool),
    Int(i64),
    Str(String),
    Arr(Vec<Json>),
    Obj(Vec<(String, Json)>),
}

/// Structural equality of two values: same variant, same contents,
/// arrays and objects compared element by element in order.
pub open spec fn json_equal(a: Json, b: Json) -> bool
    decreases a,
{
    match (a, b) {
        (Json::Null, Json::Null) => true,
        (Json::Bool(x), Json::Bool(y)) => x == y,
        (Json::Int(x), Json::Int(y)) => x == y,
        (Json::Str(x), Json::Str(y)) => x@ == y@,
        (Json::Arr(x), Json::Arr(y)) => {
            &&& x@.len() == y@.len()
            &&& forall|i: int| 0 <= i < x@.len() ==> json_equal(#[trigger] x@[i], y@[i])
        },
        (Json::Obj(x), Json::Obj(y)) => {
            &&& x@.len() == y@.len()
            &&& forall|i: int|
                0 <= i < x@.len() ==> (#[trigger] x@[i]).0@ == y@[i].0@ && json_equal(
                    x@[i].1,
                    y@[i].1,
                )
        },
        _ => false,
    }
}

/// Decides structural equality of two values.
#[verifier::loop_isolation(false)]
pub fn json_eq(a: &Json, b: &Json) -> (r: bool)
    ensures
        r == json_equal(*a, *b),
    decreases *a,
{
    match a {
        Json::Null => match b {
            Json::Null => true,
            _ => false,
        },
        Json::Bool(x) => match b {
            Json::Bool(y) => x == y,
            _ => false,
        },
        Json::Int(x) => match b {
            Json::Int(y) => x == y,
            _ => false,
        },
        Json::Str(x) => match b {
            Json::Str(y) => *x == *y,
            _ => false,
        },
        Json::Arr(x) => match b {
            Json::Arr(y) => {
                if x.len() != y.len() {
                    return false;
                }
                let mut i: usize = 0;
                while i < x.len()
                    invariant
                        i <= x@.len(),
                        x@.len() == y@.len(),
                        forall|j: int| 0 <= j < i ==> json_equal(#[trigger] x@[j], y@[j]),
                    decreases x@.len() - i,
                {
                    if !json_eq(&x[i], &y[i]) {
                        return false;
                    }
                    i = i + 1;
                }
                true
            },
            _ => false,
        },
        Json::Obj(x) => match b {
            Json::Obj(y) => {
                if x.len() != y.len() {
                    return false;
                }
                let mut i: usize = 0;
                while i < x.len()
                    invariant
                        i <= x@.len(),
                        x@.len() == y@.len(),
                        forall|j: int|
                            0 <= j < i ==> (#[trigger] x@[j]).0@ == y@[j].0@ && json_equal(
                                x@[j].1,
                                y@[j].1,
                            ),
                    decreases x@.len() - i,
                {
                    if !(x[i].0 == y[i].0) {
                        return false;
                    }
                    if !json_eq(&x[i].1, &y[i].1) {
                        return false;
                    }
                    i = i + 1;
                }
                true
            },
            _ => false,
        },
    }
}

/// A deep copy, equal to the original field for field.
#[verifier::loop_isolation(false)]
pub fn json_clone(j: &Json) -> (r: Json)
    ensures
        json_equal(r, *j),
    decreases *j,
{
    match j {
        Json::Null => Json::Null,
        Json::Bool(x) => Json::Bool(*x),
        Json::Int(x) => Json::Int(*x),
        Json::Str(x) => Json::Str(x.clone()),
        Json::Arr(x) => {
            let mut out: Vec<Json> = Vec::new();
            let mut i: usize = 0;
            while i < x.len()
                invariant
                    i <= x@.len(),
                    out@.len() == i,
                    forall|k: int| 0 <= k < i ==> json_equal(#[trigger] out@[k], x@[k]),
                decreases x@.len() - i,
            {
                out.push(json_clone(&x[i]));
                i = i + 1;
            }
            Json::Arr(out)
        },
        Json::Obj(x) => {
            let mut out: Vec<(String, Json)> = Vec::new();
            let mut i: usize = 0;
            while i < x.len()
                invariant
                    i <= x@.len(),
                    out@.len() == i,
                    forall|k: int|
                        0 <= k < i ==> (#[trigger] out@[k]).0@ == x@[k].0@ && json_equal(
                            out@[k].1,
                            x@[k].1,
                        ),
                decreases x@.len() - i,
            {
                out.push((x[i].0.clone(), json_clone(&x[i].1)));
                i = i + 1;
            }
            Json::Obj(out)
        },
    }
}

/// Structural equality holds of every value and itself.
pub proof fn lemma_json_equal_refl(a: Json)
    ensures
        json_equal(a, a),
    decreases a,
{
    match a {
        Json::Arr(x) => {
            assert forall|i: int| 0 <= i < x@.len() implies json_equal(#[trigger] x@[i], x@[i]) by {
                lemma_json_equal_refl(x@[i]);
            }
        },
        Json::Obj(x) => {
            assert forall|i: int|
                0 <= i < x@.len() implies (#[trigger] x@[i]).0@ == x@[i].0@ && json_equal(
                x@[i].1,
                x@[i].1,
            ) by {
                lemma_json_equal_refl(x@[i].1);
            }
        },
        _ => {},
    }
}

/// Structural equality is symmetric.
pub proof fn lemma_json_equal_sym(a: Json, b: Json)
    ensures
        json_equal(a, b) == json_equal(b, a),
    decreases a,
{
    match (a, b) {
        (Json::Arr(x), Json::Arr(y)) => {
            assert forall|i: int| 0 <= i < x@.len() implies json_equal(#[trigger] x@[i], y@[i])
                == json_equal(y@[i], x@[i]) by {
                lemma_json_equal_sym(x@[i], y@[i]);
            }
        },
        (Json::Obj(x), Json::Obj(y)) => {
            assert forall|i: int| 0 <= i < x@.len() implies json_equal((#[trigger] x@[i]).1, y@[i].1)
                == json_equal(y@[i].1, x@[i].1) by {
                lemma_json_equal_sym(x@[i].1, y@[i].1);
            }
        },
        _ => {},
    }
}

/// Structural equality is transitive.
pub proof fn lemma_json_equal_trans(a: Json, b: Json, c: Json)
    requires
        json_equal(a, b),
        json_equal(b, c),
    ensures
        json_equal(a, c),
    decreases a,
{
    match (a, b, c) {
        (Json::Arr(x), Json::Arr(y), Json::Arr(z)) => {
            assert forall|i: int| 0 <= i < x@.len() implies json_equal(
                #[trigger] x@[i],
                z@[i],
            ) by {
                assert(json_equal(x@[i], y@[i]));
                assert(json_equal(y@[i], z@[i]));
                lemma_json_equal_trans(x@[i], y@[i], z@[i]);
            }
        },
        (Json::Obj(x), Json::Obj(y), Json::Obj(z)) => {
            assert forall|i: int|
                0 <= i < x@.len() implies (#[trigger] x@[i]).0@ == z@[i].0@ && json_equal(
                x@[i].1,
                z@[i].1,
            ) by {
                assert(x@[i].0@ == y@[i].0@ && json_equal(x@[i].1, y@[i].1));
                assert(y@[i].0@ == z@[i].0@ && json_equal(y@[i].1, z@[i].1));
                lemma_json_equal_trans(x@[i].1, y@[i].1, z@[i].1);
            }
        },
        _ => {},
    }
}

/// The default parameter payload of a catalog button: an object with no
/// fields.
pub fn empty_object() -> (r: Json)
    ensures
        (r matches Json::Obj(fields) && fields@ == Seq::<(String, Json)>::empty()),
{
    Json::Obj(Vec::new())
}

} // verus!
