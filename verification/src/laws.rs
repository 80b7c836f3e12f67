//! Laws of the protocol, proved once over the model transitions.
//!
//! Every executable call is verified to refine the `spec_` transitions of
//! [`crate::model`], so each law below holds of the calls themselves: what
//! is proved of `spec_set_i` followed by `spec_get_i` holds of any set
//! followed by a get through any wrapper.

use vstd::prelude::*;
use crate::model::{
    live, spec_add_generator, spec_create, spec_free, spec_get_d, spec_get_d3, spec_get_d6,
    spec_get_i, spec_get_o, spec_remove_generator, spec_set_d, spec_set_d3, spec_set_d6,
    spec_set_i, spec_set_o, state_get_dbl, state_get_d3, state_get_d6, state_get_int,
    state_set_dbl, state_set_d3, state_set_d6, state_set_int, Double3, Double6, EngineView,
    ObjectState, STATUS_INVALID_HANDLE, STATUS_NOT_INITIALIZED, STATUS_NOT_PRESENT, STATUS_OK,
};
use crate::props::PROP_LOOPING;

verus! {

proof fn lemma_state_int_round_trip(s: ObjectState, p: i32, val: i32)
    requires
        state_set_int(s, p, val) is Some,
    ensures
        state_get_int(state_set_int(s, p, val)->Some_0, p) == Some(val),
{
}

proof fn lemma_state_dbl_round_trip(s: ObjectState, p: i32, val: u64)
    requires
        state_set_dbl(s, p, val) is Some,
    ensures
        state_get_dbl(state_set_dbl(s, p, val)->Some_0, p) == Some(val),
{
}

proof fn lemma_state_d3_round_trip(s: ObjectState, p: i32, val: Double3)
    requires
        state_set_d3(s, p, val) is Some,
    ensures
        state_get_d3(state_set_d3(s, p, val)->Some_0, p) == Some(val),
{
}

proof fn lemma_state_d6_round_trip(s: ObjectState, p: i32, val: Double6)
    requires
        state_set_d6(s, p, val) is Some,
    ensures
        state_get_d6(state_set_d6(s, p, val)->Some_0, p) == Some(val),
{
}

/// Law: releasing a handle's last outstanding reference kills the object,
/// and the engine rejects any further release of the same handle — a second
/// free cannot reach a live reference, so each reference is released at
/// most once.
pub proof fn lemma_release_is_final(v: EngineView, h: u64)
    requires
        v.initialized,
        live(v, h),
        v.objects[h].refcount == 1,
    ensures
        ({
            let (st, v1) = spec_free(v, h);
            &&& st == STATUS_OK
            &&& !live(v1, h)
            &&& spec_free(v1, h) == (STATUS_INVALID_HANDLE, v1)
        }),
{
}

/// Law: a successful integer-scalar set followed by a get of the same
/// property on the same handle reads back exactly the value just set.
pub proof fn lemma_int_round_trip(v: EngineView, h: u64, p: i32, val: i32)
    requires
        spec_set_i(v, h, p, val).0 == STATUS_OK,
    ensures
        spec_get_i(spec_set_i(v, h, p, val).1, h, p) == (STATUS_OK, val),
{
    lemma_state_int_round_trip(v.objects[h].state, p, val);
}

/// Law: a successful double-scalar set followed by a get of the same
/// property on the same handle reads back exactly the bits just set — the
/// layer never reinterprets the value.
pub proof fn lemma_dbl_round_trip(v: EngineView, h: u64, p: i32, val: u64)
    requires
        spec_set_d(v, h, p, val).0 == STATUS_OK,
    ensures
        spec_get_d(spec_set_d(v, h, p, val).1, h, p) == (STATUS_OK, val),
{
    lemma_state_dbl_round_trip(v.objects[h].state, p, val);
}

/// Law: a successful 3-vector set followed by a get of the same property
/// reads back all three lanes bit for bit.
pub proof fn lemma_d3_round_trip(v: EngineView, h: u64, p: i32, val: Double3)
    requires
        spec_set_d3(v, h, p, val).0 == STATUS_OK,
    ensures
        spec_get_d3(spec_set_d3(v, h, p, val).1, h, p) == (STATUS_OK, val),
{
    lemma_state_d3_round_trip(v.objects[h].state, p, val);
}

/// Law: a successful 6-vector set followed by a get of the same property
/// reads back all six lanes bit for bit.
pub proof fn lemma_d6_round_trip(v: EngineView, h: u64, p: i32, val: Double6)
    requires
        spec_set_d6(v, h, p, val).0 == STATUS_OK,
    ensures
        spec_get_d6(spec_set_d6(v, h, p, val).1, h, p) == (STATUS_OK, val),
{
    lemma_state_d6_round_trip(v.objects[h].state, p, val);
}

/// Law: the looping flag's boolean encoding round-trips exactly — true is
/// stored as 1 and read back as true, false as 0 and read back as false.
pub proof fn lemma_looping_round_trip(v: EngineView, h: u64, flag: bool)
    requires
        spec_set_i(v, h, PROP_LOOPING, if flag { 1i32 } else { 0i32 }).0 == STATUS_OK,
    ensures
        ({
            let enc: i32 = if flag { 1 } else { 0 };
            let (st, x) = spec_get_i(spec_set_i(v, h, PROP_LOOPING, enc).1, h, PROP_LOOPING);
            st == STATUS_OK && (x == 1) == flag
        }),
{
    let enc: i32 = if flag { 1 } else { 0 };
    lemma_int_round_trip(v, h, PROP_LOOPING, enc);
}

/// Law: a successful object-reference set followed by a get yields a handle
/// to the same underlying object: the slot holds one reference and the
/// retrieved wrapper one more, and the two wrapper-owned references can be
/// released one after the other, each release succeeding exactly once, with
/// the slot's reference still keeping the object live afterwards.
///
/// The law is stated for a slot that is empty beforehand, as on a freshly
/// created generator; setting an occupied slot also releases the slot's
/// previous reference, so the counts balance differently there.
pub proof fn lemma_object_round_trip(v: EngineView, h: u64, p: i32, b: u64)
    requires
        spec_set_o(v, h, p, b).0 == STATUS_OK,
        v.objects[b].refcount < u64::MAX - 1,
        crate::model::state_get_obj(v.objects[h].state, p) == Some(None::<u64>),
    ensures
        ({
            let v1 = spec_set_o(v, h, p, b).1;
            let (st2, b2, v2) = spec_get_o(v1, h, p);
            let (st3, v3) = spec_free(v2, b);
            let (st4, v4) = spec_free(v3, b);
            &&& st2 == STATUS_OK && b2 == b
            &&& v2.objects[b].refcount == v.objects[b].refcount + 2
            &&& st3 == STATUS_OK && st4 == STATUS_OK
            &&& v4.objects[b].refcount == v.objects[b].refcount
        }),
{
    let v1 = spec_set_o(v, h, p, b).1;
    assert(h != b);
    assert(crate::model::state_get_obj(v1.objects[h].state, p) == Some(Some(b)));
}

/// Law: no entity can be created before the engine is initialized —
/// creation on an uninitialized engine fails with the "not initialized"
/// code and changes nothing.
pub proof fn lemma_create_requires_initialized(
    v: EngineView,
    parent: Option<u64>,
    state: ObjectState,
)
    requires
        !v.initialized,
    ensures
        spec_create(v, parent, state) == (STATUS_NOT_INITIALIZED, 0u64, v),
{
}

/// Law: after a successful attach, a detach of the same pair succeeds; and
/// after a successful detach, a second detach of the same pair answers
/// "not present" and changes nothing, rather than succeeding silently.
pub proof fn lemma_attach_detach(v: EngineView, src: u64, gen: u64)
    requires
        spec_add_generator(v, src, gen).0 == STATUS_OK,
    ensures
        ({
            let v1 = spec_add_generator(v, src, gen).1;
            let (st2, v2) = spec_remove_generator(v1, src, gen);
            &&& st2 == STATUS_OK
            &&& !v2.links.contains((src, gen))
            &&& spec_remove_generator(v2, src, gen) == (STATUS_NOT_PRESENT, v2)
        }),
{
}

} // verus!
