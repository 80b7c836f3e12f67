//! The engine behind the call boundary, verified to refine [`crate::model`].
//!
//! This is the mock native layer the rest of the crate is specified against:
//! it keeps every object ever bound (handles are never rebound), the
//! reference count and property store of each, and the set of
//! (source, generator) attachments. Each `raw_` method answers a status code
//! exactly as the corresponding `spec_` transition of the model says, so
//! every property of the wrapper layer proved over the model holds of calls
//! made against this engine.
//!
//! Handle `h` lives at `objects[h - 1]`; a dead object (reference count
//! zero) keeps its slot, which is what makes double frees detectable.

use vstd::prelude::*;
use vstd::pervasive::VecAdditionalExecFns;
use crate::model::{
    access_status, buffer_query_status, initial_view, live, spec_add_generator,
    spec_create, spec_free, spec_get_d, spec_get_d3, spec_get_d6, spec_get_i, spec_get_o,
    spec_inc_ref, spec_initialize, spec_remove_generator, spec_set_d, spec_set_d3, spec_set_d6,
    spec_set_i, spec_set_o, spec_shutdown, state_get_dbl, state_get_d3, state_get_d6,
    state_get_int, state_get_obj, state_set_dbl, state_set_d3, state_set_d6, state_set_int,
    state_set_obj, view_wf, with_object, Double3, Double6, EngineView,
    Object, ObjectState, BUFFER_CHANNELS, BUFFER_LENGTH_IN_SAMPLES, BUFFER_LENGTH_IN_SECONDS_BITS,
    HANDLE_MAX, STATUS_ALREADY_INITIALIZED, STATUS_INVALID_HANDLE, STATUS_INVALID_PROPERTY,
    STATUS_NOT_INITIALIZED, STATUS_NOT_PRESENT, STATUS_NO_SPACE, STATUS_OK, STATUS_REF_OVERFLOW,
    STATUS_WRONG_TYPE,
};
use crate::props::{LogLevel, LoggingBackend};

verus! {

/// A null-terminated byte buffer with no interior null: the only string
/// shape that may cross the call boundary.
pub open spec fn is_c_string(s: Seq<u8>) -> bool {
    &&& s.len() > 0
    &&& s[s.len() - 1] == 0
    &&& forall|i: int| 0 <= i < s.len() - 1 ==> s[i] != 0
}

/// The object table as a map from handle to object: handle `h` is bound
/// exactly when `1 <= h <= len`, to the object at index `h - 1`.
pub open spec fn objects_map(s: Seq<Object>) -> Map<u64, Object> {
    Map::new(|h: u64| 1 <= h && h <= s.len(), |h: u64| s[h as int - 1])
}

/// The attachment list as a set of (source, generator) pairs.
pub open spec fn links_set(s: Seq<(u64, u64)>) -> Set<(u64, u64)> {
    Set::new(|pr: (u64, u64)| s.contains(pr))
}

proof fn lemma_objects_map_update(s: Seq<Object>, h: u64, o: Object)
    requires
        1 <= h <= s.len(),
    ensures
        objects_map(s.update(h as int - 1, o)) =~= objects_map(s).insert(h, o),
{
}

proof fn lemma_objects_map_push(s: Seq<Object>, o: Object)
    requires
        s.len() < HANDLE_MAX,
    ensures
        objects_map(s.push(o)) =~= objects_map(s).insert((s.len() + 1) as u64, o),
{
}

proof fn lemma_links_push(s: Seq<(u64, u64)>, pr: (u64, u64))
    ensures
        links_set(s.push(pr)) =~= links_set(s).insert(pr),
{
    assert forall|q: (u64, u64)| #[trigger] s.push(pr).contains(q) implies s.contains(q) || q == pr by {
        let i = choose|i: int| 0 <= i < s.push(pr).len() && s.push(pr)[i] == q;
        if i < s.len() {
            assert(s[i] == q);
        }
    }
    assert forall|q: (u64, u64)| #[trigger] s.contains(q) implies s.push(pr).contains(q) by {
        let i = choose|i: int| 0 <= i < s.len() && s[i] == q;
        assert(s.push(pr)[i] == q);
    }
    assert(s.push(pr)[s.len() as int] == pr);
}

proof fn lemma_links_remove(s: Seq<(u64, u64)>, i: int)
    requires
        0 <= i < s.len(),
        s.no_duplicates(),
    ensures
        links_set(s.remove(i)) =~= links_set(s).remove(s[i]),
{
    let t = s.remove(i);
    assert forall|q: (u64, u64)| #[trigger] t.contains(q) implies s.contains(q) && q != s[i] by {
        let j = choose|j: int| 0 <= j < t.len() && t[j] == q;
        if j < i {
            assert(s[j] == q);
            assert(j != i);
        } else {
            assert(s[j + 1] == q);
            assert(j + 1 != i);
        }
    }
    assert forall|q: (u64, u64)| s.contains(q) && q != s[i] implies #[trigger] t.contains(q) by {
        let j = choose|j: int| 0 <= j < s.len() && s[j] == q;
        if j < i {
            assert(t[j] == q);
        } else {
            assert(j != i);
            assert(t[j - 1] == q);
        }
    }
}

/// The engine: initialization flag, logging configuration, the object
/// table, and the (source, generator) attachments.
pub struct Engine {
    initialized: bool,
    log_backend: Option<LoggingBackend>,
    log_level: Option<LogLevel>,
    objects: Vec<Object>,
    links: Vec<(u64, u64)>,
}

impl View for Engine {
    type V = EngineView;

    closed spec fn view(&self) -> EngineView {
        EngineView {
            initialized: self.initialized,
            log_backend: self.log_backend,
            log_level: self.log_level,
            next: (self.objects@.len() + 1) as u64,
            objects: objects_map(self.objects@),
            links: links_set(self.links@),
        }
    }
}

impl Engine {
    #[verifier::type_invariant]
    spec fn inv(&self) -> bool {
        &&& self.objects@.len() <= HANDLE_MAX
        &&& self.links@.no_duplicates()
    }

    /// The engine state of a freshly loaded process: uninitialized, with no
    /// object bound.
    pub fn new() -> (e: Engine)
        ensures
            e@ == initial_view(),
    {
        let e = Engine {
            initialized: false,
            log_backend: None,
            log_level: None,
            objects: Vec::new(),
            links: Vec::new(),
        };
        proof {
            assert(e@ =~= initial_view());
        }
        e
    }

    /// Replaces the object bound to `h`, leaving everything else unchanged.
    fn replace_object(&mut self, h: u64, o: Object)
        requires
            1 <= h <= old(self).objects@.len(),
        ensures
            final(self)@ == with_object(old(self)@, h, o),
    {
        proof {
            use_type_invariant(&*self);
        }
        let mut objs: Vec<Object> = Vec::new();
        std::mem::swap(&mut objs, &mut self.objects);
        let idx: usize = (h - 1) as usize;
        objs.set(idx, o);
        std::mem::swap(&mut objs, &mut self.objects);
        proof {
            lemma_objects_map_update(old(self).objects@, h, o);
            assert(self@ =~= with_object(old(self)@, h, o));
        }
    }

    /// Binds the next handle to a fresh object.
    fn push_object(&mut self, o: Object) -> (h: u64)
        requires
            old(self).objects@.len() < HANDLE_MAX,
        ensures
            h == old(self)@.next,
            final(self)@ == (EngineView {
                next: (old(self)@.next + 1) as u64,
                objects: old(self)@.objects.insert(h, o),
                ..old(self)@
            }),
    {
        proof {
            use_type_invariant(&*self);
        }
        let mut objs: Vec<Object> = Vec::new();
        std::mem::swap(&mut objs, &mut self.objects);
        let h: u64 = (objs.len() + 1) as u64;
        objs.push(o);
        std::mem::swap(&mut objs, &mut self.objects);
        proof {
            lemma_objects_map_push(old(self).objects@, o);
            assert(self@ =~= (EngineView {
                next: (old(self)@.next + 1) as u64,
                objects: old(self)@.objects.insert(h, o),
                ..old(self)@
            }));
        }
        h
    }

    /// The object bound to `h`, if any (dead objects included).
    fn get_object(&self, h: u64) -> (r: Option<Object>)
        ensures
            r == (if self@.objects.contains_key(h) {
                Some(self@.objects[h])
            } else {
                None::<Object>
            }),
    {
        if h == 0 || h > self.objects.len() as u64 {
            None
        } else {
            let idx: usize = (h - 1) as usize;
            Some(self.objects[idx])
        }
    }

    /// The live object bound to `h`, if any, paired with the status a
    /// property access on `h` would answer.
    fn access(&self, h: u64) -> (r: (i32, Object))
        ensures
            r.0 == access_status(self@, h),
            r.0 == STATUS_OK ==> self@.objects.contains_key(h) && r.1 == self@.objects[h],
    {
        let dead = Object { refcount: 0, state: ObjectState::Context };
        if !self.initialized {
            return (STATUS_NOT_INITIALIZED, dead);
        }
        match self.get_object(h) {
            None => (STATUS_INVALID_HANDLE, dead),
            Some(o) => {
                if o.refcount == 0 {
                    (STATUS_INVALID_HANDLE, dead)
                } else {
                    (STATUS_OK, o)
                }
            },
        }
    }

    // -----------------------------------------------------------------------
    // Lifecycle
    // -----------------------------------------------------------------------

    /// `initialize`: brings the engine up.
    pub fn raw_initialize(&mut self) -> (s: i32)
        ensures
            ({
                let (st, v2) = spec_initialize(old(self)@);
                s == st && final(self)@ == v2
            }),
            view_wf(old(self)@) && view_wf(final(self)@),
    {
        proof {
            use_type_invariant(&*self);
        }
        if self.initialized {
            STATUS_ALREADY_INITIALIZED
        } else {
            self.initialized = true;
            proof {
                assert(self@ =~= spec_initialize(old(self)@).1);
            }
            STATUS_OK
        }
    }

    /// `shutdown`: brings the engine down. The engine does not check for
    /// live handles; that ordering obligation sits on the lifecycle guard.
    pub fn raw_shutdown(&mut self) -> (s: i32)
        ensures
            ({
                let (st, v2) = spec_shutdown(old(self)@);
                s == st && final(self)@ == v2
            }),
            view_wf(old(self)@) && view_wf(final(self)@),
    {
        proof {
            use_type_invariant(&*self);
        }
        if !self.initialized {
            STATUS_NOT_INITIALIZED
        } else {
            self.initialized = false;
            proof {
                assert(self@ =~= spec_shutdown(old(self)@).1);
            }
            STATUS_OK
        }
    }

    /// `configure_logging_backend`: records where log output goes. The
    /// engine accepts this before initialization.
    pub fn raw_configure_logging_backend(&mut self, backend: LoggingBackend) -> (s: i32)
        ensures
            s == STATUS_OK,
            final(self)@ == (EngineView { log_backend: Some(backend), ..old(self)@ }),
    {
        proof {
            use_type_invariant(&*self);
        }
        self.log_backend = Some(backend);
        proof {
            assert(self@ =~= (EngineView { log_backend: Some(backend), ..old(self)@ }));
        }
        STATUS_OK
    }

    /// `set_log_level`: records the severity threshold. The engine accepts
    /// this before initialization and reports no status.
    pub fn raw_set_log_level(&mut self, level: LogLevel)
        ensures
            final(self)@ == (EngineView { log_level: Some(level), ..old(self)@ }),
    {
        proof {
            use_type_invariant(&*self);
        }
        self.log_level = Some(level);
        proof {
            assert(self@ =~= (EngineView { log_level: Some(level), ..old(self)@ }));
        }
    }

    // -----------------------------------------------------------------------
    // Object creation and reference counting
    // -----------------------------------------------------------------------

    /// Creates one object: checks the lifecycle, the optional parent
    /// context, and the handle space, then binds the next handle.
    fn create_object(&mut self, parent: Option<u64>, state: ObjectState) -> (r: (i32, u64))
        ensures
            ({
                let (st, h, v2) = spec_create(old(self)@, parent, state);
                r.0 == st && r.1 == h && final(self)@ == v2
            }),
            view_wf(old(self)@) && (r.0 == STATUS_OK ==> view_wf(final(self)@)
                && !old(self)@.objects.contains_key(r.1)),
    {
        proof {
            use_type_invariant(&*self);
        }
        if !self.initialized {
            return (STATUS_NOT_INITIALIZED, 0);
        }
        match parent {
            Some(c) => {
                match self.get_object(c) {
                    None => {
                        return (STATUS_INVALID_HANDLE, 0);
                    },
                    Some(o) => {
                        if o.refcount == 0 {
                            return (STATUS_INVALID_HANDLE, 0);
                        }
                        if !matches!(o.state, ObjectState::Context) {
                            return (STATUS_WRONG_TYPE, 0);
                        }
                    },
                }
            },
            None => {},
        }
        if self.objects.len() as u64 >= HANDLE_MAX {
            return (STATUS_NO_SPACE, 0);
        }
        let h = self.push_object(Object { refcount: 1, state });
        (STATUS_OK, h)
    }

    /// `handle_free`: releases one outstanding reference; the last release
    /// kills the object, and a dying buffer generator also releases the
    /// reference its buffer slot held.
    pub fn raw_handle_free(&mut self, h: u64) -> (s: i32)
        ensures
            ({
                let (st, v2) = spec_free(old(self)@, h);
                s == st && final(self)@ == v2
            }),
            view_wf(old(self)@) && view_wf(final(self)@),
    {
        proof {
            use_type_invariant(&*self);
        }
        let (st, o) = self.access(h);
        if st != STATUS_OK {
            return st;
        }
        let rc = o.refcount;
        self.replace_object(h, Object { refcount: rc - 1, state: o.state });
        if rc > 1 {
            return STATUS_OK;
        }
        if let ObjectState::BufferGenerator { buffer: Some(b), .. } = o.state {
            match self.get_object(b) {
                Some(bo) => {
                    if bo.refcount > 0 {
                        self.replace_object(b, Object { refcount: bo.refcount - 1, state: bo.state });
                    }
                },
                None => {},
            }
        }
        proof {
            assert(self@ =~= spec_free(old(self)@, h).1);
        }
        STATUS_OK
    }

    /// `handle_inc_ref`: adds one outstanding reference to a live object.
    pub fn raw_handle_inc_ref(&mut self, h: u64) -> (s: i32)
        ensures
            ({
                let (st, v2) = spec_inc_ref(old(self)@, h);
                s == st && final(self)@ == v2
            }),
            view_wf(old(self)@) && view_wf(final(self)@),
    {
        proof {
            use_type_invariant(&*self);
        }
        let (st, o) = self.access(h);
        if st != STATUS_OK {
            return st;
        }
        if o.refcount == u64::MAX {
            return STATUS_REF_OVERFLOW;
        }
        self.replace_object(h, Object { refcount: o.refcount + 1, state: o.state });
        proof {
            assert(self@ =~= spec_inc_ref(old(self)@, h).1);
        }
        STATUS_OK
    }

    // -----------------------------------------------------------------------
    // Entity creation
    // -----------------------------------------------------------------------

    // -----------------------------------------------------------------------
    // The typed property protocol
    // -----------------------------------------------------------------------

    /// `get_i`: integer-scalar property read.
    pub fn raw_get_i(&self, h: u64, p: i32) -> (r: (i32, i32))
        ensures
            r == spec_get_i(self@, h, p),
            view_wf(self@),
    {
        proof {
            use_type_invariant(self);
        }
        let (st, o) = self.access(h);
        if st != STATUS_OK {
            return (st, 0);
        }
        match exec_get_int(o.state, p) {
            Some(x) => (STATUS_OK, x),
            None => (STATUS_INVALID_PROPERTY, 0),
        }
    }

    /// `set_i`: integer-scalar property write.
    pub fn raw_set_i(&mut self, h: u64, p: i32, val: i32) -> (s: i32)
        ensures
            ({
                let (st, v2) = spec_set_i(old(self)@, h, p, val);
                s == st && final(self)@ == v2
            }),
            view_wf(old(self)@) && view_wf(final(self)@),
    {
        proof {
            use_type_invariant(&*self);
        }
        let (st, o) = self.access(h);
        if st != STATUS_OK {
            return st;
        }
        match exec_set_int(o.state, p, val) {
            Some(ns) => {
                self.replace_object(h, Object { refcount: o.refcount, state: ns });
                proof {
                    assert(self@ =~= spec_set_i(old(self)@, h, p, val).1);
                }
                STATUS_OK
            },
            None => STATUS_INVALID_PROPERTY,
        }
    }

    /// `get_d`: double-scalar property read, answered as IEEE-754 bits.
    pub fn raw_get_d(&self, h: u64, p: i32) -> (r: (i32, u64))
        ensures
            r == spec_get_d(self@, h, p),
            view_wf(self@),
    {
        proof {
            use_type_invariant(self);
        }
        let (st, o) = self.access(h);
        if st != STATUS_OK {
            return (st, 0);
        }
        match exec_get_dbl(o.state, p) {
            Some(x) => (STATUS_OK, x),
            None => (STATUS_INVALID_PROPERTY, 0),
        }
    }

    /// `set_d`: double-scalar property write.
    pub fn raw_set_d(&mut self, h: u64, p: i32, val: u64) -> (s: i32)
        ensures
            ({
                let (st, v2) = spec_set_d(old(self)@, h, p, val);
                s == st && final(self)@ == v2
            }),
            view_wf(old(self)@) && view_wf(final(self)@),
    {
        proof {
            use_type_invariant(&*self);
        }
        let (st, o) = self.access(h);
        if st != STATUS_OK {
            return st;
        }
        match exec_set_dbl(o.state, p, val) {
            Some(ns) => {
                self.replace_object(h, Object { refcount: o.refcount, state: ns });
                proof {
                    assert(self@ =~= spec_set_d(old(self)@, h, p, val).1);
                }
                STATUS_OK
            },
            None => STATUS_INVALID_PROPERTY,
        }
    }

    /// `get_d3`: 3-vector property read, one logical value.
    pub fn raw_get_d3(&self, h: u64, p: i32) -> (r: (i32, Double3))
        ensures
            r == spec_get_d3(self@, h, p),
            view_wf(self@),
    {
        proof {
            use_type_invariant(self);
        }
        let (st, o) = self.access(h);
        if st != STATUS_OK {
            return (st, Double3 { x: 0, y: 0, z: 0 });
        }
        match exec_get_d3(o.state, p) {
            Some(x) => (STATUS_OK, x),
            None => (STATUS_INVALID_PROPERTY, Double3 { x: 0, y: 0, z: 0 }),
        }
    }

    /// `set_d3`: 3-vector property write, one logical value.
    pub fn raw_set_d3(&mut self, h: u64, p: i32, val: Double3) -> (s: i32)
        ensures
            ({
                let (st, v2) = spec_set_d3(old(self)@, h, p, val);
                s == st && final(self)@ == v2
            }),
            view_wf(old(self)@) && view_wf(final(self)@),
    {
        proof {
            use_type_invariant(&*self);
        }
        let (st, o) = self.access(h);
        if st != STATUS_OK {
            return st;
        }
        match exec_set_d3(o.state, p, val) {
            Some(ns) => {
                self.replace_object(h, Object { refcount: o.refcount, state: ns });
                proof {
                    assert(self@ =~= spec_set_d3(old(self)@, h, p, val).1);
                }
                STATUS_OK
            },
            None => STATUS_INVALID_PROPERTY,
        }
    }

    /// `get_d6`: 6-vector property read, one logical value.
    pub fn raw_get_d6(&self, h: u64, p: i32) -> (r: (i32, Double6))
        ensures
            r == spec_get_d6(self@, h, p),
            view_wf(self@),
    {
        proof {
            use_type_invariant(self);
        }
        let (st, o) = self.access(h);
        if st != STATUS_OK {
            return (st, Double6 { x1: 0, y1: 0, z1: 0, x2: 0, y2: 0, z2: 0 });
        }
        match exec_get_d6(o.state, p) {
            Some(x) => (STATUS_OK, x),
            None => (STATUS_INVALID_PROPERTY, Double6 { x1: 0, y1: 0, z1: 0, x2: 0, y2: 0, z2: 0 }),
        }
    }

    /// `set_d6`: 6-vector property write, one logical value.
    pub fn raw_set_d6(&mut self, h: u64, p: i32, val: Double6) -> (s: i32)
        ensures
            ({
                let (st, v2) = spec_set_d6(old(self)@, h, p, val);
                s == st && final(self)@ == v2
            }),
            view_wf(old(self)@) && view_wf(final(self)@),
    {
        proof {
            use_type_invariant(&*self);
        }
        let (st, o) = self.access(h);
        if st != STATUS_OK {
            return st;
        }
        match exec_set_d6(o.state, p, val) {
            Some(ns) => {
                self.replace_object(h, Object { refcount: o.refcount, state: ns });
                proof {
                    assert(self@ =~= spec_set_d6(old(self)@, h, p, val).1);
                }
                STATUS_OK
            },
            None => STATUS_INVALID_PROPERTY,
        }
    }

    /// `get_o`: object-reference property read. A filled slot hands out one
    /// new reference to its target, so the caller owns the handle it
    /// receives; an empty slot answers the null handle.
    pub fn raw_get_o(&mut self, h: u64, p: i32) -> (r: (i32, u64))
        ensures
            ({
                let (st, b, v2) = spec_get_o(old(self)@, h, p);
                r.0 == st && r.1 == b && final(self)@ == v2
            }),
            view_wf(old(self)@) && view_wf(final(self)@),
    {
        proof {
            use_type_invariant(&*self);
        }
        let (st, o) = self.access(h);
        if st != STATUS_OK {
            return (st, 0);
        }
        match exec_get_obj(o.state, p) {
            None => (STATUS_INVALID_PROPERTY, 0),
            Some(slot) => match slot {
                None => (STATUS_OK, 0),
                Some(b) => {
                    let s2 = self.raw_handle_inc_ref(b);
                    if s2 != STATUS_OK {
                        (s2, 0)
                    } else {
                        (STATUS_OK, b)
                    }
                },
            },
        }
    }

    /// `set_o`: object-reference property write. The slot takes a reference
    /// of its own on the new target — the caller keeps its ownership — and
    /// releases the reference it held on any previous target.
    pub fn raw_set_o(&mut self, h: u64, p: i32, target: u64) -> (s: i32)
        ensures
            ({
                let (st, v2) = spec_set_o(old(self)@, h, p, target);
                s == st && final(self)@ == v2
            }),
            view_wf(old(self)@) && view_wf(final(self)@),
    {
        proof {
            use_type_invariant(&*self);
        }
        let (st, o) = self.access(h);
        if st != STATUS_OK {
            return st;
        }
        let slot = match exec_get_obj(o.state, p) {
            None => {
                return STATUS_INVALID_PROPERTY;
            },
            Some(sl) => sl,
        };
        let to = match self.get_object(target) {
            None => {
                return STATUS_INVALID_HANDLE;
            },
            Some(t) => t,
        };
        if to.refcount == 0 {
            return STATUS_INVALID_HANDLE;
        }
        if !matches!(to.state, ObjectState::Buffer) {
            return STATUS_WRONG_TYPE;
        }
        let s2 = self.raw_handle_inc_ref(target);
        if s2 != STATUS_OK {
            return s2;
        }
        match slot {
            Some(b0) => {
                match self.get_object(b0) {
                    Some(bo) => {
                        if bo.refcount > 0 {
                            self.replace_object(
                                b0,
                                Object { refcount: bo.refcount - 1, state: bo.state },
                            );
                        }
                    },
                    None => {},
                }
            },
            None => {},
        }
        let oh = match self.get_object(h) {
            Some(cur) => cur,
            None => {
                proof {
                    assert(false);
                }
                Object { refcount: 0, state: ObjectState::Context }
            },
        };
        match exec_set_obj(oh.state, p, target) {
            Some(ns) => {
                self.replace_object(h, Object { refcount: oh.refcount, state: ns });
                proof {
                    assert(self@ =~= spec_set_o(old(self)@, h, p, target).1);
                }
                STATUS_OK
            },
            None => {
                proof {
                    assert(false);
                }
                STATUS_INVALID_PROPERTY
            },
        }
    }

    // -----------------------------------------------------------------------
    // Sources and generators
    // -----------------------------------------------------------------------

    /// Whether the pair is attached.
    fn link_contains(&self, src: u64, gen: u64) -> (r: bool)
        ensures
            r == self@.links.contains((src, gen)),
    {
        let n = self.links.len();
        let mut i: usize = 0;
        while i < n
            invariant
                0 <= i <= n,
                n == self.links@.len(),
                forall|j: int| 0 <= j < i ==> self.links@[j] != (src, gen),
            decreases n - i,
        {
            let (a, b) = self.links[i];
            if a == src && b == gen {
                assert(self.links@[i as int] == (src, gen));
                return true;
            }
            i += 1;
        }
        false
    }

    /// `source_add_generator`: attaches a generator to a source; attaching
    /// an already-attached pair succeeds and changes nothing.
    pub fn raw_source_add_generator(&mut self, src: u64, gen: u64) -> (s: i32)
        ensures
            ({
                let (st, v2) = spec_add_generator(old(self)@, src, gen);
                s == st && final(self)@ == v2
            }),
            view_wf(old(self)@) && view_wf(final(self)@),
    {
        proof {
            use_type_invariant(&*self);
        }
        let st = self.link_endpoint_status(src, gen);
        if st != STATUS_OK {
            return st;
        }
        if self.link_contains(src, gen) {
            proof {
                assert(old(self)@.links.insert((src, gen)) =~= old(self)@.links);
                assert(self@ =~= spec_add_generator(old(self)@, src, gen).1);
            }
            return STATUS_OK;
        }
        let mut links: Vec<(u64, u64)> = Vec::new();
        std::mem::swap(&mut links, &mut self.links);
        links.push((src, gen));
        std::mem::swap(&mut links, &mut self.links);
        proof {
            lemma_links_push(old(self).links@, (src, gen));
            assert(self@ =~= spec_add_generator(old(self)@, src, gen).1);
        }
        STATUS_OK
    }

    /// `source_remove_generator`: detaches a generator from a source;
    /// removing a pair that is not attached answers "not present" rather
    /// than succeeding silently.
    pub fn raw_source_remove_generator(&mut self, src: u64, gen: u64) -> (s: i32)
        ensures
            ({
                let (st, v2) = spec_remove_generator(old(self)@, src, gen);
                s == st && final(self)@ == v2
            }),
            view_wf(old(self)@) && view_wf(final(self)@),
    {
        proof {
            use_type_invariant(&*self);
        }
        let st = self.link_endpoint_status(src, gen);
        if st != STATUS_OK {
            return st;
        }
        match self.link_find(src, gen) {
            None => STATUS_NOT_PRESENT,
            Some(i) => {
                let mut links: Vec<(u64, u64)> = Vec::new();
                std::mem::swap(&mut links, &mut self.links);
                links.remove(i);
                std::mem::swap(&mut links, &mut self.links);
                proof {
                    lemma_links_remove(old(self).links@, i as int);
                    assert(self@ =~= spec_remove_generator(old(self)@, src, gen).1);
                }
                STATUS_OK
            },
        }
    }

    /// The index of the pair in the attachment list, if attached.
    fn link_find(&self, src: u64, gen: u64) -> (r: Option<usize>)
        ensures
            match r {
                Some(i) => i < self.links@.len() && self.links@[i as int] == (src, gen),
                None => !self@.links.contains((src, gen)),
            },
    {
        let n = self.links.len();
        let mut i: usize = 0;
        while i < n
            invariant
                0 <= i <= n,
                n == self.links@.len(),
                forall|j: int| 0 <= j < i ==> self.links@[j] != (src, gen),
            decreases n - i,
        {
            let (a, b) = self.links[i];
            if a == src && b == gen {
                assert(self.links@[i as int] == (src, gen));
                return Some(i);
            }
            i += 1;
        }
        None
    }

    /// The status shared by both attachment calls: the engine must be up,
    /// both handles live, the first a source and the second a generator.
    fn link_endpoint_status(&self, src: u64, gen: u64) -> (s: i32)
        ensures
            s == (if !self@.initialized {
                STATUS_NOT_INITIALIZED
            } else if !live(self@, src) || !live(self@, gen) {
                STATUS_INVALID_HANDLE
            } else if !crate::model::is_source(self@.objects[src].state)
                || !crate::model::is_generator(self@.objects[gen].state) {
                STATUS_WRONG_TYPE
            } else {
                STATUS_OK
            }),
    {
        if !self.initialized {
            return STATUS_NOT_INITIALIZED;
        }
        let so = match self.get_object(src) {
            None => {
                return STATUS_INVALID_HANDLE;
            },
            Some(o) => o,
        };
        let go = match self.get_object(gen) {
            None => {
                return STATUS_INVALID_HANDLE;
            },
            Some(o) => o,
        };
        if so.refcount == 0 || go.refcount == 0 {
            return STATUS_INVALID_HANDLE;
        }
        let src_is_source = matches!(
            so.state,
            ObjectState::DirectSource { .. } | ObjectState::PannedSource { .. }
                | ObjectState::Source3D { .. }
        );
        let gen_is_generator = matches!(
            go.state,
            ObjectState::StreamingGenerator | ObjectState::BufferGenerator { .. }
                | ObjectState::NoiseGenerator { .. }
        );
        if !src_is_source || !gen_is_generator {
            return STATUS_WRONG_TYPE;
        }
        STATUS_OK
    }

    // -----------------------------------------------------------------------
    // Buffer metadata queries
    // -----------------------------------------------------------------------

    /// The status a buffer metadata query on `h` answers.
    fn buffer_query(&self, h: u64) -> (s: i32)
        ensures
            s == buffer_query_status(self@, h),
    {
        if !self.initialized {
            return STATUS_NOT_INITIALIZED;
        }
        let o = match self.get_object(h) {
            None => {
                return STATUS_INVALID_HANDLE;
            },
            Some(o) => o,
        };
        if o.refcount == 0 {
            return STATUS_INVALID_HANDLE;
        }
        if !matches!(o.state, ObjectState::Buffer) {
            return STATUS_WRONG_TYPE;
        }
        STATUS_OK
    }

    /// `buffer_get_channels`: the stream's channel count. The model does
    /// not decode streams, so every buffer answers [`BUFFER_CHANNELS`].
    pub fn raw_buffer_get_channels(&self, h: u64) -> (r: (i32, u32))
        ensures
            r.0 == buffer_query_status(self@, h),
            r.1 == (if r.0 == STATUS_OK {
                BUFFER_CHANNELS
            } else {
                0u32
            }),
            view_wf(self@),
    {
        proof {
            use_type_invariant(self);
        }
        let st = self.buffer_query(h);
        if st != STATUS_OK {
            (st, 0)
        } else {
            (STATUS_OK, BUFFER_CHANNELS)
        }
    }

    /// `buffer_get_length_in_samples`: the stream's length in samples; the
    /// model answers [`BUFFER_LENGTH_IN_SAMPLES`] for every buffer.
    pub fn raw_buffer_get_length_in_samples(&self, h: u64) -> (r: (i32, u32))
        ensures
            r.0 == buffer_query_status(self@, h),
            r.1 == (if r.0 == STATUS_OK {
                BUFFER_LENGTH_IN_SAMPLES
            } else {
                0u32
            }),
            view_wf(self@),
    {
        proof {
            use_type_invariant(self);
        }
        let st = self.buffer_query(h);
        if st != STATUS_OK {
            (st, 0)
        } else {
            (STATUS_OK, BUFFER_LENGTH_IN_SAMPLES)
        }
    }

    /// `buffer_get_length_in_seconds`: the stream's length in seconds as
    /// IEEE-754 bits; the model answers [`BUFFER_LENGTH_IN_SECONDS_BITS`]
    /// for every buffer.
    pub fn raw_buffer_get_length_in_seconds(&self, h: u64) -> (r: (i32, u64))
        ensures
            r.0 == buffer_query_status(self@, h),
            r.1 == (if r.0 == STATUS_OK {
                BUFFER_LENGTH_IN_SECONDS_BITS
            } else {
                0u64
            }),
            view_wf(self@),
    {
        proof {
            use_type_invariant(self);
        }
        let st = self.buffer_query(h);
        if st != STATUS_OK {
            (st, 0)
        } else {
            (STATUS_OK, BUFFER_LENGTH_IN_SECONDS_BITS)
        }
    }

    // -----------------------------------------------------------------------
    // Introspection for tests and callers
    // -----------------------------------------------------------------------

    /// Whether the engine is initialized.
    pub fn is_initialized(&self) -> (r: bool)
        ensures
            r == self@.initialized,
    {
        self.initialized
    }

    /// The outstanding reference count of the object bound to `h`: `None`
    /// if `h` was never bound, `Some(0)` if the object is dead. This is the
    /// observation point for counting releases per handle.
    pub fn refcount_of(&self, h: u64) -> (r: Option<u64>)
        ensures
            r == (if self@.objects.contains_key(h) {
                Some(self@.objects[h].refcount)
            } else {
                None::<u64>
            }),
    {
        match self.get_object(h) {
            Some(o) => Some(o.refcount),
            None => None,
        }
    }

    /// Whether the pair (source, generator) is currently attached.
    pub fn is_attached(&self, src: u64, gen: u64) -> (r: bool)
        ensures
            r == self@.links.contains((src, gen)),
    {
        self.link_contains(src, gen)
    }

    /// `create_context`: binds a new context.
    pub fn raw_create_context(&mut self) -> (r: (i32, u64))
        ensures
            ({
                let (st, h, v2) = spec_create(old(self)@, None, ObjectState::Context);
                r.0 == st && r.1 == h && final(self)@ == v2
            }),
            view_wf(old(self)@) && view_wf(final(self)@),
            r.0 == STATUS_OK ==> !old(self)@.objects.contains_key(r.1),
    {
        self.create_object(None, ObjectState::Context)
    }

    /// `create_buffer_from_stream`: decodes a stream named by a protocol,
    /// a path and an options string into a new buffer. The three strings
    /// must already be marshaled into null-terminated buffers; the model
    /// does not decode them further.
    #[allow(unused_variables)]
    pub fn raw_create_buffer_from_stream(
        &mut self,
        protocol: &[u8],
        path: &[u8],
        options: &[u8],
    ) -> (r: (i32, u64))
        requires
            is_c_string(protocol@),
            is_c_string(path@),
            is_c_string(options@),
        ensures
            ({
                let (st, h, v2) = spec_create(old(self)@, None, ObjectState::Buffer);
                r.0 == st && r.1 == h && final(self)@ == v2
            }),
            view_wf(old(self)@) && view_wf(final(self)@),
            r.0 == STATUS_OK ==> !old(self)@.objects.contains_key(r.1),
    {
        self.create_object(None, ObjectState::Buffer)
    }

    /// `create_streaming_generator`: binds a new generator streaming from
    /// the named resource, under a live context. The strings must already
    /// be marshaled into null-terminated buffers.
    #[allow(unused_variables)]
    pub fn raw_create_streaming_generator(
        &mut self,
        ctx: u64,
        protocol: &[u8],
        path: &[u8],
        options: &[u8],
    ) -> (r: (i32, u64))
        requires
            is_c_string(protocol@),
            is_c_string(path@),
            is_c_string(options@),
        ensures
            ({
                let (st, h, v2) = spec_create(old(self)@, Some(ctx), ObjectState::StreamingGenerator);
                r.0 == st && r.1 == h && final(self)@ == v2
            }),
            view_wf(old(self)@) && view_wf(final(self)@),
            r.0 == STATUS_OK ==> !old(self)@.objects.contains_key(r.1),
    {
        self.create_object(Some(ctx), ObjectState::StreamingGenerator)
    }

    /// `create_buffer_generator`: binds a new buffer generator under a live
    /// context, its buffer slot empty.
    pub fn raw_create_buffer_generator(&mut self, ctx: u64) -> (r: (i32, u64))
        ensures
            ({
                let (st, h, v2) = spec_create(
                    old(self)@,
                    Some(ctx),
                    crate::model::initial_buffer_generator(),
                );
                r.0 == st && r.1 == h && final(self)@ == v2
            }),
            view_wf(old(self)@) && view_wf(final(self)@),
            r.0 == STATUS_OK ==> !old(self)@.objects.contains_key(r.1),
    {
        self.create_object(
            Some(ctx),
            ObjectState::BufferGenerator { buffer: None, position_bits: 0, looping: 0 },
        )
    }

    /// `create_noise_generator`: binds a new noise generator under a live
    /// context. The model does not mix audio, so the channel count is
    /// accepted and dropped.
    #[allow(unused_variables)]
    pub fn raw_create_noise_generator(&mut self, ctx: u64, channels: u32) -> (r: (i32, u64))
        ensures
            ({
                let (st, h, v2) = spec_create(
                    old(self)@,
                    Some(ctx),
                    crate::model::initial_noise_generator(),
                );
                r.0 == st && r.1 == h && final(self)@ == v2
            }),
            view_wf(old(self)@) && view_wf(final(self)@),
            r.0 == STATUS_OK ==> !old(self)@.objects.contains_key(r.1),
    {
        self.create_object(Some(ctx), ObjectState::NoiseGenerator { noise_type: 0 })
    }

    /// `create_direct_source`: binds a new direct source under a live
    /// context, at the default gain.
    pub fn raw_create_direct_source(&mut self, ctx: u64) -> (r: (i32, u64))
        ensures
            ({
                let (st, h, v2) = spec_create(
                    old(self)@,
                    Some(ctx),
                    crate::model::initial_direct_source(),
                );
                r.0 == st && r.1 == h && final(self)@ == v2
            }),
            view_wf(old(self)@) && view_wf(final(self)@),
            r.0 == STATUS_OK ==> !old(self)@.objects.contains_key(r.1),
    {
        self.create_object(
            Some(ctx),
            ObjectState::DirectSource { gain_bits: crate::model::DEFAULT_GAIN_BITS },
        )
    }

    /// `create_panned_source`: binds a new panned source under a live
    /// context, at the default gain and centre panning.
    pub fn raw_create_panned_source(&mut self, ctx: u64) -> (r: (i32, u64))
        ensures
            ({
                let (st, h, v2) = spec_create(
                    old(self)@,
                    Some(ctx),
                    crate::model::initial_panned_source(),
                );
                r.0 == st && r.1 == h && final(self)@ == v2
            }),
            view_wf(old(self)@) && view_wf(final(self)@),
            r.0 == STATUS_OK ==> !old(self)@.objects.contains_key(r.1),
    {
        self.create_object(
            Some(ctx),
            ObjectState::PannedSource {
                gain_bits: crate::model::DEFAULT_GAIN_BITS,
                panner_strategy: 0,
                azimuth_bits: 0,
                elevation_bits: 0,
                panning_scalar_bits: 0,
            },
        )
    }

    /// `create_source3d`: binds a new 3D source under a live context, at
    /// the default gain and the origin.
    pub fn raw_create_source3d(&mut self, ctx: u64) -> (r: (i32, u64))
        ensures
            ({
                let (st, h, v2) = spec_create(old(self)@, Some(ctx), crate::model::initial_source3d());
                r.0 == st && r.1 == h && final(self)@ == v2
            }),
            view_wf(old(self)@) && view_wf(final(self)@),
            r.0 == STATUS_OK ==> !old(self)@.objects.contains_key(r.1),
    {
        self.create_object(
            Some(ctx),
            ObjectState::Source3D {
                gain_bits: crate::model::DEFAULT_GAIN_BITS,
                panner_strategy: 0,
                position: Double3 { x: 0, y: 0, z: 0 },
                orientation: Double6 { x1: 0, y1: 0, z1: 0, x2: 0, y2: 0, z2: 0 },
                distance_model_bits: 0,
                distance_ref_bits: 0,
                distance_max_bits: 0,
                rolloff_bits: 0,
                closeness_boost_bits: 0,
                closeness_boost_distance_bits: 0,
            },
        )
    }
}

// ---------------------------------------------------------------------------
// Executable property dispatch, mirroring the catalog in crate::model
// ---------------------------------------------------------------------------

fn exec_get_int(s: ObjectState, p: i32) -> (r: Option<i32>)
    ensures
        r == state_get_int(s, p),
{
    match s {
        ObjectState::BufferGenerator { looping, .. } => if p == crate::props::PROP_LOOPING {
            Some(looping)
        } else {
            None
        },
        ObjectState::NoiseGenerator { noise_type } => if p == crate::props::PROP_NOISE_TYPE {
            Some(noise_type)
        } else {
            None
        },
        ObjectState::PannedSource { panner_strategy, .. } => if p
            == crate::props::PROP_PANNER_STRATEGY {
            Some(panner_strategy)
        } else {
            None
        },
        ObjectState::Source3D { panner_strategy, .. } => if p == crate::props::PROP_PANNER_STRATEGY {
            Some(panner_strategy)
        } else {
            None
        },
        _ => None,
    }
}

fn exec_set_int(s: ObjectState, p: i32, val: i32) -> (r: Option<ObjectState>)
    ensures
        r == state_set_int(s, p, val),
{
    match s {
        ObjectState::BufferGenerator { buffer, position_bits, mut looping } => if p
            == crate::props::PROP_LOOPING {
            looping = val;
            Some(ObjectState::BufferGenerator { buffer, position_bits, looping })
        } else {
            None
        },
        ObjectState::NoiseGenerator { .. } => if p == crate::props::PROP_NOISE_TYPE {
            Some(ObjectState::NoiseGenerator { noise_type: val })
        } else {
            None
        },
        ObjectState::PannedSource {
            gain_bits,
            mut panner_strategy,
            azimuth_bits,
            elevation_bits,
            panning_scalar_bits,
        } => if p == crate::props::PROP_PANNER_STRATEGY {
            panner_strategy = val;
            Some(
                ObjectState::PannedSource {
                    gain_bits,
                    panner_strategy,
                    azimuth_bits,
                    elevation_bits,
                    panning_scalar_bits,
                },
            )
        } else {
            None
        },
        ObjectState::Source3D {
            gain_bits,
            mut panner_strategy,
            position,
            orientation,
            distance_model_bits,
            distance_ref_bits,
            distance_max_bits,
            rolloff_bits,
            closeness_boost_bits,
            closeness_boost_distance_bits,
        } => if p == crate::props::PROP_PANNER_STRATEGY {
            panner_strategy = val;
            Some(
                ObjectState::Source3D {
                    gain_bits,
                    panner_strategy,
                    position,
                    orientation,
                    distance_model_bits,
                    distance_ref_bits,
                    distance_max_bits,
                    rolloff_bits,
                    closeness_boost_bits,
                    closeness_boost_distance_bits,
                },
            )
        } else {
            None
        },
        _ => None,
    }
}

fn exec_get_dbl(s: ObjectState, p: i32) -> (r: Option<u64>)
    ensures
        r == state_get_dbl(s, p),
{
    match s {
        ObjectState::BufferGenerator { position_bits, .. } => if p == crate::props::PROP_POSITION {
            Some(position_bits)
        } else {
            None
        },
        ObjectState::DirectSource { gain_bits } => if p == crate::props::PROP_GAIN {
            Some(gain_bits)
        } else {
            None
        },
        ObjectState::PannedSource {
            gain_bits,
            azimuth_bits,
            elevation_bits,
            panning_scalar_bits,
            ..
        } => if p == crate::props::PROP_GAIN {
            Some(gain_bits)
        } else if p == crate::props::PROP_AZIMUTH {
            Some(azimuth_bits)
        } else if p == crate::props::PROP_ELEVATION {
            Some(elevation_bits)
        } else if p == crate::props::PROP_PANNING_SCALAR {
            Some(panning_scalar_bits)
        } else {
            None
        },
        ObjectState::Source3D {
            gain_bits,
            distance_model_bits,
            distance_ref_bits,
            distance_max_bits,
            rolloff_bits,
            closeness_boost_bits,
            closeness_boost_distance_bits,
            ..
        } => if p == crate::props::PROP_GAIN {
            Some(gain_bits)
        } else if p == crate::props::PROP_DISTANCE_MODEL {
            Some(distance_model_bits)
        } else if p == crate::props::PROP_DISTANCE_REF {
            Some(distance_ref_bits)
        } else if p == crate::props::PROP_DISTANCE_MAX {
            Some(distance_max_bits)
        } else if p == crate::props::PROP_ROLLOFF {
            Some(rolloff_bits)
        } else if p == crate::props::PROP_CLOSENESS_BOOST {
            Some(closeness_boost_bits)
        } else if p == crate::props::PROP_CLOSENESS_BOOST_DISTANCE {
            Some(closeness_boost_distance_bits)
        } else {
            None
        },
        _ => None,
    }
}

fn exec_set_dbl(s: ObjectState, p: i32, val: u64) -> (r: Option<ObjectState>)
    ensures
        r == state_set_dbl(s, p, val),
{
    match s {
        ObjectState::BufferGenerator { buffer, mut position_bits, looping } => if p
            == crate::props::PROP_POSITION {
            position_bits = val;
            Some(ObjectState::BufferGenerator { buffer, position_bits, looping })
        } else {
            None
        },
        ObjectState::DirectSource { .. } => if p == crate::props::PROP_GAIN {
            Some(ObjectState::DirectSource { gain_bits: val })
        } else {
            None
        },
        ObjectState::PannedSource {
            mut gain_bits,
            panner_strategy,
            mut azimuth_bits,
            mut elevation_bits,
            mut panning_scalar_bits,
        } => {
            if p == crate::props::PROP_GAIN {
                gain_bits = val;
            } else if p == crate::props::PROP_AZIMUTH {
                azimuth_bits = val;
            } else if p == crate::props::PROP_ELEVATION {
                elevation_bits = val;
            } else if p == crate::props::PROP_PANNING_SCALAR {
                panning_scalar_bits = val;
            } else {
                return None;
            }
            Some(
                ObjectState::PannedSource {
                    gain_bits,
                    panner_strategy,
                    azimuth_bits,
                    elevation_bits,
                    panning_scalar_bits,
                },
            )
        },
        ObjectState::Source3D {
            mut gain_bits,
            panner_strategy,
            position,
            orientation,
            mut distance_model_bits,
            mut distance_ref_bits,
            mut distance_max_bits,
            mut rolloff_bits,
            mut closeness_boost_bits,
            mut closeness_boost_distance_bits,
        } => {
            if p == crate::props::PROP_GAIN {
                gain_bits = val;
            } else if p == crate::props::PROP_DISTANCE_MODEL {
                distance_model_bits = val;
            } else if p == crate::props::PROP_DISTANCE_REF {
                distance_ref_bits = val;
            } else if p == crate::props::PROP_DISTANCE_MAX {
                distance_max_bits = val;
            } else if p == crate::props::PROP_ROLLOFF {
                rolloff_bits = val;
            } else if p == crate::props::PROP_CLOSENESS_BOOST {
                closeness_boost_bits = val;
            } else if p == crate::props::PROP_CLOSENESS_BOOST_DISTANCE {
                closeness_boost_distance_bits = val;
            } else {
                return None;
            }
            Some(
                ObjectState::Source3D {
                    gain_bits,
                    panner_strategy,
                    position,
                    orientation,
                    distance_model_bits,
                    distance_ref_bits,
                    distance_max_bits,
                    rolloff_bits,
                    closeness_boost_bits,
                    closeness_boost_distance_bits,
                },
            )
        },
        _ => None,
    }
}

fn exec_get_d3(s: ObjectState, p: i32) -> (r: Option<Double3>)
    ensures
        r == state_get_d3(s, p),
{
    match s {
        ObjectState::Source3D { position, .. } => if p == crate::props::PROP_POSITION {
            Some(position)
        } else {
            None
        },
        _ => None,
    }
}

fn exec_set_d3(s: ObjectState, p: i32, val: Double3) -> (r: Option<ObjectState>)
    ensures
        r == state_set_d3(s, p, val),
{
    match s {
        ObjectState::Source3D {
            gain_bits,
            panner_strategy,
            mut position,
            orientation,
            distance_model_bits,
            distance_ref_bits,
            distance_max_bits,
            rolloff_bits,
            closeness_boost_bits,
            closeness_boost_distance_bits,
        } => if p == crate::props::PROP_POSITION {
            position = val;
            Some(
                ObjectState::Source3D {
                    gain_bits,
                    panner_strategy,
                    position,
                    orientation,
                    distance_model_bits,
                    distance_ref_bits,
                    distance_max_bits,
                    rolloff_bits,
                    closeness_boost_bits,
                    closeness_boost_distance_bits,
                },
            )
        } else {
            None
        },
        _ => None,
    }
}

fn exec_get_d6(s: ObjectState, p: i32) -> (r: Option<Double6>)
    ensures
        r == state_get_d6(s, p),
{
    match s {
        ObjectState::Source3D { orientation, .. } => if p == crate::props::PROP_ORIENTATION {
            Some(orientation)
        } else {
            None
        },
        _ => None,
    }
}

fn exec_set_d6(s: ObjectState, p: i32, val: Double6) -> (r: Option<ObjectState>)
    ensures
        r == state_set_d6(s, p, val),
{
    match s {
        ObjectState::Source3D {
            gain_bits,
            panner_strategy,
            position,
            mut orientation,
            distance_model_bits,
            distance_ref_bits,
            distance_max_bits,
            rolloff_bits,
            closeness_boost_bits,
            closeness_boost_distance_bits,
        } => if p == crate::props::PROP_ORIENTATION {
            orientation = val;
            Some(
                ObjectState::Source3D {
                    gain_bits,
                    panner_strategy,
                    position,
                    orientation,
                    distance_model_bits,
                    distance_ref_bits,
                    distance_max_bits,
                    rolloff_bits,
                    closeness_boost_bits,
                    closeness_boost_distance_bits,
                },
            )
        } else {
            None
        },
        _ => None,
    }
}

fn exec_get_obj(s: ObjectState, p: i32) -> (r: Option<Option<u64>>)
    ensures
        r == state_get_obj(s, p),
{
    match s {
        ObjectState::BufferGenerator { buffer, .. } => if p == crate::props::PROP_BUFFER {
            Some(buffer)
        } else {
            None
        },
        _ => None,
    }
}

fn exec_set_obj(s: ObjectState, p: i32, val: u64) -> (r: Option<ObjectState>)
    ensures
        r == state_set_obj(s, p, val),
{
    match s {
        ObjectState::BufferGenerator { mut buffer, position_bits, looping } => if p
            == crate::props::PROP_BUFFER {
            buffer = Some(val);
            Some(ObjectState::BufferGenerator { buffer, position_bits, looping })
        } else {
            None
        },
        _ => None,
    }
}

} // verus!

