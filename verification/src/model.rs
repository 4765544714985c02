//! The mathematical model of a rendering context: which object is currently
//! bound per category, how many handles share each live object, and the
//! sequence of native calls issued so far.  Every mutating operation of the
//! executable context is specified as one step function over this model, and
//! the laws of the binding — rebind avoidance, exactly-one-deletion, clones
//! keeping objects alive — are proved here once, over the steps themselves.

use vstd::prelude::*;

use crate::call::GlCall;
use crate::types::GL_ARRAY_BUFFER;
use crate::types::GL_TEXTURE_2D;

verus! {

/// The bindable object categories.  Each has its own identifier space, its
/// own "currently bound" cache slot, and its own reference counts.
#[derive(Debug, Clone, Copy, PartialEq, Eq, Structural)]
pub enum ObjectKind {
    Buffer,
    Program,
    Texture,
}

/// The abstract state of a rendering context.
#[verifier::ext_equal]
pub ghost struct Model {
    /// The buffer identifier named by the bound-object cache.
    pub bound_buffer: u32,
    /// The program identifier named by the bound-object cache.
    pub bound_program: u32,
    /// The texture identifier named by the bound-object cache.
    pub bound_texture: u32,
    /// Live buffer objects and the number of handles sharing each.
    pub buffers: Map<u32, u64>,
    /// Live program objects and the number of handles sharing each.
    pub programs: Map<u32, u64>,
    /// Live texture objects and the number of handles sharing each.
    pub textures: Map<u32, u64>,
    /// Every native call issued so far, in order.
    pub issued: Seq<GlCall>,
}

/// The model of a freshly bootstrapped context: no object is live, nothing
/// has been issued, and the cache slots hold the identifiers that the
/// underlying API can never report as a generated object — so the first bind
/// of any object is always issued.
pub open spec fn initial_model() -> Model {
    Model {
        bound_buffer: u32::MAX,
        bound_program: 0,
        bound_texture: 0,
        buffers: Map::empty(),
        programs: Map::empty(),
        textures: Map::empty(),
        issued: Seq::empty(),
    }
}

/// The cache slot of a category.
pub open spec fn bound(m: Model, k: ObjectKind) -> u32 {
    match k {
        ObjectKind::Buffer => m.bound_buffer,
        ObjectKind::Program => m.bound_program,
        ObjectKind::Texture => m.bound_texture,
    }
}

/// The reference counts of a category.
pub open spec fn counts(m: Model, k: ObjectKind) -> Map<u32, u64> {
    match k {
        ObjectKind::Buffer => m.buffers,
        ObjectKind::Program => m.programs,
        ObjectKind::Texture => m.textures,
    }
}

/// The model with a category's cache slot replaced.
pub open spec fn set_bound(m: Model, k: ObjectKind, id: u32) -> Model {
    match k {
        ObjectKind::Buffer => Model { bound_buffer: id, ..m },
        ObjectKind::Program => Model { bound_program: id, ..m },
        ObjectKind::Texture => Model { bound_texture: id, ..m },
    }
}

/// The model with a category's reference counts replaced.
pub open spec fn set_counts(m: Model, k: ObjectKind, c: Map<u32, u64>) -> Model {
    match k {
        ObjectKind::Buffer => Model { buffers: c, ..m },
        ObjectKind::Program => Model { programs: c, ..m },
        ObjectKind::Texture => Model { textures: c, ..m },
    }
}

/// The native call that makes an object of a category current.
pub open spec fn bind_call(k: ObjectKind, id: u32) -> GlCall {
    match k {
        ObjectKind::Buffer => GlCall::BindBuffer { target: GL_ARRAY_BUFFER, buffer: id },
        ObjectKind::Program => GlCall::UseProgram { program: id },
        ObjectKind::Texture => GlCall::BindTexture { target: GL_TEXTURE_2D, texture: id },
    }
}

/// The native call that deletes an object of a category.
pub open spec fn delete_call(k: ObjectKind, id: u32) -> GlCall {
    match k {
        ObjectKind::Buffer => GlCall::DeleteBuffer { buffer: id },
        ObjectKind::Program => GlCall::DeleteProgram { program: id },
        ObjectKind::Texture => GlCall::DeleteTexture { texture: id },
    }
}

/// Issuing one native call that touches no bookkeeping.
pub open spec fn emit_step(m: Model, c: GlCall) -> Model {
    Model { issued: m.issued.push(c), ..m }
}

/// Making an object current.  When the cache already names it, nothing is
/// issued and nothing changes; otherwise the one bind call is issued and the
/// cache is updated.
pub open spec fn bind_step(m: Model, k: ObjectKind, id: u32) -> Model {
    if bound(m, k) == id {
        m
    } else {
        set_bound(Model { issued: m.issued.push(bind_call(k, id)), ..m }, k, id)
    }
}

/// Registering a freshly generated object with one owning handle.  A
/// registration of an identifier that is already live changes nothing.
pub open spec fn register_step(m: Model, k: ObjectKind, id: u32) -> Model {
    if counts(m, k).contains_key(id) {
        m
    } else {
        set_counts(m, k, counts(m, k).insert(id, 1u64))
    }
}

/// One more handle sharing a live object.
pub open spec fn acquire_step(m: Model, k: ObjectKind, id: u32) -> Model {
    if counts(m, k).contains_key(id) && counts(m, k)[id] < u64::MAX {
        set_counts(m, k, counts(m, k).insert(id, (counts(m, k)[id] + 1) as u64))
    } else {
        m
    }
}

/// The cache-slot value that means "no object of this category is current".
/// It is the value the slot starts with, and what the slot is reset to when
/// the object it names is deleted.
pub open spec fn sentinel(k: ObjectKind) -> u32 {
    match k {
        ObjectKind::Buffer => u32::MAX,
        ObjectKind::Program => 0,
        ObjectKind::Texture => 0,
    }
}

/// One handle letting go of an object.  While other handles still share it
/// only the count drops; when the last handle goes, the entry disappears and
/// the one deletion call is issued — and if the cache still named the
/// deleted object, the slot is reset, so the cache never names a dead
/// object.  A release of an identifier that is not live changes nothing, so
/// no object can be deleted twice.
pub open spec fn release_step(m: Model, k: ObjectKind, id: u32) -> Model {
    if !counts(m, k).contains_key(id) {
        m
    } else if counts(m, k)[id] <= 1 {
        let deleted = Model {
            issued: m.issued.push(delete_call(k, id)),
            ..set_counts(m, k, counts(m, k).remove(id))
        };
        if bound(m, k) == id {
            set_bound(deleted, k, sentinel(k))
        } else {
            deleted
        }
    } else {
        set_counts(m, k, counts(m, k).insert(id, (counts(m, k)[id] - 1) as u64))
    }
}

/// Binds of a whole sequence of identifiers, in order.
pub open spec fn bind_run(m: Model, k: ObjectKind, ids: Seq<u32>) -> Model
    decreases ids.len(),
{
    if ids.len() == 0 {
        m
    } else {
        bind_run(bind_step(m, k, ids[0]), k, ids.skip(1))
    }
}

/// How many of the identifiers differ from the one before them (with `cur`
/// before the first): the number of distinct identifier transitions in a
/// sequence of binds.
pub open spec fn transition_count(cur: u32, ids: Seq<u32>) -> nat
    decreases ids.len(),
{
    if ids.len() == 0 {
        0
    } else if ids[0] == cur {
        transition_count(cur, ids.skip(1))
    } else {
        1 + transition_count(ids[0], ids.skip(1))
    }
}

/// Every live object is shared by at least one handle: no entry with a
/// zero count ever exists, so "count one" always means "last handle".
pub open spec fn counts_positive(m: Model) -> bool {
    forall|k: ObjectKind, id: u32|
        #[trigger] counts(m, k).contains_key(id) ==> counts(m, k)[id] >= 1
}

/// A freshly bootstrapped context has no live object, and every step keeps
/// each live object's count at one or more.
pub proof fn lemma_steps_preserve_positive_counts(m: Model, k: ObjectKind, id: u32, c: GlCall)
    requires
        counts_positive(m),
    ensures
        counts_positive(initial_model()),
        counts_positive(emit_step(m, c)),
        counts_positive(bind_step(m, k, id)),
        counts_positive(register_step(m, k, id)),
        counts_positive(acquire_step(m, k, id)),
        counts_positive(release_step(m, k, id)),
{
    assert forall|k2: ObjectKind, id2: u32|
        #[trigger] counts(emit_step(m, c), k2).contains_key(id2) implies counts(
        emit_step(m, c),
        k2,
    )[id2] >= 1 by {
        assert(counts(m, k2).contains_key(id2));
    }
    assert forall|k2: ObjectKind, id2: u32|
        #[trigger] counts(bind_step(m, k, id), k2).contains_key(id2) implies counts(
        bind_step(m, k, id),
        k2,
    )[id2] >= 1 by {
        assert(counts(m, k2).contains_key(id2));
    }
    assert forall|k2: ObjectKind, id2: u32|
        #[trigger] counts(register_step(m, k, id), k2).contains_key(id2) implies counts(
        register_step(m, k, id),
        k2,
    )[id2] >= 1 by {
        assert(counts(m, k2).contains_key(id2) || (k2 == k && id2 == id));
    }
    assert forall|k2: ObjectKind, id2: u32|
        #[trigger] counts(acquire_step(m, k, id), k2).contains_key(id2) implies counts(
        acquire_step(m, k, id),
        k2,
    )[id2] >= 1 by {
        assert(counts(m, k2).contains_key(id2) || (k2 == k && id2 == id));
    }
    assert forall|k2: ObjectKind, id2: u32|
        #[trigger] counts(release_step(m, k, id), k2).contains_key(id2) implies counts(
        release_step(m, k, id),
        k2,
    )[id2] >= 1 by {
        assert(counts(m, k2).contains_key(id2) || (k2 == k && id2 == id));
    }
}

/// The native calls a run of binds issues: one bind call at each distinct
/// identifier transition (with `cur` current before the first), and nothing
/// anywhere else.
pub open spec fn bind_trace(k: ObjectKind, cur: u32, ids: Seq<u32>) -> Seq<GlCall>
    decreases ids.len(),
{
    if ids.len() == 0 {
        Seq::empty()
    } else if ids[0] == cur {
        bind_trace(k, cur, ids.skip(1))
    } else {
        seq![bind_call(k, ids[0])] + bind_trace(k, ids[0], ids.skip(1))
    }
}

/// What a run of binds issues is exactly its transition trace: one native
/// bind call per distinct identifier transition, in order, and no other
/// call.
pub proof fn lemma_bind_run_issues_exactly_the_trace(m: Model, k: ObjectKind, ids: Seq<u32>)
    ensures
        bind_run(m, k, ids).issued == m.issued + bind_trace(k, bound(m, k), ids),
    decreases ids.len(),
{
    if ids.len() == 0 {
        assert(m.issued + bind_trace(k, bound(m, k), ids) =~= m.issued);
    } else {
        let cur = bound(m, k);
        let m1 = bind_step(m, k, ids[0]);
        lemma_bind_run_issues_exactly_the_trace(m1, k, ids.skip(1));
        if ids[0] == cur {
            assert(bind_run(m, k, ids).issued == m.issued + bind_trace(k, cur, ids.skip(1)));
        } else {
            let c = bind_call(k, ids[0]);
            let tail = bind_trace(k, ids[0], ids.skip(1));
            assert(m1.issued == m.issued.push(c));
            assert(bind_run(m, k, ids).issued == m.issued.push(c) + tail);
            assert(m.issued.push(c) + tail =~= m.issued + (seq![c] + tail));
        }
    }
}

/// Binding what is already current issues nothing: a second bind of the same
/// identifier, right after a first, leaves the model exactly as the first
/// left it.
pub proof fn lemma_rebind_avoided(m: Model, k: ObjectKind, id: u32)
    ensures
        bind_step(bind_step(m, k, id), k, id) == bind_step(m, k, id),
{
    assert(bound(bind_step(m, k, id), k) == id);
}

/// Over any sequence of binds, the number of native bind calls issued is
/// exactly the number of distinct identifier transitions — never one per
/// bind request.
pub proof fn lemma_bind_run_issues_transitions(m: Model, k: ObjectKind, ids: Seq<u32>)
    ensures
        bind_run(m, k, ids).issued.len() == m.issued.len() + transition_count(bound(m, k), ids),
    decreases ids.len(),
{
    if ids.len() > 0 {
        let m1 = bind_step(m, k, ids[0]);
        lemma_bind_run_issues_transitions(m1, k, ids.skip(1));
    }
}

/// Binding the same object twice in a row issues exactly what binding it
/// once does: a run of two equal bind requests and a run of one leave the
/// model identical.
pub proof fn lemma_bind_twice_in_a_row(m: Model, k: ObjectKind, id: u32)
    ensures
        bind_run(m, k, seq![id, id]) == bind_run(m, k, seq![id]),
{
    let two = seq![id, id];
    let one = seq![id];
    let m1 = bind_step(m, k, id);
    assert(two.skip(1) =~= one);
    assert(one.skip(1) =~= Seq::<u32>::empty());
    assert(bind_run(m, k, two) == bind_run(m1, k, one));
    assert(bind_run(m1, k, one) == bind_run(bind_step(m1, k, id), k, one.skip(1)));
    assert(bind_run(bind_step(m1, k, id), k, Seq::<u32>::empty()) == bind_step(m1, k, id));
    lemma_rebind_avoided(m, k, id);
    assert(bind_run(m, k, one) == bind_run(m1, k, one.skip(1)));
}

/// Binds leave counts and caches of every category intact except the bound
/// slot of their own category, and touch no reference count.
pub proof fn lemma_bind_preserves_counts(m: Model, k: ObjectKind, id: u32)
    ensures
        counts(bind_step(m, k, id), ObjectKind::Buffer) == counts(m, ObjectKind::Buffer),
        counts(bind_step(m, k, id), ObjectKind::Program) == counts(m, ObjectKind::Program),
        counts(bind_step(m, k, id), ObjectKind::Texture) == counts(m, ObjectKind::Texture),
{
}

/// Two deletion calls name the same object only if they delete the same
/// identifier of the same category.
pub proof fn lemma_delete_call_injective(k: ObjectKind, a: u32, b: u32)
    ensures
        a != b ==> delete_call(k, a) != delete_call(k, b),
{
}

/// Duplicating a handle and then releasing the duplicate leaves the model
/// exactly as it was: no deletion call is issued while the original handle
/// is still live.
pub proof fn lemma_clone_then_release_is_noop(m: Model, k: ObjectKind, id: u32)
    requires
        counts(m, k).contains_key(id),
        1 <= counts(m, k)[id] < u64::MAX,
    ensures
        release_step(acquire_step(m, k, id), k, id) == m,
{
    let m1 = acquire_step(m, k, id);
    assert(counts(m1, k) == counts(m, k).insert(id, (counts(m, k)[id] + 1) as u64));
    let m2 = release_step(m1, k, id);
    assert(counts(m2, k) =~= counts(m, k));
    assert(m2 =~= m);
}

/// While two or more handles share an object, a release issues nothing: the
/// count drops by one and the issued calls are untouched.
pub proof fn lemma_release_while_shared(m: Model, k: ObjectKind, id: u32)
    requires
        counts(m, k).contains_key(id),
        counts(m, k)[id] >= 2,
    ensures
        release_step(m, k, id).issued == m.issued,
        counts(release_step(m, k, id), k) == counts(m, k).insert(
            id,
            (counts(m, k)[id] - 1) as u64,
        ),
{
}

/// Releasing the last handle issues exactly one deletion call, for exactly
/// that identifier, and leaves every other object's count untouched.
pub proof fn lemma_last_release_deletes_once(m: Model, k: ObjectKind, id: u32)
    requires
        counts(m, k).contains_key(id),
        counts(m, k)[id] == 1,
    ensures
        release_step(m, k, id).issued == m.issued.push(delete_call(k, id)),
        counts(release_step(m, k, id), k) == counts(m, k).remove(id),
        bound(release_step(m, k, id), k) == if bound(m, k) == id {
            sentinel(k)
        } else {
            bound(m, k)
        },
        forall|other: u32|
            other != id && counts(m, k).contains_key(other)
                ==> counts(release_step(m, k, id), k).contains_key(other) && counts(
                release_step(m, k, id),
                k,
            )[other] == counts(m, k)[other],
{
}

/// Once the last handle of an object is released, a further release of the
/// same identifier changes nothing: the deletion call for an object is
/// issued exactly once.
pub proof fn lemma_no_second_delete(m: Model, k: ObjectKind, id: u32)
    requires
        counts(m, k).contains_key(id),
        counts(m, k)[id] == 1,
    ensures
        release_step(release_step(m, k, id), k, id) == release_step(m, k, id),
{
    let m1 = release_step(m, k, id);
    assert(!counts(m1, k).contains_key(id));
}

} // verus!
