//! The presence registry: which delivery handles are open for which identity.
//!
//! The registry is the one piece of state that all connections share. Its
//! abstract value is a map from an identity to the ids of the delivery
//! handles registered for it, oldest first. Two rules hold of every registry:
//! an identity without handles is absent from the map, and a handle id occurs
//! once in the whole registry, so under one identity at most.
//!
//! Removal is by identity: when one connection of an identity goes away, all
//! handles of that identity leave the registry, also those of its other
//! connections.

use crate::text::same_text;
use tokio::sync::mpsc::UnboundedSender;
use vstd::prelude::*;

verus! {

/// The sending half of a `tokio` unbounded channel. Its inside is not
/// looked into.
#[verifier::external_type_specification]
#[verifier::external_body]
#[verifier::reject_recursive_types(T)]
pub struct ExUnboundedSender<T>(UnboundedSender<T>);

/// The abstract value of a registry: identity to handle ids, oldest first.
pub type Presence = Map<Seq<char>, Seq<u64>>;

/// The handle ids registered for `identity`; none if the identity is absent.
pub open spec fn handles_of(presence: Presence, identity: Seq<char>) -> Seq<u64> {
    if presence.contains_key(identity) {
        presence[identity]
    } else {
        Seq::empty()
    }
}

/// Whether handle `id` is registered for `identity`.
pub open spec fn holds(presence: Presence, identity: Seq<char>, id: u64) -> bool {
    handles_of(presence, identity).contains(id)
}

/// A collection of handle ids without `id`.
pub open spec fn omit(ids: Seq<u64>, id: u64) -> Seq<u64> {
    ids.filter(|h: u64| h != id)
}

/// `presence` with handle `id` taken out wherever it stands; an identity left
/// without handles leaves the map.
pub open spec fn released(presence: Presence, id: u64) -> Presence {
    Map::new(
        |k: Seq<char>| presence.contains_key(k) && omit(presence[k], id).len() > 0,
        |k: Seq<char>| omit(presence[k], id),
    )
}

/// `presence` after handle `id` has been registered for `identity`.
///
/// A handle already held by `identity` changes nothing. Otherwise the handle
/// leaves whatever identity held it and is appended to the collection of
/// `identity`, which is created if absent.
pub open spec fn registered(presence: Presence, identity: Seq<char>, id: u64) -> Presence {
    if holds(presence, identity, id) {
        presence
    } else {
        let rest = released(presence, id);
        rest.insert(identity, handles_of(rest, identity).push(id))
    }
}

/// The two rules of the data model: no identity has an empty collection, and
/// no handle id occurs twice, neither under one identity nor under two.
pub open spec fn well_formed(presence: Presence) -> bool {
    &&& forall|k: Seq<char>| presence.contains_key(k) ==> (#[trigger] presence[k]).len() > 0
    &&& forall|k1: Seq<char>, k2: Seq<char>, i: int, j: int|
        #![trigger presence[k1][i], presence[k2][j]]
        presence.contains_key(k1) && presence.contains_key(k2) && 0 <= i < presence[k1].len() && 0
            <= j < presence[k2].len() && presence[k1][i] == presence[k2][j] ==> k1 == k2 && i == j
}

/// A delivery handle: the sink into which frames for one connection are
/// pushed, and the id under which the registry keeps it.
pub struct Handle {
    pub id: u64,
    pub sink: UnboundedSender<String>,
}

struct Binding {
    identity: String,
    handle: Handle,
}

/// The presence registry.
pub struct Registry {
    bindings: Vec<Binding>,
}

/// What a list of bindings says: the pairs of identity and handle id.
spec fn pairs(bindings: Seq<Binding>) -> Seq<(Seq<char>, u64)> {
    bindings.map_values(|b: Binding| (b.identity@, b.handle.id))
}

/// The handle ids that `pairs` binds to `identity`, in order.
spec fn ids_for(pairs: Seq<(Seq<char>, u64)>, identity: Seq<char>) -> Seq<u64>
    decreases pairs.len(),
{
    if pairs.len() == 0 {
        Seq::empty()
    } else {
        let rest = ids_for(pairs.drop_last(), identity);
        if pairs.last().0 == identity {
            rest.push(pairs.last().1)
        } else {
            rest
        }
    }
}

/// No handle id is bound twice.
spec fn distinct_ids(pairs: Seq<(Seq<char>, u64)>) -> bool {
    forall|i: int, j: int| 0 <= i < j < pairs.len() ==> pairs[i].1 != pairs[j].1
}

/// The map that a list of pairs stands for.
spec fn presence_of(pairs: Seq<(Seq<char>, u64)>) -> Presence {
    Map::new(
        |k: Seq<char>| ids_for(pairs, k).len() > 0,
        |k: Seq<char>| ids_for(pairs, k),
    )
}

/// Binding one more pair appends its id to the collection of its identity
/// and to no other.
proof fn lemma_ids_push(pairs: Seq<(Seq<char>, u64)>, pair: (Seq<char>, u64), identity: Seq<char>)
    ensures
        ids_for(pairs.push(pair), identity) == if pair.0 == identity {
            ids_for(pairs, identity).push(pair.1)
        } else {
            ids_for(pairs, identity)
        },
{
    assert(pairs.push(pair).drop_last() =~= pairs);
}

/// An id stands in the collection of an identity exactly when some pair
/// binds the two.
proof fn lemma_ids_member(pairs: Seq<(Seq<char>, u64)>, identity: Seq<char>, id: u64)
    ensures
        ids_for(pairs, identity).contains(id) <==> exists|i: int|
            0 <= i < pairs.len() && #[trigger] pairs[i] == (identity, id),
    decreases pairs.len(),
{
    if pairs.len() > 0 {
        let front = pairs.drop_last();
        let rest = ids_for(front, identity);
        lemma_ids_member(front, identity, id);
        if ids_for(pairs, identity).contains(id) {
            if pairs.last() == (identity, id) {
                assert(pairs[pairs.len() - 1] == (identity, id));
            } else {
                if pairs.last().0 == identity {
                    let at = choose|at: int|
                        0 <= at < rest.push(pairs.last().1).len() && rest.push(pairs.last().1)[at]
                            == id;
                    assert(rest[at] == id);
                }
                assert(rest.contains(id));
                let i = choose|i: int| 0 <= i < front.len() && #[trigger] front[i] == (identity, id);
                assert(pairs[i] == (identity, id));
            }
        }
        if exists|i: int| 0 <= i < pairs.len() && #[trigger] pairs[i] == (identity, id) {
            let i = choose|i: int| 0 <= i < pairs.len() && #[trigger] pairs[i] == (identity, id);
            if i == pairs.len() - 1 {
                assert(ids_for(pairs, identity)[rest.len() as int] == id);
            } else {
                assert(front[i] == (identity, id));
                let at = choose|at: int| 0 <= at < rest.len() && rest[at] == id;
                assert(ids_for(pairs, identity)[at] == id);
            }
        }
    }
}

/// Where no id is bound twice, no collection holds an id twice.
proof fn lemma_ids_no_duplicates(pairs: Seq<(Seq<char>, u64)>, identity: Seq<char>)
    requires
        distinct_ids(pairs),
    ensures
        ids_for(pairs, identity).no_duplicates(),
    decreases pairs.len(),
{
    if pairs.len() > 0 {
        let front = pairs.drop_last();
        lemma_ids_no_duplicates(front, identity);
        if pairs.last().0 == identity {
            let id = pairs.last().1;
            lemma_ids_member(front, identity, id);
            if ids_for(front, identity).contains(id) {
                let i = choose|i: int| 0 <= i < front.len() && #[trigger] front[i] == (identity, id);
                assert(pairs[i].1 == pairs[pairs.len() - 1].1);
            }
        }
    }
}

/// An identity that no pair binds has no handles.
proof fn lemma_ids_absent(pairs: Seq<(Seq<char>, u64)>, identity: Seq<char>)
    requires
        forall|i: int| 0 <= i < pairs.len() ==> (#[trigger] pairs[i]).0 != identity,
    ensures
        ids_for(pairs, identity) == Seq::<u64>::empty(),
    decreases pairs.len(),
{
    if pairs.len() > 0 {
        assert(pairs[pairs.len() - 1].0 != identity);
        lemma_ids_absent(pairs.drop_last(), identity);
    }
}

/// Taking out a pair of another identity leaves a collection as it was.
proof fn lemma_ids_remove_other(pairs: Seq<(Seq<char>, u64)>, at: int, identity: Seq<char>)
    requires
        0 <= at < pairs.len(),
        pairs[at].0 != identity,
    ensures
        ids_for(pairs.remove(at), identity) == ids_for(pairs, identity),
    decreases pairs.len(),
{
    if at == pairs.len() - 1 {
        assert(pairs.remove(at) =~= pairs.drop_last());
    } else {
        lemma_ids_remove_other(pairs.drop_last(), at, identity);
        assert(pairs.remove(at).drop_last() =~= pairs.drop_last().remove(at));
        assert(pairs.remove(at).last() == pairs.last());
    }
}

/// Omitting an id that a collection does not hold leaves the collection.
proof fn lemma_omit_absent(ids: Seq<u64>, id: u64)
    requires
        !ids.contains(id),
    ensures
        omit(ids, id) == ids,
    decreases ids.len(),
{
    reveal(Seq::filter);
    if ids.len() > 0 {
        let front = ids.drop_last();
        assert(ids[ids.len() - 1] != id);
        assert forall|h: u64| front.contains(h) implies ids.contains(h) by {
            let i = choose|i: int| 0 <= i < front.len() && front[i] == h;
            assert(ids[i] == h);
        }
        lemma_omit_absent(front, id);
        assert(front.push(ids.last()) =~= ids);
    } else {
        assert(omit(ids, id) =~= ids);
    }
}

/// Omitting from a collection that was appended to.
proof fn lemma_omit_push(ids: Seq<u64>, last: u64, id: u64)
    ensures
        omit(ids.push(last), id) == if last != id {
            omit(ids, id).push(last)
        } else {
            omit(ids, id)
        },
{
    reveal(Seq::filter);
    assert(ids.push(last).drop_last() =~= ids);
}

/// Taking out the one pair that binds `id` takes `id` out of every
/// collection and changes nothing else.
proof fn lemma_ids_remove_bound(pairs: Seq<(Seq<char>, u64)>, at: int, identity: Seq<char>)
    requires
        0 <= at < pairs.len(),
        distinct_ids(pairs),
    ensures
        ids_for(pairs.remove(at), identity) == omit(ids_for(pairs, identity), pairs[at].1),
    decreases pairs.len(),
{
    let id = pairs[at].1;
    let front = pairs.drop_last();
    let rest = ids_for(front, identity);
    let last = pairs.last();
    lemma_omit_push(rest, last.1, id);
    if at == pairs.len() - 1 {
        assert(pairs.remove(at) =~= front);
        lemma_ids_member(front, identity, id);
        if rest.contains(id) {
            let i = choose|i: int| 0 <= i < front.len() && #[trigger] front[i] == (identity, id);
            assert(pairs[i].1 == pairs[at].1);
        }
        lemma_omit_absent(rest, id);
    } else {
        lemma_ids_remove_bound(front, at, identity);
        assert(pairs.remove(at).drop_last() =~= front.remove(at));
        assert(pairs.remove(at).last() == last);
        assert(pairs[pairs.len() - 1].1 != pairs[at].1);
        assert(front[at].1 == id);
    }
}

/// A list of pairs with distinct ids stands for a well-formed map.
proof fn lemma_presence_well_formed(pairs: Seq<(Seq<char>, u64)>)
    requires
        distinct_ids(pairs),
    ensures
        well_formed(presence_of(pairs)),
{
    let presence = presence_of(pairs);
    assert forall|k1: Seq<char>, k2: Seq<char>, i: int, j: int|
        #![trigger presence[k1][i], presence[k2][j]]
        presence.contains_key(k1) && presence.contains_key(k2) && 0 <= i < presence[k1].len() && 0
            <= j < presence[k2].len() && presence[k1][i] == presence[k2][j] implies k1 == k2 && i
        == j by {
        let id = presence[k1][i];
        lemma_ids_member(pairs, k1, id);
        lemma_ids_member(pairs, k2, id);
        assert(ids_for(pairs, k1).contains(id));
        assert(ids_for(pairs, k2).contains(id));
        let a = choose|a: int| 0 <= a < pairs.len() && #[trigger] pairs[a] == (k1, id);
        let b = choose|b: int| 0 <= b < pairs.len() && #[trigger] pairs[b] == (k2, id);
        assert(pairs[a].1 == pairs[b].1);
        assert(a == b);
        lemma_ids_no_duplicates(pairs, k1);
    }
}

/// The sink bound under `id` in a list of bindings; none where the id is
/// not bound.
spec fn sink_in(bindings: Seq<Binding>, id: u64) -> Option<UnboundedSender<String>> {
    if exists|i: int| 0 <= i < bindings.len() && (#[trigger] bindings[i]).handle.id == id {
        let at = choose|i: int| 0 <= i < bindings.len() && (#[trigger] bindings[i]).handle.id == id;
        Some(bindings[at].handle.sink)
    } else {
        None
    }
}

/// Where no id is bound twice, the sink under an id is that of the one
/// binding of the id.
proof fn lemma_sink_at(bindings: Seq<Binding>, at: int)
    requires
        0 <= at < bindings.len(),
        distinct_ids(pairs(bindings)),
    ensures
        sink_in(bindings, bindings[at].handle.id) == Some(bindings[at].handle.sink),
{
    let id = bindings[at].handle.id;
    let found = choose|i: int| 0 <= i < bindings.len() && (#[trigger] bindings[i]).handle.id == id;
    assert(pairs(bindings)[found].1 == pairs(bindings)[at].1);
    assert(found == at);
}

/// Two lists that hold the same binding of `id`, or none, keep the same
/// sink under it.
proof fn lemma_sink_alike(a: Seq<Binding>, b: Seq<Binding>, id: u64)
    requires
        distinct_ids(pairs(a)),
        distinct_ids(pairs(b)),
        forall|i: int| 0 <= i < a.len() && (#[trigger] a[i]).handle.id == id ==> b.contains(a[i]),
        forall|j: int| 0 <= j < b.len() && (#[trigger] b[j]).handle.id == id ==> a.contains(b[j]),
    ensures
        sink_in(a, id) == sink_in(b, id),
{
    if exists|i: int| 0 <= i < a.len() && (#[trigger] a[i]).handle.id == id {
        let i = choose|i: int| 0 <= i < a.len() && (#[trigger] a[i]).handle.id == id;
        assert(b.contains(a[i]));
        let j = choose|j: int| 0 <= j < b.len() && b[j] == a[i];
        lemma_sink_at(a, i);
        lemma_sink_at(b, j);
    } else if exists|j: int| 0 <= j < b.len() && (#[trigger] b[j]).handle.id == id {
        let j = choose|j: int| 0 <= j < b.len() && (#[trigger] b[j]).handle.id == id;
        assert(a.contains(b[j]));
        let i = choose|i: int| 0 <= i < a.len() && a[i] == b[j];
        assert(a[i].handle.id == id);
    }
}

/// Binding `fresh` anew, after taking out the binding that held its id if
/// there was one, puts the sink of `fresh` under its id and leaves the sink
/// under every other id.
proof fn lemma_sinks_after_binding(
    orig: Seq<Binding>,
    at: Option<int>,
    fresh: Binding,
    bound: Seq<Binding>,
)
    requires
        distinct_ids(pairs(orig)),
        match at {
            Some(p) => 0 <= p < orig.len() && orig[p].handle.id == fresh.handle.id && bound
                == orig.remove(p).push(fresh),
            None => (forall|i: int|
                0 <= i < orig.len() ==> (#[trigger] orig[i]).handle.id != fresh.handle.id) && bound
                == orig.push(fresh),
        },
    ensures
        distinct_ids(pairs(bound)),
        sink_in(bound, fresh.handle.id) == Some(fresh.handle.sink),
        forall|other: u64|
            other != fresh.handle.id ==> #[trigger] sink_in(bound, other) == sink_in(orig, other),
{
    let id = fresh.handle.id;
    let last = bound.len() - 1;
    assert(bound[last] == fresh);
    assert forall|i: int| 0 <= i < last implies (#[trigger] bound[i]).handle.id != id
        && orig.contains(bound[i]) by {
        match at {
            Some(p) => {
                if i < p {
                    assert(bound[i] == orig[i]);
                    assert(pairs(orig)[i].1 != pairs(orig)[p].1);
                } else {
                    assert(bound[i] == orig[i + 1]);
                    assert(pairs(orig)[p].1 != pairs(orig)[i + 1].1);
                }
            },
            None => {
                assert(bound[i] == orig[i]);
            },
        }
    }
    assert forall|i: int, j: int| 0 <= i < j < bound.len() implies pairs(bound)[i].1 != pairs(
        bound,
    )[j].1 by {
        if j < last {
            match at {
                Some(p) => {
                    let oi = if i < p {
                        i
                    } else {
                        i + 1
                    };
                    let oj = if j < p {
                        j
                    } else {
                        j + 1
                    };
                    assert(bound[i] == orig[oi] && bound[j] == orig[oj]);
                    assert(pairs(orig)[oi].1 != pairs(orig)[oj].1);
                },
                None => {
                    assert(bound[i] == orig[i] && bound[j] == orig[j]);
                    assert(pairs(orig)[i].1 != pairs(orig)[j].1);
                },
            }
        } else {
            assert(bound[i].handle.id != id);
        }
    }
    lemma_sink_at(bound, last);
    assert forall|other: u64| other != id implies #[trigger] sink_in(bound, other) == sink_in(
        orig,
        other,
    ) by {
        assert forall|i: int| 0 <= i < orig.len() && (#[trigger] orig[i]).handle.id
            == other implies bound.contains(orig[i]) by {
            match at {
                Some(p) => {
                    if i < p {
                        assert(bound[i] == orig[i]);
                    } else {
                        assert(i != p);
                        assert(bound[i - 1] == orig[i]);
                    }
                },
                None => {
                    assert(bound[i] == orig[i]);
                },
            }
        }
        assert forall|j: int| 0 <= j < bound.len() && (#[trigger] bound[j]).handle.id
            == other implies orig.contains(bound[j]) by {
            assert(j < last);
        }
        lemma_sink_alike(orig, bound, other);
    }
}

/// After the bindings of `identity` are taken out, no sink stands under the
/// ids that it held, and every other id keeps its sink.
proof fn lemma_sinks_after_removal(orig: Seq<Binding>, left: Seq<Binding>, identity: Seq<char>)
    requires
        distinct_ids(pairs(orig)),
        distinct_ids(pairs(left)),
        forall|i: int|
            0 <= i < left.len() ==> orig.contains(#[trigger] left[i]) && left[i].identity@
                != identity,
        forall|j: int|
            0 <= j < orig.len() && (#[trigger] orig[j]).identity@ != identity ==> left.contains(
                orig[j],
            ),
    ensures
        forall|id: u64| #[trigger]
            sink_in(left, id) == if ids_for(pairs(orig), identity).contains(id) {
                None
            } else {
                sink_in(orig, id)
            },
{
    assert forall|id: u64| #[trigger]
        sink_in(left, id) == if ids_for(pairs(orig), identity).contains(id) {
            None
        } else {
            sink_in(orig, id)
        } by {
        lemma_ids_member(pairs(orig), identity, id);
        if ids_for(pairs(orig), identity).contains(id) {
            let j = choose|j: int|
                0 <= j < pairs(orig).len() && #[trigger] pairs(orig)[j] == (identity, id);
            if exists|i: int| 0 <= i < left.len() && (#[trigger] left[i]).handle.id == id {
                let i = choose|i: int| 0 <= i < left.len() && (#[trigger] left[i]).handle.id == id;
                assert(orig.contains(left[i]));
                let k = choose|k: int| 0 <= k < orig.len() && orig[k] == left[i];
                assert(pairs(orig)[k].1 == pairs(orig)[j].1);
                assert(k == j);
            }
        } else {
            assert forall|j: int| 0 <= j < orig.len() && (#[trigger] orig[j]).handle.id
                == id implies left.contains(orig[j]) by {
                if orig[j].identity@ == identity {
                    assert(pairs(orig)[j] == (identity, id));
                }
            }
            lemma_sink_alike(orig, left, id);
        }
    }
}

/// Hands `frame` to the receiving end of `sink`.
///
/// Trusted: calls `UnboundedSender::send`, which never waits. It queues the
/// text for the receiver, or gives it back when the receiving end is closed
/// or dropped; the result says which. Which of the two happens depends on
/// the other end, so nothing is claimed of the result.
#[verifier::external_body]
fn push_frame(sink: &UnboundedSender<String>, frame: String) -> (accepted: bool) {
    sink.send(frame).is_ok()
}

/// Another sender for the channel of `sink`.
///
/// Trusted: calls `clone` of `UnboundedSender`, which returns a second
/// sender for the same channel. The senders are opaque here, so nothing is
/// claimed of the result.
#[verifier::external_body]
fn clone_sink(sink: &UnboundedSender<String>) -> (copy: UnboundedSender<String>) {
    sink.clone()
}

impl Handle {
    /// A second handle for the same connection: the same id, and a sink that
    /// feeds the same channel.
    pub fn duplicate(&self) -> (copy: Handle)
        ensures
            copy.id == self.id,
    {
        Handle { id: self.id, sink: clone_sink(&self.sink) }
    }
}

/// Where in `bindings` handle `id` is bound, if anywhere.
fn position_of(bindings: &Vec<Binding>, id: u64) -> (found: Option<usize>)
    ensures
        match found {
            Some(at) => at < bindings.len() && bindings[at as int].handle.id == id,
            None => forall|i: int| 0 <= i < bindings.len() ==> bindings[i].handle.id != id,
        },
{
    let mut i: usize = 0;
    while i < bindings.len()
        invariant
            i <= bindings.len(),
            forall|j: int| 0 <= j < i ==> bindings[j].handle.id != id,
        decreases bindings.len() - i,
    {
        if bindings[i].handle.id == id {
            return Some(i);
        }
        i = i + 1;
    }
    None
}

impl View for Registry {
    type V = Presence;

    closed spec fn view(&self) -> Presence {
        presence_of(pairs(self.bindings@))
    }
}

impl Registry {
    #[verifier::type_invariant]
    spec fn ids_are_distinct(&self) -> bool {
        distinct_ids(pairs(self.bindings@))
    }

    /// The sink that the registry keeps under handle `id`; none for an id
    /// that is not registered.
    pub closed spec fn sink_of(&self, id: u64) -> Option<UnboundedSender<String>> {
        sink_in(self.bindings@, id)
    }

    /// A registry in which nobody is present.
    pub fn new() -> (registry: Registry)
        ensures
            registry@ == Map::<Seq<char>, Seq<u64>>::empty(),
            forall|id: u64| registry.sink_of(id) is None,
    {
        let registry = Registry { bindings: Vec::new() };
        assert(registry@ =~= Map::<Seq<char>, Seq<u64>>::empty()) by {
            assert(pairs(registry.bindings@) =~= Seq::empty());
        }
        registry
    }

    /// Whether at least one handle is registered for `identity`.
    pub fn is_present(&self, identity: &str) -> (present: bool)
        ensures
            present == self@.contains_key(identity@),
            well_formed(self@),
    {
        proof {
            use_type_invariant(self);
            lemma_presence_well_formed(pairs(self.bindings@));
        }
        let mut i: usize = 0;
        while i < self.bindings.len()
            invariant
                i <= self.bindings.len(),
                well_formed(self@),
                forall|j: int| 0 <= j < i ==> (#[trigger] pairs(self.bindings@)[j]).0 != identity@,
            decreases self.bindings.len() - i,
        {
            if same_text(self.bindings[i].identity.as_str(), identity) {
                proof {
                    let all = pairs(self.bindings@);
                    assert(all[i as int] == (identity@, self.bindings[i as int].handle.id));
                    lemma_ids_member(all, identity@, self.bindings[i as int].handle.id);
                }
                return true;
            }
            i = i + 1;
        }
        proof {
            lemma_ids_absent(pairs(self.bindings@), identity@);
        }
        false
    }

    /// Registers `handle` for `identity`.
    ///
    /// A handle that `identity` holds already is not registered a second time.
    /// A handle held by another identity moves to `identity`. In every other
    /// case the handle is appended to the collection of `identity`, and the
    /// entry is created if the identity was absent.
    ///
    /// The registry keeps the sink of `handle` under its id, unless the
    /// identity held the id already: then it keeps the sink it had. The
    /// sinks under all other ids stay.
    pub fn register(&mut self, identity: &str, handle: Handle)
        ensures
            final(self)@ == registered(old(self)@, identity@, handle.id),
            well_formed(final(self)@),
            final(self).sink_of(handle.id) == if holds(old(self)@, identity@, handle.id) {
                old(self).sink_of(handle.id)
            } else {
                Some(handle.sink)
            },
            forall|other: u64|
                other != handle.id ==> #[trigger] final(self).sink_of(other) == old(self).sink_of(
                    other,
                ),
    {
        proof {
            use_type_invariant(&*self);
        }
        let ghost orig = self.bindings@;
        let ghost before = pairs(self.bindings@);
        let id = handle.id;
        let mut bindings: Vec<Binding> = Vec::new();
        std::mem::swap(&mut bindings, &mut self.bindings);
        let found = position_of(&bindings, id);
        match found {
            Some(at) => {
                assert(before[at as int].1 == id);
                if same_text(bindings[at].identity.as_str(), identity) {
                    proof {
                        assert(before[at as int] == (identity@, id));
                        lemma_ids_member(before, identity@, id);
                        lemma_presence_well_formed(before);
                    }
                    self.bindings = bindings;
                    return ;
                }
                let _ = bindings.remove(at);
                proof {
                    let after = pairs(bindings@);
                    assert(after =~= before.remove(at as int));
                    lemma_ids_member(before, identity@, id);
                    if ids_for(before, identity@).contains(id) {
                        let i = choose|i: int|
                            0 <= i < before.len() && #[trigger] before[i] == (identity@, id);
                        assert(before[i].1 == before[at as int].1);
                    }
                    assert forall|k: Seq<char>| #[trigger]
                        ids_for(after, k) == omit(ids_for(before, k), id) by {
                        lemma_ids_remove_bound(before, at as int, k);
                    }
                    assert forall|i: int| 0 <= i < after.len() implies (#[trigger] after[i]).1
                        != id by {
                        if i < at {
                            assert(before[i].1 != before[at as int].1);
                        } else {
                            assert(before[i + 1].1 != before[at as int].1);
                        }
                    }
                }
            },
            None => {
                proof {
                    let after = pairs(bindings@);
                    assert(after =~= before);
                    assert forall|k: Seq<char>| #[trigger]
                        ids_for(after, k) == omit(ids_for(before, k), id) by {
                        lemma_ids_member(before, k, id);
                        lemma_omit_absent(ids_for(before, k), id);
                    }
                }
            },
        }
        let ghost rest = pairs(bindings@);
        assert(presence_of(rest) =~= released(presence_of(before), id));
        assert(!holds(presence_of(before), identity@, id));
        let ghost taken: Option<int> = match found {
            Some(at) => Some(at as int),
            None => None,
        };
        let fresh = Binding { identity: identity.to_string(), handle };
        proof {
            let bound = bindings@.push(fresh);
            if found is None {
                assert(bindings@ =~= orig);
                assert forall|i: int| 0 <= i < orig.len() implies (#[trigger] orig[i]).handle.id
                    != id by {
                    assert(before[i].1 == orig[i].handle.id);
                }
            } else {
                assert(bindings@ =~= orig.remove(taken->0));
            }
            lemma_sinks_after_binding(orig, taken, fresh, bound);
        }
        bindings.push(fresh);
        proof {
            let after = pairs(bindings@);
            assert(after =~= rest.push((identity@, id)));
            assert forall|k: Seq<char>| #[trigger]
                ids_for(after, k) == (if k == identity@ {
                    ids_for(rest, k).push(id)
                } else {
                    ids_for(rest, k)
                }) by {
                lemma_ids_push(rest, (identity@, id), k);
            }
            assert(handles_of(presence_of(rest), identity@) =~= ids_for(rest, identity@));
            assert(presence_of(after) =~= presence_of(rest).insert(
                identity@,
                handles_of(presence_of(rest), identity@).push(id),
            ));
            lemma_presence_well_formed(after);
        }
        self.bindings = bindings;
    }

    /// Pushes `frame` to every handle registered for `identity`, oldest
    /// first, and returns the ids of the handles it was pushed to: each
    /// handle of the identity once, none if the identity is absent. A push
    /// that a closed connection refuses is passed over.
    pub fn deliver(&self, identity: &str, frame: &str) -> (reached: Vec<u64>)
        ensures
            reached@ == handles_of(self@, identity@),
            reached@.no_duplicates(),
            well_formed(self@),
    {
        proof {
            use_type_invariant(self);
            lemma_presence_well_formed(pairs(self.bindings@));
        }
        let ghost all = pairs(self.bindings@);
        let mut reached: Vec<u64> = Vec::new();
        let mut i: usize = 0;
        while i < self.bindings.len()
            invariant
                i <= self.bindings.len(),
                all == pairs(self.bindings@),
                reached@ == ids_for(all.take(i as int), identity@),
            decreases self.bindings.len() - i,
        {
            proof {
                assert(all.take(i + 1).drop_last() =~= all.take(i as int));
                assert(all.take(i + 1).last() == all[i as int]);
            }
            if same_text(self.bindings[i].identity.as_str(), identity) {
                let _ = push_frame(&self.bindings[i].handle.sink, frame.to_string());
                reached.push(self.bindings[i].handle.id);
            }
            i = i + 1;
        }
        proof {
            assert(all.take(i as int) =~= all);
            lemma_ids_no_duplicates(all, identity@);
        }
        reached
    }

    /// Removes the whole entry of `identity`: all its handles leave the
    /// registry, whichever connection they belong to.
    /// The sinks of the handles that leave are let go; every other id keeps
    /// its sink.
    pub fn unregister(&mut self, identity: &str)
        ensures
            final(self)@ == old(self)@.remove(identity@),
            well_formed(final(self)@),
            forall|id: u64| #[trigger]
                final(self).sink_of(id) == if holds(old(self)@, identity@, id) {
                    None
                } else {
                    old(self).sink_of(id)
                },
    {
        proof {
            use_type_invariant(&*self);
        }
        let ghost orig = self.bindings@;
        let ghost before = pairs(self.bindings@);
        let mut bindings: Vec<Binding> = Vec::new();
        std::mem::swap(&mut bindings, &mut self.bindings);
        let mut i: usize = 0;
        while i < bindings.len()
            invariant
                i <= bindings.len(),
                distinct_ids(pairs(bindings@)),
                forall|j: int| 0 <= j < i ==> (#[trigger] pairs(bindings@)[j]).0 != identity@,
                forall|k: Seq<char>|
                    k != identity@ ==> #[trigger] ids_for(pairs(bindings@), k) == ids_for(
                        before,
                        k,
                    ),
                forall|j: int| 0 <= j < bindings.len() ==> orig.contains(#[trigger] bindings@[j]),
                forall|j: int|
                    0 <= j < orig.len() && (#[trigger] orig[j]).identity@ != identity@
                        ==> bindings@.contains(orig[j]),
            decreases bindings.len() - i,
        {
            if same_text(bindings[i].identity.as_str(), identity) {
                let ghost prior = pairs(bindings@);
                let ghost held = bindings@;
                let _ = bindings.remove(i);
                proof {
                    assert forall|j: int| 0 <= j < bindings.len() implies orig.contains(
                        #[trigger] bindings@[j],
                    ) by {
                        if j < i {
                            assert(bindings@[j] == held[j]);
                        } else {
                            assert(bindings@[j] == held[j + 1]);
                        }
                    }
                    assert forall|j: int| 0 <= j < orig.len() && (#[trigger] orig[j]).identity@
                        != identity@ implies bindings@.contains(orig[j]) by {
                        assert(held.contains(orig[j]));
                        let k = choose|k: int| 0 <= k < held.len() && held[k] == orig[j];
                        if k < i {
                            assert(bindings@[k] == orig[j]);
                        } else {
                            assert(k != i);
                            assert(bindings@[k - 1] == orig[j]);
                        }
                    }
                    let after = pairs(bindings@);
                    assert(after =~= prior.remove(i as int));
                    assert forall|k: Seq<char>| k != identity@ implies #[trigger] ids_for(after, k)
                        == ids_for(before, k) by {
                        lemma_ids_remove_other(prior, i as int, k);
                    }
                }
            } else {
                i = i + 1;
            }
        }
        proof {
            let after = pairs(bindings@);
            lemma_ids_absent(after, identity@);
            assert(presence_of(after) =~= presence_of(before).remove(identity@));
            lemma_presence_well_formed(after);
            assert forall|j: int| 0 <= j < bindings.len() implies (#[trigger] bindings@[j]).identity@
                != identity@ by {
                assert(after[j].0 != identity@);
            }
            lemma_sinks_after_removal(orig, bindings@, identity@);
            assert forall|id: u64|
                holds(presence_of(before), identity@, id) == ids_for(before, identity@).contains(
                    id,
                ) by {
                if !presence_of(before).contains_key(identity@) {
                    assert(ids_for(before, identity@) =~= Seq::<u64>::empty());
                }
            }
        }
        self.bindings = bindings;
    }
}

/// Registering a handle that nobody holds appends it to the collection of
/// the identity and creates the entry if the identity was absent; every
/// other entry stays as it is.
pub proof fn fresh_handle_is_appended(presence: Presence, identity: Seq<char>, id: u64)
    requires
        well_formed(presence),
        forall|k: Seq<char>| !holds(presence, k, id),
    ensures
        registered(presence, identity, id) == presence.insert(
            identity,
            handles_of(presence, identity).push(id),
        ),
{
    assert forall|k: Seq<char>| presence.contains_key(k) implies omit(#[trigger] presence[k], id)
        == presence[k] by {
        assert(!holds(presence, k, id));
        lemma_omit_absent(presence[k], id);
    }
    assert(released(presence, id) =~= presence);
}

/// Registering is idempotent: a second registration of the same handle for
/// the same identity changes nothing.
pub proof fn registering_twice_changes_nothing(presence: Presence, identity: Seq<char>, id: u64)
    ensures
        registered(registered(presence, identity, id), identity, id) == registered(
            presence,
            identity,
            id,
        ),
{
    let once = registered(presence, identity, id);
    if !holds(presence, identity, id) {
        let rest = released(presence, id);
        let grown = handles_of(rest, identity).push(id);
        assert(grown[grown.len() - 1] == id);
        assert(holds(once, identity, id));
    }
}

/// After the entry of an identity is removed, the identity is absent and
/// holds no handle; the other identities hold what they held.
pub proof fn removed_identity_holds_nothing(presence: Presence, identity: Seq<char>)
    ensures
        !presence.remove(identity).contains_key(identity),
        handles_of(presence.remove(identity), identity) == Seq::<u64>::empty(),
        forall|other: Seq<char>|
            other != identity ==> handles_of(presence.remove(identity), other) == handles_of(
                presence,
                other,
            ),
{
}

} // verus!
