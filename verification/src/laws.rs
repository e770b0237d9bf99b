use vstd::prelude::*;

use crate::events::{Event, EventKind, VirtualEventKind};
use crate::geometry::TreeGeometry;
use crate::manager::{
    spec_binding_matches, spec_dispatch_schedule, spec_key_contribution, spec_key_event,
    spec_key_schedule, spec_key_schedule_for_entry, spec_mouse_contribution, spec_mouse_schedule,
    spec_mouse_schedule_for_entry, spec_mouse_synthesis, spec_unhandled, Binding, Invocation,
    KeyEventData, ListenerId, MouseEventData, NodeId,
};

verus! {

/// A key entry's schedule over a registry in which no binding
/// contributes anything is empty.
proof fn lemma_key_entry_schedule_empty(
    bindings: Seq<Binding>,
    virtual_kind: VirtualEventKind,
    event_data: KeyEventData,
)
    requires
        forall|j: int|
            0 <= j < bindings.len() ==> spec_key_contribution(
                #[trigger] bindings[j],
                virtual_kind,
                event_data,
            ) == Seq::<Invocation>::empty(),
    ensures
        spec_key_schedule_for_entry(bindings, virtual_kind, event_data) == Seq::<
            Invocation,
        >::empty(),
    decreases bindings.len(),
{
    if bindings.len() == 0 {
        assert(spec_key_schedule_for_entry(bindings, virtual_kind, event_data) =~= Seq::<
            Invocation,
        >::empty());
    } else {
        assert(forall|j: int|
            0 <= j < bindings.drop_last().len() ==> #[trigger] bindings.drop_last()[j]
                == bindings[j]);
        lemma_key_entry_schedule_empty(bindings.drop_last(), virtual_kind, event_data);
        assert(bindings.last() == bindings[bindings.len() - 1]);
        assert(spec_key_schedule_for_entry(bindings, virtual_kind, event_data) =~= Seq::<
            Invocation,
        >::empty());
    }
}

/// A mouse entry's schedule over a registry in which no binding
/// contributes anything is empty.
proof fn lemma_mouse_entry_schedule_empty(
    tree: TreeGeometry,
    bindings: Seq<Binding>,
    virtual_kind: VirtualEventKind,
    event_data: MouseEventData,
)
    requires
        forall|j: int|
            0 <= j < bindings.len() ==> spec_mouse_contribution(
                tree,
                #[trigger] bindings[j],
                virtual_kind,
                event_data,
            ) == Seq::<Invocation>::empty(),
    ensures
        spec_mouse_schedule_for_entry(tree, bindings, virtual_kind, event_data) == Seq::<
            Invocation,
        >::empty(),
    decreases bindings.len(),
{
    if bindings.len() == 0 {
        assert(spec_mouse_schedule_for_entry(tree, bindings, virtual_kind, event_data) =~= Seq::<
            Invocation,
        >::empty());
    } else {
        assert(forall|j: int|
            0 <= j < bindings.drop_last().len() ==> #[trigger] bindings.drop_last()[j]
                == bindings[j]);
        lemma_mouse_entry_schedule_empty(tree, bindings.drop_last(), virtual_kind, event_data);
        assert(bindings.last() == bindings[bindings.len() - 1]);
        assert(spec_mouse_schedule_for_entry(tree, bindings, virtual_kind, event_data) =~= Seq::<
            Invocation,
        >::empty());
    }
}

/// A key entry's schedule distributes over registry concatenation.
proof fn lemma_key_entry_schedule_add(
    a: Seq<Binding>,
    b: Seq<Binding>,
    virtual_kind: VirtualEventKind,
    event_data: KeyEventData,
)
    ensures
        spec_key_schedule_for_entry(a + b, virtual_kind, event_data)
            == spec_key_schedule_for_entry(a, virtual_kind, event_data)
            + spec_key_schedule_for_entry(b, virtual_kind, event_data),
    decreases b.len(),
{
    if b.len() == 0 {
        assert(a + b =~= a);
        assert(spec_key_schedule_for_entry(b, virtual_kind, event_data) =~= Seq::<
            Invocation,
        >::empty());
        assert(spec_key_schedule_for_entry(a, virtual_kind, event_data) + Seq::<
            Invocation,
        >::empty() =~= spec_key_schedule_for_entry(a, virtual_kind, event_data));
    } else {
        assert((a + b).drop_last() =~= a + b.drop_last());
        assert((a + b).last() == b.last());
        lemma_key_entry_schedule_add(a, b.drop_last(), virtual_kind, event_data);
        assert(spec_key_schedule_for_entry(a + b, virtual_kind, event_data)
            =~= spec_key_schedule_for_entry(a, virtual_kind, event_data)
            + spec_key_schedule_for_entry(b, virtual_kind, event_data));
    }
}

/// A mouse entry's schedule distributes over registry concatenation.
proof fn lemma_mouse_entry_schedule_add(
    tree: TreeGeometry,
    a: Seq<Binding>,
    b: Seq<Binding>,
    virtual_kind: VirtualEventKind,
    event_data: MouseEventData,
)
    ensures
        spec_mouse_schedule_for_entry(tree, a + b, virtual_kind, event_data)
            == spec_mouse_schedule_for_entry(tree, a, virtual_kind, event_data)
            + spec_mouse_schedule_for_entry(tree, b, virtual_kind, event_data),
    decreases b.len(),
{
    if b.len() == 0 {
        assert(a + b =~= a);
        assert(spec_mouse_schedule_for_entry(tree, b, virtual_kind, event_data) =~= Seq::<
            Invocation,
        >::empty());
        assert(spec_mouse_schedule_for_entry(tree, a, virtual_kind, event_data) + Seq::<
            Invocation,
        >::empty() =~= spec_mouse_schedule_for_entry(tree, a, virtual_kind, event_data));
    } else {
        assert((a + b).drop_last() =~= a + b.drop_last());
        assert((a + b).last() == b.last());
        lemma_mouse_entry_schedule_add(tree, a, b.drop_last(), virtual_kind, event_data);
        assert(spec_mouse_schedule_for_entry(tree, a + b, virtual_kind, event_data)
            =~= spec_mouse_schedule_for_entry(tree, a, virtual_kind, event_data)
            + spec_mouse_schedule_for_entry(tree, b, virtual_kind, event_data));
    }
}

/// A one-binding registry schedules exactly that binding's contribution.
proof fn lemma_key_entry_schedule_singleton(
    b: Binding,
    virtual_kind: VirtualEventKind,
    event_data: KeyEventData,
)
    ensures
        spec_key_schedule_for_entry(seq![b], virtual_kind, event_data) == spec_key_contribution(
            b,
            virtual_kind,
            event_data,
        ),
{
    assert(seq![b].drop_last() =~= Seq::<Binding>::empty());
    assert(spec_key_schedule_for_entry(Seq::<Binding>::empty(), virtual_kind, event_data) =~= Seq::<
        Invocation,
    >::empty());
    assert(spec_key_schedule_for_entry(seq![b], virtual_kind, event_data)
        =~= spec_key_contribution(b, virtual_kind, event_data));
}

/// A one-binding registry schedules exactly that binding's contribution.
proof fn lemma_mouse_entry_schedule_singleton(
    tree: TreeGeometry,
    b: Binding,
    virtual_kind: VirtualEventKind,
    event_data: MouseEventData,
)
    ensures
        spec_mouse_schedule_for_entry(tree, seq![b], virtual_kind, event_data)
            == spec_mouse_contribution(tree, b, virtual_kind, event_data),
{
    assert(seq![b].drop_last() =~= Seq::<Binding>::empty());
    assert(spec_mouse_schedule_for_entry(tree, Seq::<Binding>::empty(), virtual_kind, event_data)
        =~= Seq::<Invocation>::empty());
    assert(spec_mouse_schedule_for_entry(tree, seq![b], virtual_kind, event_data)
        =~= spec_mouse_contribution(tree, b, virtual_kind, event_data));
}

/// A key entry's schedule splits around any one registry position.
proof fn lemma_key_entry_schedule_split(
    bindings: Seq<Binding>,
    virtual_kind: VirtualEventKind,
    event_data: KeyEventData,
    i: int,
)
    requires
        0 <= i < bindings.len(),
    ensures
        spec_key_schedule_for_entry(bindings, virtual_kind, event_data)
            == spec_key_schedule_for_entry(bindings.take(i), virtual_kind, event_data)
            + spec_key_contribution(bindings[i], virtual_kind, event_data)
            + spec_key_schedule_for_entry(bindings.skip(i + 1), virtual_kind, event_data),
{
    assert(bindings =~= bindings.take(i) + seq![bindings[i]] + bindings.skip(i + 1));
    lemma_key_entry_schedule_add(
        bindings.take(i) + seq![bindings[i]],
        bindings.skip(i + 1),
        virtual_kind,
        event_data,
    );
    lemma_key_entry_schedule_add(bindings.take(i), seq![bindings[i]], virtual_kind, event_data);
    lemma_key_entry_schedule_singleton(bindings[i], virtual_kind, event_data);
}

/// A mouse entry's schedule splits around any one registry position.
proof fn lemma_mouse_entry_schedule_split(
    tree: TreeGeometry,
    bindings: Seq<Binding>,
    virtual_kind: VirtualEventKind,
    event_data: MouseEventData,
    i: int,
)
    requires
        0 <= i < bindings.len(),
    ensures
        spec_mouse_schedule_for_entry(tree, bindings, virtual_kind, event_data)
            == spec_mouse_schedule_for_entry(tree, bindings.take(i), virtual_kind, event_data)
            + spec_mouse_contribution(tree, bindings[i], virtual_kind, event_data)
            + spec_mouse_schedule_for_entry(tree, bindings.skip(i + 1), virtual_kind, event_data),
{
    assert(bindings =~= bindings.take(i) + seq![bindings[i]] + bindings.skip(i + 1));
    lemma_mouse_entry_schedule_add(
        tree,
        bindings.take(i) + seq![bindings[i]],
        bindings.skip(i + 1),
        virtual_kind,
        event_data,
    );
    lemma_mouse_entry_schedule_add(
        tree,
        bindings.take(i),
        seq![bindings[i]],
        virtual_kind,
        event_data,
    );
    lemma_mouse_entry_schedule_singleton(tree, bindings[i], virtual_kind, event_data);
}

/// The schedule of a pass whose key queue holds one entry and whose
/// mouse queue is empty is that entry's own schedule.
proof fn lemma_single_key_entry_pass(
    tree: TreeGeometry,
    bindings: Seq<Binding>,
    virtual_kind: VirtualEventKind,
    event_data: KeyEventData,
)
    ensures
        spec_dispatch_schedule(
            tree,
            bindings,
            seq![(virtual_kind, event_data)],
            Seq::<(VirtualEventKind, MouseEventData)>::empty(),
        ) == spec_key_schedule_for_entry(bindings, virtual_kind, event_data),
{
    let entries = seq![(virtual_kind, event_data)];
    assert(entries.drop_last() =~= Seq::<(VirtualEventKind, KeyEventData)>::empty());
    assert(spec_key_schedule(bindings, entries.drop_last()) =~= Seq::<Invocation>::empty());
    assert(entries.last() == (virtual_kind, event_data));
    assert(spec_mouse_schedule(
        tree,
        bindings,
        Seq::<(VirtualEventKind, MouseEventData)>::empty(),
    ) =~= Seq::<Invocation>::empty());
    assert(spec_dispatch_schedule(
        tree,
        bindings,
        entries,
        Seq::<(VirtualEventKind, MouseEventData)>::empty(),
    ) =~= spec_key_schedule_for_entry(bindings, virtual_kind, event_data));
}

/// The schedule of a pass whose mouse queue holds one entry and whose
/// key queue is empty is that entry's own schedule.
proof fn lemma_single_mouse_entry_pass(
    tree: TreeGeometry,
    bindings: Seq<Binding>,
    virtual_kind: VirtualEventKind,
    event_data: MouseEventData,
)
    ensures
        spec_dispatch_schedule(
            tree,
            bindings,
            Seq::<(VirtualEventKind, KeyEventData)>::empty(),
            seq![(virtual_kind, event_data)],
        ) == spec_mouse_schedule_for_entry(tree, bindings, virtual_kind, event_data),
{
    let entries = seq![(virtual_kind, event_data)];
    assert(entries.drop_last() =~= Seq::<(VirtualEventKind, MouseEventData)>::empty());
    assert(spec_mouse_schedule(tree, bindings, entries.drop_last()) =~= Seq::<Invocation>::empty());
    assert(entries.last() == (virtual_kind, event_data));
    assert(spec_key_schedule(bindings, Seq::<(VirtualEventKind, KeyEventData)>::empty()) =~= Seq::<
        Invocation,
    >::empty());
    assert(spec_dispatch_schedule(
        tree,
        bindings,
        Seq::<(VirtualEventKind, KeyEventData)>::empty(),
        entries,
    ) =~= spec_mouse_schedule_for_entry(tree, bindings, virtual_kind, event_data));
}

/// Binding isolation: dispatching one buffered key notification against
/// a registry in which exactly one binding matches its kind invokes
/// exactly that binding's listener, once, with the synthesized event.
pub proof fn lemma_binding_isolation(
    tree: TreeGeometry,
    bindings: Seq<Binding>,
    virtual_kind: VirtualEventKind,
    event_data: KeyEventData,
    i: int,
)
    requires
        0 <= i < bindings.len(),
        spec_binding_matches(bindings[i], virtual_kind),
        forall|j: int|
            0 <= j < bindings.len() && j != i ==> !spec_binding_matches(
                #[trigger] bindings[j],
                virtual_kind,
            ),
    ensures
        spec_dispatch_schedule(
            tree,
            bindings,
            seq![(virtual_kind, event_data)],
            Seq::<(VirtualEventKind, MouseEventData)>::empty(),
        ) == seq![
            Invocation {
                listener: bindings[i].listener,
                event: spec_key_event(bindings[i], event_data),
            },
        ],
{
    lemma_single_key_entry_pass(tree, bindings, virtual_kind, event_data);
    lemma_key_entry_schedule_split(bindings, virtual_kind, event_data, i);
    assert(forall|j: int|
        0 <= j < bindings.take(i).len() ==> #[trigger] bindings.take(i)[j] == bindings[j]);
    lemma_key_entry_schedule_empty(bindings.take(i), virtual_kind, event_data);
    assert(forall|j: int|
        0 <= j < bindings.skip(i + 1).len() ==> #[trigger] bindings.skip(i + 1)[j] == bindings[j + i
            + 1]);
    lemma_key_entry_schedule_empty(bindings.skip(i + 1), virtual_kind, event_data);
    assert(spec_key_schedule_for_entry(bindings, virtual_kind, event_data) =~= seq![
        Invocation {
            listener: bindings[i].listener,
            event: spec_key_event(bindings[i], event_data),
        },
    ]);
}

/// Binding isolation for the mouse modality: dispatching one buffered
/// mouse notification against a registry in which exactly one binding
/// both matches its kind and is hit invokes exactly that binding's
/// listener, once, with the synthesized event.
pub proof fn lemma_mouse_binding_isolation(
    tree: TreeGeometry,
    bindings: Seq<Binding>,
    virtual_kind: VirtualEventKind,
    event_data: MouseEventData,
    i: int,
    event: Event,
)
    requires
        0 <= i < bindings.len(),
        spec_binding_matches(bindings[i], virtual_kind),
        spec_mouse_synthesis(tree, bindings[i], event_data) == Some(event),
        forall|j: int|
            0 <= j < bindings.len() && j != i ==> !spec_binding_matches(
                #[trigger] bindings[j],
                virtual_kind,
            ) || spec_mouse_synthesis(tree, bindings[j], event_data) is None,
    ensures
        spec_dispatch_schedule(
            tree,
            bindings,
            Seq::<(VirtualEventKind, KeyEventData)>::empty(),
            seq![(virtual_kind, event_data)],
        ) == seq![Invocation { listener: bindings[i].listener, event }],
{
    lemma_single_mouse_entry_pass(tree, bindings, virtual_kind, event_data);
    lemma_mouse_entry_schedule_split(tree, bindings, virtual_kind, event_data, i);
    assert(forall|j: int|
        0 <= j < bindings.take(i).len() ==> #[trigger] bindings.take(i)[j] == bindings[j]);
    lemma_mouse_entry_schedule_empty(tree, bindings.take(i), virtual_kind, event_data);
    assert(forall|j: int|
        0 <= j < bindings.skip(i + 1).len() ==> #[trigger] bindings.skip(i + 1)[j] == bindings[j + i
            + 1]);
    lemma_mouse_entry_schedule_empty(tree, bindings.skip(i + 1), virtual_kind, event_data);
    assert(spec_mouse_schedule_for_entry(tree, bindings, virtual_kind, event_data) =~= seq![
        Invocation { listener: bindings[i].listener, event },
    ]);
}

/// Fan-out: two matching bindings both fire for one buffered key
/// notification, in insertion order: the earlier binding's invocation
/// stands strictly before the later binding's in the schedule.
pub proof fn lemma_fan_out(
    bindings: Seq<Binding>,
    virtual_kind: VirtualEventKind,
    event_data: KeyEventData,
    i: int,
    j: int,
)
    requires
        0 <= i < j < bindings.len(),
        spec_binding_matches(bindings[i], virtual_kind),
        spec_binding_matches(bindings[j], virtual_kind),
    ensures
        ({
            let s = spec_key_schedule_for_entry(bindings, virtual_kind, event_data);
            let p = spec_key_schedule_for_entry(bindings.take(i), virtual_kind, event_data).len();
            let q = spec_key_schedule_for_entry(bindings.take(j), virtual_kind, event_data).len();
            &&& p < q < s.len()
            &&& s[p as int] == (Invocation {
                listener: bindings[i].listener,
                event: spec_key_event(bindings[i], event_data),
            })
            &&& s[q as int] == (Invocation {
                listener: bindings[j].listener,
                event: spec_key_event(bindings[j], event_data),
            })
        }),
{
    lemma_key_entry_schedule_split(bindings, virtual_kind, event_data, j);
    lemma_key_entry_schedule_split(bindings.take(j), virtual_kind, event_data, i);
    assert(bindings.take(j).take(i) =~= bindings.take(i));
    assert(bindings.take(j)[i] == bindings[i]);
}

/// Fan-out for the mouse modality: two bindings that match and are both
/// hit fire in insertion order for one buffered mouse notification.
pub proof fn lemma_mouse_fan_out(
    tree: TreeGeometry,
    bindings: Seq<Binding>,
    virtual_kind: VirtualEventKind,
    event_data: MouseEventData,
    i: int,
    j: int,
    event_i: Event,
    event_j: Event,
)
    requires
        0 <= i < j < bindings.len(),
        spec_binding_matches(bindings[i], virtual_kind),
        spec_binding_matches(bindings[j], virtual_kind),
        spec_mouse_synthesis(tree, bindings[i], event_data) == Some(event_i),
        spec_mouse_synthesis(tree, bindings[j], event_data) == Some(event_j),
    ensures
        ({
            let s = spec_mouse_schedule_for_entry(tree, bindings, virtual_kind, event_data);
            let p = spec_mouse_schedule_for_entry(
                tree,
                bindings.take(i),
                virtual_kind,
                event_data,
            ).len();
            let q = spec_mouse_schedule_for_entry(
                tree,
                bindings.take(j),
                virtual_kind,
                event_data,
            ).len();
            &&& p < q < s.len()
            &&& s[p as int] == (Invocation { listener: bindings[i].listener, event: event_i })
            &&& s[q as int] == (Invocation { listener: bindings[j].listener, event: event_j })
        }),
{
    lemma_mouse_entry_schedule_split(tree, bindings, virtual_kind, event_data, j);
    lemma_mouse_entry_schedule_split(tree, bindings.take(j), virtual_kind, event_data, i);
    assert(bindings.take(j).take(i) =~= bindings.take(i));
    assert(bindings.take(j)[i] == bindings[i]);
}


/// A filtered registry keeps each kept entry at the position given by
/// how many entries were kept before it.
proof fn lemma_filter_position(bindings: Seq<Binding>, pred: spec_fn(Binding) -> bool, i: int)
    requires
        0 <= i < bindings.len(),
        pred(bindings[i]),
    ensures
        bindings.take(i).filter(pred).len() < bindings.filter(pred).len(),
        bindings.filter(pred)[bindings.take(i).filter(pred).len() as int] == bindings[i],
{
    assert(bindings =~= bindings.take(i) + bindings.skip(i));
    Seq::filter_distributes_over_add(bindings.take(i), bindings.skip(i), pred);
    assert(bindings.skip(i) =~= seq![bindings[i]] + bindings.skip(i + 1));
    Seq::filter_distributes_over_add(seq![bindings[i]], bindings.skip(i + 1), pred);
    assert(seq![bindings[i]].filter(pred) =~= seq![bindings[i]]) by {
        reveal_with_fuel(Seq::filter, 2);
        assert(seq![bindings[i]].drop_last() =~= Seq::<Binding>::empty());
    }
    assert(bindings.filter(pred) == bindings.take(i).filter(pred) + (seq![bindings[i]]
        + bindings.skip(i + 1).filter(pred)));
}

/// Filtering preserves relative order: of two kept entries, the earlier
/// one stands at the strictly earlier position.
proof fn lemma_filter_keeps_order(
    bindings: Seq<Binding>,
    pred: spec_fn(Binding) -> bool,
    i: int,
    j: int,
)
    requires
        0 <= i < j < bindings.len(),
        pred(bindings[i]),
        pred(bindings[j]),
    ensures
        bindings.take(i).filter(pred).len() < bindings.take(j).filter(pred).len(),
        bindings.take(j).filter(pred).len() < bindings.filter(pred).len(),
        bindings.filter(pred)[bindings.take(i).filter(pred).len() as int] == bindings[i],
        bindings.filter(pred)[bindings.take(j).filter(pred).len() as int] == bindings[j],
{
    lemma_filter_position(bindings, pred, i);
    lemma_filter_position(bindings, pred, j);
    assert(bindings.take(j).take(i) =~= bindings.take(i));
    assert(bindings.take(j)[i] == bindings[i]);
    lemma_filter_position(bindings.take(j), pred, i);
}

/// Removal exactness: removing by a triple eliminates exactly the
/// entries equal to that triple; every other entry survives, at the
/// position given by how many entries survive before it, so the
/// survivors keep their relative order.
pub proof fn lemma_removal_exactness(
    bindings: Seq<Binding>,
    target_id: NodeId,
    event_kind: EventKind,
    listener: ListenerId,
)
    ensures
        ({
            let removed = Binding { target_id, event_kind, listener };
            let kept = bindings.filter(|b: Binding| b != removed);
            &&& forall|k: int| 0 <= k < kept.len() ==> #[trigger] kept[k] != removed
            &&& forall|k: int|
                0 <= k < bindings.len() && bindings[k] != removed ==> kept.contains(
                    #[trigger] bindings[k],
                )
            &&& forall|k1: int, k2: int|
                0 <= k1 < k2 < bindings.len() && #[trigger] bindings[k1] != removed
                    && #[trigger] bindings[k2] != removed ==> ({
                    let p1 = bindings.take(k1).filter(|b: Binding| b != removed).len();
                    let p2 = bindings.take(k2).filter(|b: Binding| b != removed).len();
                    &&& p1 < p2 < kept.len()
                    &&& kept[p1 as int] == bindings[k1]
                    &&& kept[p2 as int] == bindings[k2]
                })
        }),
{
    let removed = Binding { target_id, event_kind, listener };
    let pred = |b: Binding| b != removed;
    bindings.filter_lemma(pred);
    assert forall|k1: int, k2: int|
        0 <= k1 < k2 < bindings.len() && #[trigger] bindings[k1] != removed
            && #[trigger] bindings[k2] != removed implies ({
        let p1 = bindings.take(k1).filter(pred).len();
        let p2 = bindings.take(k2).filter(pred).len();
        &&& p1 < p2 < bindings.filter(pred).len()
        &&& bindings.filter(pred)[p1 as int] == bindings[k1]
        &&& bindings.filter(pred)[p2 as int] == bindings[k2]
    }) by {
        lemma_filter_keeps_order(bindings, pred, k1, k2);
    }
}

/// Interceptor coverage, silent half: a buffered key notification that
/// no binding matches dispatches nothing at all; it is consumed without
/// reaching any listener or the interceptor.
pub proof fn lemma_unmatched_key_event_consumed_silently(
    tree: TreeGeometry,
    bindings: Seq<Binding>,
    virtual_kind: VirtualEventKind,
    event_data: KeyEventData,
)
    requires
        forall|j: int|
            0 <= j < bindings.len() ==> !spec_binding_matches(#[trigger] bindings[j], virtual_kind),
    ensures
        spec_dispatch_schedule(
            tree,
            bindings,
            seq![(virtual_kind, event_data)],
            Seq::<(VirtualEventKind, MouseEventData)>::empty(),
        ) == Seq::<Invocation>::empty(),
{
    lemma_single_key_entry_pass(tree, bindings, virtual_kind, event_data);
    lemma_key_entry_schedule_empty(bindings, virtual_kind, event_data);
}

/// Interceptor coverage, silent half, mouse modality: a buffered mouse
/// notification that no binding matches, or that hits no matching
/// binding's rectangle, dispatches nothing at all.
pub proof fn lemma_unmatched_mouse_event_consumed_silently(
    tree: TreeGeometry,
    bindings: Seq<Binding>,
    virtual_kind: VirtualEventKind,
    event_data: MouseEventData,
)
    requires
        forall|j: int|
            0 <= j < bindings.len() ==> !spec_binding_matches(#[trigger] bindings[j], virtual_kind)
                || spec_mouse_synthesis(tree, bindings[j], event_data) is None,
    ensures
        spec_dispatch_schedule(
            tree,
            bindings,
            Seq::<(VirtualEventKind, KeyEventData)>::empty(),
            seq![(virtual_kind, event_data)],
        ) == Seq::<Invocation>::empty(),
{
    lemma_single_mouse_entry_pass(tree, bindings, virtual_kind, event_data);
    lemma_mouse_entry_schedule_empty(tree, bindings, virtual_kind, event_data);
}

/// Interceptor coverage, forwarding half: an event whose sole scheduled
/// listener declines reaches the interceptor exactly once, and one whose
/// sole scheduled listener consumes it reaches the interceptor not at
/// all.
pub proof fn lemma_sole_listener_verdict(invocation: Invocation)
    ensures
        spec_unhandled(seq![invocation], seq![false]) == seq![invocation.event],
        spec_unhandled(seq![invocation], seq![true]) == Seq::<Event>::empty(),
{
    assert(seq![invocation].drop_last() =~= Seq::<Invocation>::empty());
    assert(spec_unhandled(Seq::<Invocation>::empty(), seq![false].take(0)) =~= Seq::<
        Event,
    >::empty());
    assert(spec_unhandled(Seq::<Invocation>::empty(), seq![true].take(0)) =~= Seq::<Event>::empty());
    assert(spec_unhandled(seq![invocation], seq![false]) =~= seq![invocation.event]);
    assert(spec_unhandled(seq![invocation], seq![true]) =~= Seq::<Event>::empty());
}

} // verus!
