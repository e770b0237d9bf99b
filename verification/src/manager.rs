use vstd::prelude::*;

use crate::codes::{KeyCode, MouseButton};
use crate::events::{
    BaseEvent, Event, EventKind, KeyEvent, ModifierStateData, MouseEvent, TargetHandle,
    VirtualEventKind, DEFAULT_TARGET,
};
use crate::geometry::{Rect, TreeGeometry};

verus! {

/// The identifier under which the surrounding tree knows a node. Wider
/// than the `TargetHandle` events carry: resolution narrows it, with a
/// defined default when it does not fit.
pub type NodeId = u64;

/// The plain identity under which the host registers a listener. The
/// engine schedules listeners by identity and never runs host code
/// itself: the host executes the returned schedule.
pub type ListenerId = u64;

/// The raw payload of a buffered keyboard notification: the modifier
/// state and the physical key involved.
pub type KeyEventData = (ModifierStateData, KeyCode);

/// The raw payload of a buffered mouse notification: the modifier state,
/// the button involved and the absolute page position.
pub type MouseEventData = (ModifierStateData, MouseButton, (u32, u32));

/// One entry of the binding registry: a listener registered on a target
/// node for one event kind. Equality is structural over all three fields;
/// duplicate entries are indistinguishable and both exist until removed.
#[derive(Debug, PartialEq, Eq, Copy, Clone, Structural)]
pub struct Binding {
    pub target_id: NodeId,
    pub event_kind: EventKind,
    pub listener: ListenerId,
}

/// One scheduled listener call of a dispatch pass: which listener to run,
/// and the fully synthesized event to hand it.
#[derive(Debug, PartialEq, Eq, Copy, Clone, Structural)]
pub struct Invocation {
    pub listener: ListenerId,
    pub event: Event,
}

/// The target handle a node identifier resolves to: the identifier
/// itself when it fits the handle, and `DEFAULT_TARGET` otherwise. The
/// fallback is a deliberate best-effort degrade, not a failure.
pub open spec fn spec_resolve_target(node_id: NodeId) -> TargetHandle {
    if node_id <= u32::MAX as u64 {
        node_id as u32
    } else {
        DEFAULT_TARGET
    }
}

/// Resolves a node identifier to the handle events carry.
pub fn resolve_target(node_id: NodeId) -> (r: TargetHandle)
    ensures
        r == spec_resolve_target(node_id),
{
    if node_id <= u32::MAX as u64 {
        node_id as u32
    } else {
        DEFAULT_TARGET
    }
}

/// Whether a binding matches a buffered raw notification: exactly when
/// the binding's event kind is the one the raw category synthesizes into.
pub open spec fn spec_binding_matches(b: Binding, virtual_kind: VirtualEventKind) -> bool {
    b.event_kind == virtual_kind.spec_ui_kind()
}

/// The event a matching binding synthesizes from buffered key data: the
/// binding's own kind and resolved target, the buffered modifier state,
/// and the buffered key. Key events never hit-test: geometry plays no
/// part in them.
pub open spec fn spec_key_event(b: Binding, event_data: KeyEventData) -> Event {
    Event::KeyEvent(
        KeyEvent {
            base: BaseEvent {
                event_kind: b.event_kind,
                target: spec_resolve_target(b.target_id),
                alt_key: event_data.0.0,
                ctrl_key: event_data.0.1,
                meta_key: event_data.0.2,
                shift_key: event_data.0.3,
            },
            code: event_data.1,
        },
    )
}

/// The event a matching binding synthesizes from buffered mouse data,
/// once the page position has hit the target's rectangle: all three
/// positions are computed here, once, and frozen into the event.
pub open spec fn spec_mouse_event(
    tree: TreeGeometry,
    rect: Rect,
    b: Binding,
    event_data: MouseEventData,
) -> Event {
    Event::MouseEvent(
        MouseEvent {
            base: BaseEvent {
                event_kind: b.event_kind,
                target: spec_resolve_target(b.target_id),
                alt_key: event_data.0.0,
                ctrl_key: event_data.0.1,
                meta_key: event_data.0.2,
                shift_key: event_data.0.3,
            },
            client_x: tree.spec_client_from_page(event_data.2).0,
            client_y: tree.spec_client_from_page(event_data.2).1,
            offset_x: rect.spec_offset_from_page(event_data.2).0,
            offset_y: rect.spec_offset_from_page(event_data.2).1,
            page_x: event_data.2.0,
            page_y: event_data.2.1,
            mouse_button: event_data.1,
        },
    )
}

/// What one binding synthesizes from buffered mouse data: `None` when the
/// snapshot knows no rectangle for the target or the page position misses
/// it, a silent and expected outcome; the finished event on a hit.
pub open spec fn spec_mouse_synthesis(
    tree: TreeGeometry,
    b: Binding,
    event_data: MouseEventData,
) -> Option<Event> {
    match tree.spec_rect_for(b.target_id) {
        Some(rect) => if rect.spec_contains_point(event_data.2) {
            Some(spec_mouse_event(tree, rect, b, event_data))
        } else {
            None
        },
        None => None,
    }
}

/// What one binding contributes to the schedule for one buffered key
/// notification: its listener with the synthesized event when the kind
/// matches, and nothing otherwise.
pub open spec fn spec_key_contribution(
    b: Binding,
    virtual_kind: VirtualEventKind,
    event_data: KeyEventData,
) -> Seq<Invocation> {
    if spec_binding_matches(b, virtual_kind) {
        seq![Invocation { listener: b.listener, event: spec_key_event(b, event_data) }]
    } else {
        Seq::empty()
    }
}

/// What one binding contributes to the schedule for one buffered mouse
/// notification: its listener with the synthesized event when the kind
/// matches and the position hits the target's own rectangle, and nothing
/// otherwise.
pub open spec fn spec_mouse_contribution(
    tree: TreeGeometry,
    b: Binding,
    virtual_kind: VirtualEventKind,
    event_data: MouseEventData,
) -> Seq<Invocation> {
    if spec_binding_matches(b, virtual_kind) {
        match spec_mouse_synthesis(tree, b, event_data) {
            Some(event) => seq![Invocation { listener: b.listener, event }],
            None => Seq::empty(),
        }
    } else {
        Seq::empty()
    }
}

/// The concatenation, in registry order, of what each binding
/// contributes: the shared shape of every per-notification schedule.
pub open spec fn spec_schedule_over(
    bindings: Seq<Binding>,
    contribution: spec_fn(Binding) -> Seq<Invocation>,
) -> Seq<Invocation>
    decreases bindings.len(),
{
    if bindings.len() == 0 {
        Seq::empty()
    } else {
        spec_schedule_over(bindings.drop_last(), contribution) + contribution(bindings.last())
    }
}

/// The schedule one buffered key notification fans out to, over the whole
/// registry in insertion order.
pub open spec fn spec_key_schedule_for_entry(
    bindings: Seq<Binding>,
    virtual_kind: VirtualEventKind,
    event_data: KeyEventData,
) -> Seq<Invocation> {
    spec_schedule_over(bindings, |b: Binding| spec_key_contribution(b, virtual_kind, event_data))
}

/// The schedule one buffered mouse notification fans out to, over the
/// whole registry in insertion order.
pub open spec fn spec_mouse_schedule_for_entry(
    tree: TreeGeometry,
    bindings: Seq<Binding>,
    virtual_kind: VirtualEventKind,
    event_data: MouseEventData,
) -> Seq<Invocation> {
    spec_schedule_over(
        bindings,
        |b: Binding| spec_mouse_contribution(tree, b, virtual_kind, event_data),
    )
}

/// The schedule of the whole buffered key queue, entry by entry in
/// receipt order.
pub open spec fn spec_key_schedule(
    bindings: Seq<Binding>,
    entries: Seq<(VirtualEventKind, KeyEventData)>,
) -> Seq<Invocation>
    decreases entries.len(),
{
    if entries.len() == 0 {
        Seq::empty()
    } else {
        spec_key_schedule(bindings, entries.drop_last()) + spec_key_schedule_for_entry(
            bindings,
            entries.last().0,
            entries.last().1,
        )
    }
}

/// The schedule of the whole buffered mouse queue, entry by entry in
/// receipt order.
pub open spec fn spec_mouse_schedule(
    tree: TreeGeometry,
    bindings: Seq<Binding>,
    entries: Seq<(VirtualEventKind, MouseEventData)>,
) -> Seq<Invocation>
    decreases entries.len(),
{
    if entries.len() == 0 {
        Seq::empty()
    } else {
        spec_mouse_schedule(tree, bindings, entries.drop_last()) + spec_mouse_schedule_for_entry(
            tree,
            bindings,
            entries.last().0,
            entries.last().1,
        )
    }
}

/// The schedule of one full dispatch pass: the key queue drained first,
/// then the mouse queue, each fanned out over the registry in insertion
/// order. The two queues drain independently; no interleaving across
/// modalities is promised.
pub open spec fn spec_dispatch_schedule(
    tree: TreeGeometry,
    bindings: Seq<Binding>,
    key_entries: Seq<(VirtualEventKind, KeyEventData)>,
    mouse_entries: Seq<(VirtualEventKind, MouseEventData)>,
) -> Seq<Invocation> {
    spec_key_schedule(bindings, key_entries) + spec_mouse_schedule(tree, bindings, mouse_entries)
}


/// Unfolding step for a key entry's schedule: one more binding appends
/// exactly its own contribution.
proof fn lemma_key_entry_take_step(
    bindings: Seq<Binding>,
    virtual_kind: VirtualEventKind,
    event_data: KeyEventData,
    j: int,
)
    requires
        0 <= j < bindings.len(),
    ensures
        spec_key_schedule_for_entry(bindings.take(j + 1), virtual_kind, event_data)
            == spec_key_schedule_for_entry(bindings.take(j), virtual_kind, event_data)
            + spec_key_contribution(bindings[j], virtual_kind, event_data),
{
    assert(bindings.take(j + 1).drop_last() =~= bindings.take(j));
    assert(bindings.take(j + 1).last() == bindings[j]);
}

/// Unfolding step for a mouse entry's schedule: one more binding appends
/// exactly its own contribution.
proof fn lemma_mouse_entry_take_step(
    tree: TreeGeometry,
    bindings: Seq<Binding>,
    virtual_kind: VirtualEventKind,
    event_data: MouseEventData,
    j: int,
)
    requires
        0 <= j < bindings.len(),
    ensures
        spec_mouse_schedule_for_entry(tree, bindings.take(j + 1), virtual_kind, event_data)
            == spec_mouse_schedule_for_entry(tree, bindings.take(j), virtual_kind, event_data)
            + spec_mouse_contribution(tree, bindings[j], virtual_kind, event_data),
{
    assert(bindings.take(j + 1).drop_last() =~= bindings.take(j));
    assert(bindings.take(j + 1).last() == bindings[j]);
}

/// Unfolding step for the key queue's schedule: one more buffered entry
/// appends exactly its own fan-out.
proof fn lemma_key_schedule_take_step(
    bindings: Seq<Binding>,
    entries: Seq<(VirtualEventKind, KeyEventData)>,
    i: int,
)
    requires
        0 <= i < entries.len(),
    ensures
        spec_key_schedule(bindings, entries.take(i + 1)) == spec_key_schedule(
            bindings,
            entries.take(i),
        ) + spec_key_schedule_for_entry(bindings, entries[i].0, entries[i].1),
{
    assert(entries.take(i + 1).drop_last() =~= entries.take(i));
    assert(entries.take(i + 1).last() == entries[i]);
}

/// Unfolding step for the mouse queue's schedule: one more buffered entry
/// appends exactly its own fan-out.
proof fn lemma_mouse_schedule_take_step(
    tree: TreeGeometry,
    bindings: Seq<Binding>,
    entries: Seq<(VirtualEventKind, MouseEventData)>,
    i: int,
)
    requires
        0 <= i < entries.len(),
    ensures
        spec_mouse_schedule(tree, bindings, entries.take(i + 1)) == spec_mouse_schedule(
            tree,
            bindings,
            entries.take(i),
        ) + spec_mouse_schedule_for_entry(tree, bindings, entries[i].0, entries[i].1),
{
    assert(entries.take(i + 1).drop_last() =~= entries.take(i));
    assert(entries.take(i + 1).last() == entries[i]);
}

/// Owns the two pending input queues and the binding registry, and turns
/// buffered raw notifications into an ordered listener schedule.
///
/// Lifecycle: constructed empty; grows through `receive_key_event`,
/// `receive_mouse_event` and `add_event_listener`; each dispatch pass
/// drains both queues completely, while bindings persist until removed.
/// A pass works on the registry as it stands when the pass starts, and
/// listeners run only after the pass has returned its schedule, so
/// host-side mutation during listener execution affects the next pass
/// alone.
#[derive(Debug)]
pub struct EventManager {
    pending_key_events: Vec<(VirtualEventKind, KeyEventData)>,
    pending_mouse_events: Vec<(VirtualEventKind, MouseEventData)>,
    bindings: Vec<Binding>,
}

impl EventManager {
    /// The buffered key notifications, in receipt order.
    pub closed spec fn spec_key_queue(self) -> Seq<(VirtualEventKind, KeyEventData)> {
        self.pending_key_events@
    }

    /// The buffered mouse notifications, in receipt order.
    pub closed spec fn spec_mouse_queue(self) -> Seq<(VirtualEventKind, MouseEventData)> {
        self.pending_mouse_events@
    }

    /// The binding registry, in insertion order.
    pub closed spec fn spec_bindings(self) -> Seq<Binding> {
        self.bindings@
    }

    /// A fresh manager: no pending input, no bindings.
    pub fn new() -> (r: EventManager)
        ensures
            r.spec_key_queue() == Seq::<(VirtualEventKind, KeyEventData)>::empty(),
            r.spec_mouse_queue() == Seq::<(VirtualEventKind, MouseEventData)>::empty(),
            r.spec_bindings() == Seq::<Binding>::empty(),
    {
        EventManager {
            pending_key_events: Vec::new(),
            pending_mouse_events: Vec::new(),
            bindings: Vec::new(),
        }
    }

    /// Appends a binding unconditionally: duplicates are permitted and
    /// fire separately.
    pub fn add_event_listener(
        &mut self,
        target_id: NodeId,
        event_kind: EventKind,
        listener: ListenerId,
    )
        ensures
            final(self).spec_bindings() == old(self).spec_bindings().push(
                Binding { target_id, event_kind, listener },
            ),
            final(self).spec_key_queue() == old(self).spec_key_queue(),
            final(self).spec_mouse_queue() == old(self).spec_mouse_queue(),
    {
        self.bindings.push(Binding { target_id, event_kind, listener });
    }

    /// Removes every binding whose (target, kind, listener) triple equals
    /// the given one, preserving the relative order of the remaining
    /// entries; a no-op when none matches.
    pub fn remove_event_listener(
        &mut self,
        target_id: NodeId,
        event_kind: EventKind,
        listener: ListenerId,
    )
        ensures
            final(self).spec_bindings() == old(self).spec_bindings().filter(
                (|b: Binding| b != (Binding { target_id, event_kind, listener })),
            ),
            final(self).spec_key_queue() == old(self).spec_key_queue(),
            final(self).spec_mouse_queue() == old(self).spec_mouse_queue(),
    {
        let ghost pred = |b: Binding| b != (Binding { target_id, event_kind, listener });
        let removed = Binding { target_id, event_kind, listener };
        let mut kept: Vec<Binding> = Vec::new();
        let n = self.bindings.len();
        let mut i: usize = 0;
        proof {
            assert(self.bindings@.take(0int).filter(pred) =~= Seq::<Binding>::empty()) by {
                reveal_with_fuel(Seq::filter, 1);
                assert(self.bindings@.take(0int) =~= Seq::<Binding>::empty());
            }
        }
        while i < n
            invariant
                0 <= i <= n,
                n == self.bindings@.len(),
                kept@ == self.bindings@.take(i as int).filter(pred),
                pred == (|b: Binding| b != (Binding { target_id, event_kind, listener })),
                removed == (Binding { target_id, event_kind, listener }),
            decreases n - i,
        {
            let b = self.bindings[i];
            proof {
                let prefix = self.bindings@.take(i as int);
                assert(self.bindings@.take(i + 1 as int) =~= prefix.push(b));
                reveal_with_fuel(Seq::filter, 2);
                assert(prefix.push(b).drop_last() =~= prefix);
                assert(prefix.push(b).filter(pred) == prefix.filter(pred) + if pred(b) {
                    seq![b]
                } else {
                    Seq::<Binding>::empty()
                });
            }
            if !(b.target_id == target_id && b.event_kind == event_kind && b.listener
                == listener) {
                kept.push(b);
                proof {
                    assert(pred(b));
                    assert(kept@ =~= self.bindings@.take(i + 1 as int).filter(pred));
                }
            } else {
                proof {
                    assert(b == removed);
                    assert(!pred(b));
                    assert(kept@ =~= self.bindings@.take(i + 1 as int).filter(pred));
                }
            }
            i = i + 1;
        }
        proof {
            assert(self.bindings@.take(n as int) =~= self.bindings@);
        }
        self.bindings = kept;
    }

    /// Buffers a raw keyboard notification; append-only, never fails, and
    /// takes effect at the next dispatch pass.
    pub fn receive_key_event(&mut self, virtual_kind: VirtualEventKind, event_data: KeyEventData)
        ensures
            final(self).spec_key_queue() == old(self).spec_key_queue().push(
                (virtual_kind, event_data),
            ),
            final(self).spec_mouse_queue() == old(self).spec_mouse_queue(),
            final(self).spec_bindings() == old(self).spec_bindings(),
    {
        self.pending_key_events.push((virtual_kind, event_data));
    }

    /// Buffers a raw mouse notification; append-only, never fails, and
    /// takes effect at the next dispatch pass.
    pub fn receive_mouse_event(
        &mut self,
        virtual_kind: VirtualEventKind,
        event_data: MouseEventData,
    )
        ensures
            final(self).spec_mouse_queue() == old(self).spec_mouse_queue().push(
                (virtual_kind, event_data),
            ),
            final(self).spec_key_queue() == old(self).spec_key_queue(),
            final(self).spec_bindings() == old(self).spec_bindings(),
    {
        self.pending_mouse_events.push((virtual_kind, event_data));
    }

    /// Synthesizes the key event a binding receives for buffered key
    /// data: the binding's kind and resolved target, the buffered
    /// modifiers and key. Key events go to their bound target regardless
    /// of geometry.
    pub fn synthesize_key_event(binding: &Binding, event_data: KeyEventData) -> (r: Event)
        ensures
            r == spec_key_event(*binding, event_data),
    {
        let (modifiers, code) = event_data;
        let target = resolve_target(binding.target_id);
        let base = BaseEvent::new(binding.event_kind, target, modifiers);
        KeyEvent::new(base, code).into_generic()
    }

    /// Synthesizes the mouse event a binding receives for buffered mouse
    /// data, or `None` when the page position misses the target's
    /// rectangle (or the snapshot knows no rectangle for it): a silent,
    /// expected outcome, not an error. On a hit, the client and offset
    /// positions are computed against the viewport and rectangle origins.
    pub fn synthesize_mouse_event(
        tree: &TreeGeometry,
        binding: &Binding,
        event_data: MouseEventData,
    ) -> (r: Option<Event>)
        ensures
            r == spec_mouse_synthesis(*tree, *binding, event_data),
    {
        let (modifiers, button, mouse_pos) = event_data;
        let rect = match tree.get_bounding_rectangle(binding.target_id) {
            Some(rect) => rect,
            None => {
                return None;
            },
        };
        if !rect.contains_point(mouse_pos) {
            return None;
        }
        let target = resolve_target(binding.target_id);
        let client_pos = tree.client_from_page(mouse_pos);
        let offset_pos = rect.offset_from_page(mouse_pos);
        let base = BaseEvent::new(binding.event_kind, target, modifiers);
        Some(MouseEvent::new(base, button, mouse_pos, client_pos, offset_pos).into_generic())
    }

    /// Runs one dispatch pass: drains the key queue fully, then the mouse
    /// queue, fans every buffered notification out over the entire
    /// registry in insertion order, and returns the resulting listener
    /// schedule. The host runs the scheduled listeners in order; events a
    /// listener declines belong to the interceptor, via
    /// `intercept_unhandled`, never silently dropped.
    ///
    /// Both queues are empty afterwards whatever matched; input buffered
    /// while the host runs the schedule lands in the next pass. The
    /// registry is read as it stands at the start of the pass and is left
    /// unchanged.
    pub fn intercept_events(&mut self, tree: &TreeGeometry) -> (r: Vec<Invocation>)
        ensures
            r@ == spec_dispatch_schedule(
                *tree,
                old(self).spec_bindings(),
                old(self).spec_key_queue(),
                old(self).spec_mouse_queue(),
            ),
            final(self).spec_bindings() == old(self).spec_bindings(),
            final(self).spec_key_queue() == Seq::<(VirtualEventKind, KeyEventData)>::empty(),
            final(self).spec_mouse_queue() == Seq::<(VirtualEventKind, MouseEventData)>::empty(),
    {
        let ghost bindings = self.spec_bindings();
        let ghost key_entries = self.spec_key_queue();
        let ghost mouse_entries = self.spec_mouse_queue();
        let mut schedule: Vec<Invocation> = Vec::new();
        let nb = self.bindings.len();

        let nk = self.pending_key_events.len();
        let mut i: usize = 0;
        proof {
            assert(key_entries.take(0int) =~= Seq::<(VirtualEventKind, KeyEventData)>::empty());
            assert(schedule@ =~= spec_key_schedule(bindings, key_entries.take(0int)));
        }
        while i < nk
            invariant
                0 <= i <= nk,
                nk == key_entries.len(),
                nb == bindings.len(),
                bindings == self.spec_bindings(),
                key_entries == self.spec_key_queue(),
                schedule@ == spec_key_schedule(bindings, key_entries.take(i as int)),
            decreases nk - i,
        {
            let (virtual_kind, event_data) = self.pending_key_events[i];
            let mut j: usize = 0;
            proof {
                assert(bindings.take(0int) =~= Seq::<Binding>::empty());
                assert(spec_key_schedule_for_entry(bindings.take(0int), virtual_kind, event_data)
                    =~= Seq::<Invocation>::empty());
                assert(schedule@ =~= spec_key_schedule(bindings, key_entries.take(i as int))
                    + spec_key_schedule_for_entry(bindings.take(0int), virtual_kind, event_data));
            }
            while j < nb
                invariant
                    0 <= j <= nb,
                    0 <= i < nk,
                    nk == key_entries.len(),
                    nb == bindings.len(),
                    bindings == self.spec_bindings(),
                    key_entries == self.spec_key_queue(),
                    (virtual_kind, event_data) == key_entries[i as int],
                    schedule@ == spec_key_schedule(bindings, key_entries.take(i as int))
                        + spec_key_schedule_for_entry(
                        bindings.take(j as int),
                        virtual_kind,
                        event_data,
                    ),
                decreases nb - j,
            {
                let binding = self.bindings[j];
                proof {
                    lemma_key_entry_take_step(bindings, virtual_kind, event_data, j as int);
                }
                if binding.event_kind == virtual_kind.ui_kind() {
                    let event = EventManager::synthesize_key_event(&binding, event_data);
                    schedule.push(Invocation { listener: binding.listener, event });
                }
                proof {
                    assert(schedule@ =~= spec_key_schedule(bindings, key_entries.take(i as int))
                        + spec_key_schedule_for_entry(
                        bindings.take(j + 1 as int),
                        virtual_kind,
                        event_data,
                    ));
                }
                j = j + 1;
            }
            proof {
                assert(bindings.take(nb as int) =~= bindings);
                lemma_key_schedule_take_step(bindings, key_entries, i as int);
                assert(schedule@ =~= spec_key_schedule(bindings, key_entries.take(i + 1 as int)));
            }
            i = i + 1;
        }
        proof {
            assert(key_entries.take(nk as int) =~= key_entries);
        }

        let nm = self.pending_mouse_events.len();
        let mut k: usize = 0;
        proof {
            assert(mouse_entries.take(0int) =~= Seq::<(VirtualEventKind, MouseEventData)>::empty());
            assert(schedule@ =~= spec_key_schedule(bindings, key_entries) + spec_mouse_schedule(
                *tree,
                bindings,
                mouse_entries.take(0int),
            ));
        }
        while k < nm
            invariant
                0 <= k <= nm,
                nm == mouse_entries.len(),
                nb == bindings.len(),
                bindings == self.spec_bindings(),
                mouse_entries == self.spec_mouse_queue(),
                schedule@ == spec_key_schedule(bindings, key_entries) + spec_mouse_schedule(
                    *tree,
                    bindings,
                    mouse_entries.take(k as int),
                ),
            decreases nm - k,
        {
            let (virtual_kind, event_data) = self.pending_mouse_events[k];
            let mut j: usize = 0;
            proof {
                assert(bindings.take(0int) =~= Seq::<Binding>::empty());
                assert(spec_mouse_schedule_for_entry(
                    *tree,
                    bindings.take(0int),
                    virtual_kind,
                    event_data,
                ) =~= Seq::<Invocation>::empty());
                assert(schedule@ =~= spec_key_schedule(bindings, key_entries) + spec_mouse_schedule(
                    *tree,
                    bindings,
                    mouse_entries.take(k as int),
                ) + spec_mouse_schedule_for_entry(
                    *tree,
                    bindings.take(0int),
                    virtual_kind,
                    event_data,
                ));
            }
            while j < nb
                invariant
                    0 <= j <= nb,
                    0 <= k < nm,
                    nm == mouse_entries.len(),
                    nb == bindings.len(),
                    bindings == self.spec_bindings(),
                    mouse_entries == self.spec_mouse_queue(),
                    (virtual_kind, event_data) == mouse_entries[k as int],
                    schedule@ == spec_key_schedule(bindings, key_entries) + spec_mouse_schedule(
                        *tree,
                        bindings,
                        mouse_entries.take(k as int),
                    ) + spec_mouse_schedule_for_entry(
                        *tree,
                        bindings.take(j as int),
                        virtual_kind,
                        event_data,
                    ),
                decreases nb - j,
            {
                let binding = self.bindings[j];
                proof {
                    lemma_mouse_entry_take_step(
                        *tree,
                        bindings,
                        virtual_kind,
                        event_data,
                        j as int,
                    );
                }
                if binding.event_kind == virtual_kind.ui_kind() {
                    match EventManager::synthesize_mouse_event(tree, &binding, event_data) {
                        Some(event) => {
                            schedule.push(Invocation { listener: binding.listener, event });
                        },
                        None => {},
                    }
                }
                proof {
                    assert(schedule@ =~= spec_key_schedule(bindings, key_entries)
                        + spec_mouse_schedule(*tree, bindings, mouse_entries.take(k as int))
                        + spec_mouse_schedule_for_entry(
                        *tree,
                        bindings.take(j + 1 as int),
                        virtual_kind,
                        event_data,
                    ));
                }
                j = j + 1;
            }
            proof {
                assert(bindings.take(nb as int) =~= bindings);
                lemma_mouse_schedule_take_step(*tree, bindings, mouse_entries, k as int);
                assert(schedule@ =~= spec_key_schedule(bindings, key_entries)
                    + spec_mouse_schedule(*tree, bindings, mouse_entries.take(k + 1 as int)));
            }
            k = k + 1;
        }
        proof {
            assert(mouse_entries.take(nm as int) =~= mouse_entries);
        }

        self.pending_key_events.clear();
        self.pending_mouse_events.clear();
        schedule
    }

    /// Runs one dispatch pass with the default handling of unhandled
    /// events: whatever the scheduled listeners decline is simply
    /// discarded by the host. Otherwise identical to `intercept_events`.
    pub fn broadcast_events(&mut self, tree: &TreeGeometry) -> (r: Vec<Invocation>)
        ensures
            r@ == spec_dispatch_schedule(
                *tree,
                old(self).spec_bindings(),
                old(self).spec_key_queue(),
                old(self).spec_mouse_queue(),
            ),
            final(self).spec_bindings() == old(self).spec_bindings(),
            final(self).spec_key_queue() == Seq::<(VirtualEventKind, KeyEventData)>::empty(),
            final(self).spec_mouse_queue() == Seq::<(VirtualEventKind, MouseEventData)>::empty(),
    {
        self.intercept_events(tree)
    }
}

/// The events of a pass's schedule that their listeners declined, in
/// schedule order: the feed of the interceptor. `consumed` holds, per
/// scheduled invocation, whether its listener consumed the event.
pub open spec fn spec_unhandled(invocations: Seq<Invocation>, consumed: Seq<bool>) -> Seq<Event>
    decreases invocations.len(),
{
    if invocations.len() == 0 {
        Seq::empty()
    } else {
        let k = invocations.len() - 1;
        spec_unhandled(invocations.drop_last(), consumed.take(k)) + if k < consumed.len()
            && !consumed[k] {
            seq![invocations.last().event]
        } else {
            Seq::empty()
        }
    }
}

/// Routes the events of one pass that their listeners declined to the
/// caller-supplied interceptor: given the schedule a dispatch pass
/// returned and, invocation by invocation, whether the listener consumed
/// its event, returns the declined events in schedule order. An event is
/// forwarded exactly once for each invocation that declined it and is
/// never silently dropped.
pub fn intercept_unhandled(invocations: &Vec<Invocation>, consumed: &Vec<bool>) -> (r: Vec<Event>)
    requires
        invocations@.len() == consumed@.len(),
    ensures
        r@ == spec_unhandled(invocations@, consumed@),
{
    let n = invocations.len();
    let mut unhandled: Vec<Event> = Vec::new();
    let mut i: usize = 0;
    proof {
        assert(invocations@.take(0int) =~= Seq::<Invocation>::empty());
        assert(unhandled@ =~= spec_unhandled(invocations@.take(0int), consumed@.take(0int)));
    }
    while i < n
        invariant
            0 <= i <= n,
            n == invocations@.len(),
            n == consumed@.len(),
            unhandled@ == spec_unhandled(invocations@.take(i as int), consumed@.take(i as int)),
        decreases n - i,
    {
        if !consumed[i] {
            unhandled.push(invocations[i].event);
        }
        proof {
            lemma_unhandled_take_step(invocations@, consumed@, i as int);
            assert(unhandled@ =~= spec_unhandled(
                invocations@.take(i + 1 as int),
                consumed@.take(i + 1 as int),
            ));
        }
        i = i + 1;
    }
    proof {
        assert(invocations@.take(n as int) =~= invocations@);
        assert(consumed@.take(n as int) =~= consumed@);
    }
    unhandled
}

/// Unfolding step for the interceptor feed: one more verdict appends the
/// event exactly when its listener declined.
proof fn lemma_unhandled_take_step(invocations: Seq<Invocation>, consumed: Seq<bool>, i: int)
    requires
        0 <= i < invocations.len(),
        invocations.len() <= consumed.len(),
    ensures
        spec_unhandled(invocations.take(i + 1), consumed.take(i + 1)) == spec_unhandled(
            invocations.take(i),
            consumed.take(i),
        ) + if !consumed[i] {
            seq![invocations[i].event]
        } else {
            Seq::<Event>::empty()
        },
{
    assert(invocations.take(i + 1).drop_last() =~= invocations.take(i));
    assert(invocations.take(i + 1).last() == invocations[i]);
    assert(consumed.take(i + 1).take(i) =~= consumed.take(i));
    assert(consumed.take(i + 1)[i] == consumed[i]);
}

impl Default for EventManager {
    /// A fresh manager, equal to `EventManager::new()`.
    fn default() -> (r: EventManager)
        ensures
            r.spec_key_queue() == Seq::<(VirtualEventKind, KeyEventData)>::empty(),
            r.spec_mouse_queue() == Seq::<(VirtualEventKind, MouseEventData)>::empty(),
            r.spec_bindings() == Seq::<Binding>::empty(),
    {
        EventManager::new()
    }
}

} // verus!
