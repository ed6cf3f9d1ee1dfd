//! What a backend is told to do, read as a whole: which resources a
//! sequence of actions acquires and releases, which framebuffer size it
//! tells the event handler, and how often something occurs in it.
use vstd::prelude::*;
use crate::event::Callback;

verus! {

/// A native resource that a backend owns.
#[derive(Clone, Copy, Debug, PartialEq, Eq, Structural)]
pub enum Resource {
    /// The native window.
    Window,
    /// The connection to the display server of the graphics interface.
    Display,
    /// The drawing surface.
    Surface,
    /// The graphics context.
    Context,
    /// The binding that makes the context current on the owning thread.
    Current,
}

/// A resource coming into a backend's hands or leaving them.
#[derive(Clone, Copy, Debug, PartialEq, Eq, Structural)]
pub enum ResourceEvent {
    Acquire(Resource),
    Release(Resource),
}

/// The resources held after `events`, in the order of their acquisition,
/// starting from `held`; `None` if the events break the discipline. The
/// discipline is that nothing is acquired while it is held, and that only
/// the resource acquired last is released. Under it every resource is
/// released in strict reverse order of acquisition, and never twice.
pub open spec fn held_after(held: Seq<Resource>, events: Seq<ResourceEvent>) -> Option<
    Seq<Resource>,
>
    decreases events.len(),
{
    if events.len() == 0 {
        Some(held)
    } else {
        match held_after(held, events.drop_last()) {
            None => None,
            Some(before) => match events.last() {
                ResourceEvent::Acquire(r) => if before.contains(r) {
                    None
                } else {
                    Some(before.push(r))
                },
                ResourceEvent::Release(r) => if before.len() > 0 && before.last() == r {
                    Some(before.drop_last())
                } else {
                    None
                },
            },
        }
    }
}

/// Events that follow one another act one after the other.
pub proof fn lemma_held_after_concat(
    held: Seq<Resource>,
    first: Seq<ResourceEvent>,
    second: Seq<ResourceEvent>,
)
    ensures
        held_after(held, first + second) == match held_after(held, first) {
            None => None,
            Some(between) => held_after(between, second),
        },
    decreases second.len(),
{
    if second.len() == 0 {
        assert(first + second =~= first);
    } else {
        lemma_held_after_concat(held, first, second.drop_last());
        assert((first + second).drop_last() =~= first + second.drop_last());
        assert((first + second).last() == second.last());
    }
}

/// Under the discipline nothing is ever held twice.
pub proof fn lemma_never_held_twice(held: Seq<Resource>, events: Seq<ResourceEvent>)
    requires
        held.no_duplicates(),
        held_after(held, events) is Some,
    ensures
        held_after(held, events)->0.no_duplicates(),
    decreases events.len(),
{
    if events.len() > 0 {
        let before = held_after(held, events.drop_last())->0;
        lemma_never_held_twice(held, events.drop_last());
        match events.last() {
            ResourceEvent::Acquire(r) => {
                let after = before.push(r);
                assert forall|i: int, j: int|
                    0 <= i < after.len() && 0 <= j < after.len() && i != j implies after[i]
                    != after[j] by {
                    if i < before.len() && j < before.len() {
                        assert(before[i] != before[j]);
                    } else if i < before.len() {
                        assert(before.contains(before[i]));
                    } else {
                        assert(before.contains(before[j]));
                    }
                }
            },
            ResourceEvent::Release(r) => {
                let after = before.drop_last();
                assert forall|i: int, j: int|
                    0 <= i < after.len() && 0 <= j < after.len() && i != j implies after[i]
                    != after[j] by {
                    assert(before[i] != before[j]);
                }
            },
        }
    }
}

/// Under the discipline, starting with nothing held, a resource has been
/// released as often as it has been acquired, but for the one acquisition
/// by which it is held if it is held. So when nothing is held in the end,
/// everything that was acquired has been released, each acquisition once.
pub proof fn lemma_released_as_often_as_acquired(events: Seq<ResourceEvent>, resource: Resource)
    requires
        held_after(Seq::empty(), events) is Some,
    ensures
        count(events, ResourceEvent::Acquire(resource)) == count(
            events,
            ResourceEvent::Release(resource),
        ) + if held_after(Seq::empty(), events)->0.contains(resource) {
            1nat
        } else {
            0nat
        },
    decreases events.len(),
{
    let nothing = Seq::<Resource>::empty();
    if events.len() > 0 {
        let before = held_after(nothing, events.drop_last())->0;
        lemma_released_as_often_as_acquired(events.drop_last(), resource);
        lemma_never_held_twice(nothing, events.drop_last());
        match events.last() {
            ResourceEvent::Acquire(r) => {
                let after = before.push(r);
                assert(after[after.len() - 1] == r);
                if before.contains(resource) {
                    let i = choose|i: int| 0 <= i < before.len() && before[i] == resource;
                    assert(after[i] == resource);
                }
                if after.contains(resource) && r != resource {
                    let i = choose|i: int| 0 <= i < after.len() && after[i] == resource;
                    assert(before[i] == resource);
                }
            },
            ResourceEvent::Release(r) => {
                let after = before.drop_last();
                assert(before[before.len() - 1] == r);
                if after.contains(resource) {
                    let i = choose|i: int| 0 <= i < after.len() && after[i] == resource;
                    assert(before[i] == resource);
                }
                if before.contains(resource) && r != resource {
                    let i = choose|i: int| 0 <= i < before.len() && before[i] == resource;
                    assert(after[i] == resource);
                }
            },
        }
    } else {
        assert(!nothing.contains(resource));
    }
}

/// The releases that give back all of `held`, last acquired first.
pub open spec fn releases_of(held: Seq<Resource>) -> Seq<ResourceEvent> {
    Seq::new(held.len(), |i: int| ResourceEvent::Release(held[held.len() - 1 - i]))
}

/// Giving back everything that is held, last acquired first, keeps the
/// discipline and leaves nothing held.
pub proof fn lemma_releases_leave_nothing(held: Seq<Resource>)
    ensures
        held_after(held, releases_of(held)) == Some(Seq::<Resource>::empty()),
    decreases held.len(),
{
    let all = releases_of(held);
    if held.len() == 0 {
        assert(held =~= Seq::<Resource>::empty());
    } else {
        let rest = held.drop_last();
        lemma_releases_leave_nothing(rest);
        let head = seq![ResourceEvent::Release(held.last())];
        assert(all =~= head + releases_of(rest));
        assert(head.drop_last() =~= Seq::<ResourceEvent>::empty());
        assert(held_after(held, head.drop_last()) == Some(held));
        assert(head.last() == ResourceEvent::Release(held.last()));
        assert(held_after(held, head) == Some(rest));
        lemma_held_after_concat(held, head, releases_of(rest));
    }
}

/// Something for a backend to carry out: it may acquire or release a
/// resource, and it may be a call of the event handler.
pub trait Effectful: Sized {
    /// The resource that is acquired or released, if any.
    spec fn effect(self) -> Option<ResourceEvent>;

    /// The call of the event handler that this is, if it is one.
    spec fn callback(self) -> Option<Callback>;
}

/// The framebuffer size that an action tells the event handler, if it tells
/// one.
pub open spec fn notifies<A: Effectful>(action: A) -> Option<(i32, i32)> {
    match action.callback() {
        Some(Callback::Resize { width, height }) => Some((width, height)),
        _ => None,
    }
}

/// Whether the event handler's `draw` is called among `actions`.
pub open spec fn draws<A: Effectful>(actions: Seq<A>) -> bool {
    exists|i: int| 0 <= i < actions.len() && (#[trigger] actions[i]).callback() == Some(Callback::Draw)
}

/// The framebuffer size that the event handler knows after `actions`, if it
/// knew `known` before: the size of the last resize notification among
/// them, or `known` if there is none.
pub open spec fn notified_size<A: Effectful>(known: (i32, i32), actions: Seq<A>) -> (i32, i32)
    decreases actions.len(),
{
    if actions.len() == 0 {
        known
    } else {
        match notifies(actions.last()) {
            Some(size) => size,
            None => notified_size(known, actions.drop_last()),
        }
    }
}

/// Whether no action among `actions` tells the event handler a size.
pub open spec fn tells_no_size<A: Effectful>(actions: Seq<A>) -> bool {
    forall|i: int| 0 <= i < actions.len() ==> notifies(#[trigger] actions[i]) is None
}

/// Actions that tell no size leave what the event handler knows as it is.
pub proof fn lemma_silent_actions_notify_nothing<A: Effectful>(known: (i32, i32), actions: Seq<A>)
    requires
        tells_no_size(actions),
    ensures
        notified_size(known, actions) == known,
    decreases actions.len(),
{
    if actions.len() > 0 {
        assert(actions.last() == actions[actions.len() - 1]);
        assert forall|i: int| 0 <= i < actions.drop_last().len() implies notifies(
            #[trigger] actions.drop_last()[i],
        ) is None by {
            assert(actions.drop_last()[i] == actions[i]);
        }
        lemma_silent_actions_notify_nothing(known, actions.drop_last());
    }
}

/// What the event handler knows after two stretches of actions is what it
/// knows after the second, having learnt from the first.
pub proof fn lemma_notified_size_concat<A: Effectful>(
    known: (i32, i32),
    first: Seq<A>,
    second: Seq<A>,
)
    ensures
        notified_size(known, first + second) == notified_size(
            notified_size(known, first),
            second,
        ),
    decreases second.len(),
{
    if second.len() == 0 {
        assert(first + second =~= first);
    } else {
        lemma_notified_size_concat(known, first, second.drop_last());
        assert((first + second).drop_last() =~= first + second.drop_last());
        assert((first + second).last() == second.last());
    }
}


/// The acquisitions and releases among `actions`, in their order.
pub open spec fn effects<A: Effectful>(actions: Seq<A>) -> Seq<ResourceEvent>
    decreases actions.len(),
{
    if actions.len() == 0 {
        Seq::empty()
    } else {
        match actions.last().effect() {
            Some(e) => effects(actions.drop_last()).push(e),
            None => effects(actions.drop_last()),
        }
    }
}

/// The resources held after `actions`, starting from `held`; `None` if the
/// actions break the discipline of `held_after`.
pub open spec fn held_through<A: Effectful>(held: Seq<Resource>, actions: Seq<A>) -> Option<Seq<Resource>> {
    held_after(held, effects(actions))
}

/// The acquisitions and releases after one more action.
pub proof fn lemma_effects_push<A: Effectful>(actions: Seq<A>, next: A)
    ensures
        effects(actions.push(next)) == match next.effect() {
            Some(e) => effects(actions).push(e),
            None => effects(actions),
        },
{
    assert(actions.push(next).drop_last() =~= actions);
}

/// Actions that follow one another acquire and release one after the other.
pub proof fn lemma_effects_concat<A: Effectful>(first: Seq<A>, second: Seq<A>)
    ensures
        effects(first + second) == effects(first) + effects(second),
    decreases second.len(),
{
    if second.len() == 0 {
        assert(first + second =~= first);
        assert(effects(first) + effects(second) =~= effects(first));
    } else {
        lemma_effects_concat(first, second.drop_last());
        assert((first + second).drop_last() =~= first + second.drop_last());
        assert((first + second).last() == second.last());
        match second.last().effect() {
            Some(e) => {
                assert((effects(first) + effects(second.drop_last())).push(e) =~= effects(first)
                    + effects(second.drop_last()).push(e));
            },
            None => {},
        }
    }
}

/// Holding through two stretches of actions is holding through the first
/// and then through the second.
pub proof fn lemma_held_through_concat<A: Effectful>(
    held: Seq<Resource>,
    first: Seq<A>,
    second: Seq<A>,
)
    ensures
        held_through(held, first + second) == match held_through(held, first) {
            None => None,
            Some(between) => held_through(between, second),
        },
{
    lemma_effects_concat(first, second);
    lemma_held_after_concat(held, effects(first), effects(second));
}

/// The acquisitions and releases of a single action.
pub proof fn lemma_effects_of_one<A: Effectful>(a: A)
    ensures
        effects(seq![a]) == match a.effect() {
            Some(e) => seq![e],
            None => Seq::<ResourceEvent>::empty(),
        },
{
    assert(seq![a].drop_last() =~= Seq::<A>::empty());
    assert(effects(Seq::<A>::empty()) =~= Seq::<ResourceEvent>::empty());
    match a.effect() {
        Some(e) => {
            assert(Seq::<ResourceEvent>::empty().push(e) =~= seq![e]);
        },
        None => {},
    }
}

/// What a single acquisition or release does to what is held.
pub proof fn lemma_held_after_one(held: Seq<Resource>, e: ResourceEvent)
    ensures
        held_after(held, seq![e]) == match e {
            ResourceEvent::Acquire(r) => if held.contains(r) {
                None
            } else {
                Some(held.push(r))
            },
            ResourceEvent::Release(r) => if held.len() > 0 && held.last() == r {
                Some(held.drop_last())
            } else {
                None
            },
        },
{
    assert(seq![e].drop_last() =~= Seq::<ResourceEvent>::empty());
    assert(held_after(held, Seq::<ResourceEvent>::empty()) == Some(held));
}

/// What one more action does to what is held.
pub proof fn lemma_held_through_push<A: Effectful>(held: Seq<Resource>, actions: Seq<A>, next: A)
    ensures
        held_through(held, actions.push(next)) == match held_through(held, actions) {
            None => None,
            Some(before) => match next.effect() {
                None => Some(before),
                Some(ResourceEvent::Acquire(r)) => if before.contains(r) {
                    None
                } else {
                    Some(before.push(r))
                },
                Some(ResourceEvent::Release(r)) => if before.len() > 0 && before.last() == r {
                    Some(before.drop_last())
                } else {
                    None
                },
            },
        },
{
    assert(actions.push(next) =~= actions + seq![next]);
    lemma_held_through_concat(held, actions, seq![next]);
    lemma_effects_of_one(next);
    match held_through(held, actions) {
        None => {},
        Some(before) => {
            match next.effect() {
                None => {
                    assert(held_after(before, Seq::<ResourceEvent>::empty()) == Some(before));
                },
                Some(e) => {
                    lemma_held_after_one(before, e);
                },
            }
        },
    }
}

/// No action leaves what is held as it is.
pub proof fn lemma_held_through_nothing<A: Effectful>(held: Seq<Resource>)
    ensures
        held_through(held, Seq::<A>::empty()) == Some(held),
{
    assert(effects(Seq::<A>::empty()) =~= Seq::<ResourceEvent>::empty());
}

/// How often `item` occurs among `items`.
pub open spec fn count<A>(items: Seq<A>, item: A) -> nat
    decreases items.len(),
{
    if items.len() == 0 {
        0
    } else {
        count(items.drop_last(), item) + if items.last() == item {
            1nat
        } else {
            0nat
        }
    }
}

/// Occurrences in two stretches add up.
pub proof fn lemma_count_concat<A>(first: Seq<A>, second: Seq<A>, item: A)
    ensures
        count(first + second, item) == count(first, item) + count(second, item),
    decreases second.len(),
{
    if second.len() == 0 {
        assert(first + second =~= first);
    } else {
        lemma_count_concat(first, second.drop_last(), item);
        assert((first + second).drop_last() =~= first + second.drop_last());
        assert((first + second).last() == second.last());
    }
}

/// What does not occur among the items occurs no times.
pub proof fn lemma_count_absent<A>(items: Seq<A>, item: A)
    requires
        forall|i: int| 0 <= i < items.len() ==> #[trigger] items[i] != item,
    ensures
        count(items, item) == 0,
    decreases items.len(),
{
    if items.len() > 0 {
        assert(items.last() == items[items.len() - 1]);
        assert forall|i: int| 0 <= i < items.drop_last().len() implies #[trigger] items.drop_last()[i]
            != item by {
            assert(items.drop_last()[i] == items[i]);
        }
        lemma_count_absent(items.drop_last(), item);
    }
}

/// Occurrences after one more item.
pub proof fn lemma_count_push<A>(items: Seq<A>, next: A, item: A)
    ensures
        count(items.push(next), item) == count(items, item) + if next == item {
            1nat
        } else {
            0nat
        },
{
    assert(items.push(next).drop_last() =~= items);
}

} // verus!
