//! What holds of the registry and of the distribution loop over several
//! operations, stated over the tables and steps that the contracts of the
//! operations use.

use crate::distribution::on_subscribe;
use crate::distribution::step_spec;
use crate::distribution::LoopActionView;
use crate::distribution::LoopEvent;
use crate::distribution::LoopState;
use crate::distribution::SubscriptionView;
use crate::fingerprint::chunk_fingerprint;
use crate::registry::add_outcome;
use crate::registry::after_add;
use crate::registry::after_push;
use crate::registry::after_remove;
use crate::registry::filed_by_name;
use crate::registry::no_streams;
use crate::registry::push_outcome;
use crate::registry::RegistryError;
use crate::registry::StreamTable;
use crate::stream::StreamView;
use vstd::prelude::*;

verus! {

/// Registering, removing and pushing keep every stream stored under its own
/// name.
pub proof fn law_operations_keep_filing(
    table: StreamTable,
    stream: StreamView,
    id: Seq<char>,
    chunk: Seq<u8>,
)
    requires
        filed_by_name(table),
    ensures
        filed_by_name(no_streams()),
        filed_by_name(after_add(table, stream)),
        filed_by_name(after_remove(table, id)),
        filed_by_name(after_push(table, id, chunk)),
{
}

/// Two streams with different names, neither of them registered yet, can be
/// registered one after the other; registering a name a second time is
/// refused with `AlreadyExists` and leaves the registry as it was.
pub proof fn law_create_distinct_then_duplicate(
    table: StreamTable,
    first: StreamView,
    second: StreamView,
    again: StreamView,
)
    requires
        first.stream_name != second.stream_name,
        !table.contains_key(first.stream_name),
        !table.contains_key(second.stream_name),
        again.stream_name == first.stream_name,
    ensures
        add_outcome(table, first) == Ok::<(), RegistryError>(()),
        add_outcome(after_add(table, first), second) == Ok::<(), RegistryError>(()),
        add_outcome(after_add(table, first), again) == Err::<(), RegistryError>(
            RegistryError::AlreadyExists,
        ),
        after_add(after_add(table, first), again) == after_add(table, first),
        after_add(after_add(table, first), second).contains_key(first.stream_name),
        after_add(after_add(table, first), second).contains_key(second.stream_name),
{
}

/// Removing a stream is idempotent, and removing one that is not registered
/// changes nothing.
pub proof fn law_remove_is_idempotent(table: StreamTable, id: Seq<char>)
    ensures
        after_remove(after_remove(table, id), id) == after_remove(table, id),
        !table.contains_key(id) ==> after_remove(table, id) == table,
        !after_remove(table, id).contains_key(id),
{
    assert(after_remove(after_remove(table, id), id) =~= after_remove(table, id));
    if !table.contains_key(id) {
        assert(after_remove(table, id) =~= table);
    }
}

/// Once a stream has been removed, a polling loop that follows it ends at its
/// next tick and has the connection closed, a new listener is told that the
/// stream is not found, and a push to it is refused with `NotFound`.
pub proof fn law_removal_ends_loops(table: StreamTable, sub: SubscriptionView, chunk: Seq<u8>)
    requires
        sub.state == LoopState::Polling,
    ensures
        step_spec(sub, LoopEvent::Tick, after_remove(table, sub.stream_name)) == (
            sub.in_state(LoopState::Terminated),
            LoopActionView::Close,
        ),
        on_subscribe(
            SubscriptionView::fresh(sub.stream_name, sub.fragment_len),
            after_remove(table, sub.stream_name),
        ).1 == LoopActionView::NotFound,
        push_outcome(after_remove(table, sub.stream_name), sub.stream_name) == Err::<
            (),
            RegistryError,
        >(RegistryError::NotFound),
        after_push(after_remove(table, sub.stream_name), sub.stream_name, chunk) == after_remove(
            table,
            sub.stream_name,
        ),
{
}

/// A loop that has ended stays ended whatever happens, and a disconnect ends
/// any loop at once.
pub proof fn law_termination_is_final(sub: SubscriptionView, event: LoopEvent, table: StreamTable)
    ensures
        sub.state == LoopState::Terminated ==> step_spec(sub, event, table) == (
            sub,
            LoopActionView::Close,
        ),
        step_spec(sub, LoopEvent::Disconnected, table).0.state == LoopState::Terminated,
        step_spec(sub, LoopEvent::Disconnected, table).1 == LoopActionView::Close,
{
}

/// Whatever a loop emits is the chunk that the registry holds for its stream
/// at that moment, and the fingerprint that the loop remembers is the
/// fingerprint of those very bytes.
pub proof fn law_emitted_chunk_matches_fingerprint(
    sub: SubscriptionView,
    event: LoopEvent,
    table: StreamTable,
)
    ensures
        step_spec(sub, event, table).1 matches LoopActionView::Emit(bytes) ==> {
            &&& table.contains_key(sub.stream_name)
            &&& bytes == table[sub.stream_name].chunk
            &&& step_spec(sub, event, table).0.cursor == Some(chunk_fingerprint(bytes))
            &&& step_spec(sub, event, table).0.state == LoopState::Emitting
        },
{
}

/// One round of a polling loop: a tick and, if a chunk was emitted, its
/// delivery, after which the loop polls again.
pub open spec fn poll_round(sub: SubscriptionView, table: StreamTable) -> (
    SubscriptionView,
    LoopActionView,
) {
    let ticked = step_spec(sub, LoopEvent::Tick, table);
    if ticked.1 is Emit {
        (step_spec(ticked.0, LoopEvent::Delivered, table).0, ticked.1)
    } else {
        ticked
    }
}

/// What a round emits, as a sequence of no or one chunk.
pub open spec fn emitted(action: LoopActionView) -> Seq<Seq<u8>> {
    match action {
        LoopActionView::Emit(bytes) => seq![bytes],
        _ => Seq::empty(),
    }
}

/// The loop after `rounds` rounds against an unchanging registry.
pub open spec fn after_rounds(sub: SubscriptionView, table: StreamTable, rounds: nat) -> SubscriptionView
    decreases rounds,
{
    if rounds == 0 {
        sub
    } else {
        after_rounds(poll_round(sub, table).0, table, (rounds - 1) as nat)
    }
}

/// What the loop emits in `rounds` rounds against an unchanging registry.
pub open spec fn emitted_in_rounds(sub: SubscriptionView, table: StreamTable, rounds: nat) -> Seq<
    Seq<u8>,
>
    decreases rounds,
{
    if rounds == 0 {
        Seq::empty()
    } else {
        emitted(poll_round(sub, table).1) + emitted_in_rounds(
            poll_round(sub, table).0,
            table,
            (rounds - 1) as nat,
        )
    }
}

/// A listener has caught up with a stream when the fingerprint it remembers
/// is that of the stream's current chunk.
pub open spec fn caught_up(sub: SubscriptionView, table: StreamTable) -> bool {
    &&& sub.state == LoopState::Polling
    &&& table.contains_key(sub.stream_name)
    &&& sub.cursor == Some(table[sub.stream_name].fingerprint())
}

/// A listener that has caught up is sent nothing while the registry stays as
/// it is, however often it polls.
pub proof fn law_caught_up_listener_stays_silent(
    sub: SubscriptionView,
    table: StreamTable,
    rounds: nat,
)
    requires
        caught_up(sub, table),
    ensures
        after_rounds(sub, table, rounds) == sub,
        emitted_in_rounds(sub, table, rounds) == Seq::<Seq<u8>>::empty(),
    decreases rounds,
{
    if rounds > 0 {
        law_caught_up_listener_stays_silent(sub, table, (rounds - 1) as nat);
    }
}

/// After one round against a registry that holds its stream, a polling
/// listener has caught up.
pub proof fn law_one_round_catches_up(sub: SubscriptionView, table: StreamTable)
    requires
        sub.state == LoopState::Polling,
        table.contains_key(sub.stream_name),
    ensures
        caught_up(poll_round(sub, table).0, table),
{
}

/// Polling several times between two pushes gives what polling once gives:
/// the first round decides, the later ones are silent.
pub proof fn law_extra_rounds_add_nothing(sub: SubscriptionView, table: StreamTable, rounds: nat)
    requires
        sub.state == LoopState::Polling,
        table.contains_key(sub.stream_name),
        rounds >= 1,
    ensures
        after_rounds(sub, table, rounds) == poll_round(sub, table).0,
        emitted_in_rounds(sub, table, rounds) == emitted(poll_round(sub, table).1),
{
    law_one_round_catches_up(sub, table);
    law_caught_up_listener_stays_silent(poll_round(sub, table).0, table, (rounds - 1) as nat);
}

/// Pushing again the bytes that a stream already holds leaves the registry as
/// it was, so a listener that has caught up is sent nothing more; the same
/// holds of any push whose bytes have the fingerprint that the listener
/// remembers.
pub proof fn law_repeated_push_is_not_emitted(
    sub: SubscriptionView,
    table: StreamTable,
    chunk: Seq<u8>,
    rounds: nat,
)
    requires
        caught_up(sub, table),
        chunk_fingerprint(chunk) == chunk_fingerprint(table[sub.stream_name].chunk),
    ensures
        chunk == table[sub.stream_name].chunk ==> after_push(table, sub.stream_name, chunk) == table,
        caught_up(sub, after_push(table, sub.stream_name, chunk)),
        emitted_in_rounds(sub, after_push(table, sub.stream_name, chunk), rounds) == Seq::<
            Seq<u8>,
        >::empty(),
{
    let pushed = after_push(table, sub.stream_name, chunk);
    if chunk == table[sub.stream_name].chunk {
        assert(table[sub.stream_name].with_chunk(chunk) == table[sub.stream_name]);
        assert(pushed =~= table);
    }
    law_caught_up_listener_stays_silent(sub, pushed, rounds);
}

/// What a listener is sent over a series of pushes to its stream, when after
/// the push of `pushes[i]` it polls `rounds[i]` times before the next push.
pub open spec fn observed(
    sub: SubscriptionView,
    table: StreamTable,
    pushes: Seq<Seq<u8>>,
    rounds: Seq<nat>,
) -> Seq<Seq<u8>>
    decreases pushes.len(),
{
    if pushes.len() == 0 {
        Seq::empty()
    } else {
        let pushed = after_push(table, sub.stream_name, pushes[0]);
        emitted_in_rounds(sub, pushed, rounds[0]) + observed(
            after_rounds(sub, pushed, rounds[0]),
            pushed,
            pushes.drop_first(),
            rounds.drop_first(),
        )
    }
}

/// The updates in a series of pushes, in the order of arrival: every push
/// whose bytes differ from those of the push before it. The first push is
/// compared with `seen`, the bytes that the listener was sent last, if any.
pub open spec fn distinct_updates(seen: Option<Seq<u8>>, pushes: Seq<Seq<u8>>) -> Seq<Seq<u8>>
    decreases pushes.len(),
{
    if pushes.len() == 0 {
        Seq::empty()
    } else if seen == Some(pushes[0]) {
        distinct_updates(seen, pushes.drop_first())
    } else {
        seq![pushes[0]] + distinct_updates(Some(pushes[0]), pushes.drop_first())
    }
}

/// No push has the fingerprint of the bytes before it unless it has the same
/// bytes: the series is free of colliding neighbours.
pub open spec fn free_of_collisions(seen: Option<Seq<u8>>, pushes: Seq<Seq<u8>>) -> bool
    decreases pushes.len(),
{
    if pushes.len() == 0 {
        true
    } else {
        &&& seen matches Some(bytes) ==> (chunk_fingerprint(bytes) == chunk_fingerprint(pushes[0])
            ==> bytes == pushes[0])
        &&& free_of_collisions(Some(pushes[0]), pushes.drop_first())
    }
}

/// The fingerprint that a listener remembers when the bytes it was sent last
/// are `seen`.
pub open spec fn cursor_of(seen: Option<Seq<u8>>) -> Option<u64> {
    match seen {
        Some(bytes) => Some(chunk_fingerprint(bytes)),
        None => None,
    }
}

/// Every poll count is at least one.
pub open spec fn polls_between_pushes(rounds: Seq<nat>) -> bool {
    forall|i: int| 0 <= i < rounds.len() ==> rounds[i] >= 1
}

/// A listener that polls at least once after every push to its stream is
/// sent exactly the updates, each once and in the order of arrival, provided
/// that no update collides in fingerprint with the bytes before it. So every
/// pushed payload reaches the listener, as an emission of its own or as the
/// bytes it already holds.
pub proof fn law_listener_observes_every_update(
    sub: SubscriptionView,
    table: StreamTable,
    seen: Option<Seq<u8>>,
    pushes: Seq<Seq<u8>>,
    rounds: Seq<nat>,
)
    requires
        sub.state == LoopState::Polling,
        table.contains_key(sub.stream_name),
        sub.cursor == cursor_of(seen),
        rounds.len() == pushes.len(),
        polls_between_pushes(rounds),
        free_of_collisions(seen, pushes),
    ensures
        observed(sub, table, pushes, rounds) == distinct_updates(seen, pushes),
    decreases pushes.len(),
{
    if pushes.len() > 0 {
        let pushed = after_push(table, sub.stream_name, pushes[0]);
        assert(pushed[sub.stream_name].chunk == pushes[0]);
        law_extra_rounds_add_nothing(sub, pushed, rounds[0]);
        let next = poll_round(sub, pushed).0;
        assert(next.cursor == cursor_of(Some(pushes[0])));
        assert(polls_between_pushes(rounds.drop_first())) by {
            assert forall|i: int| 0 <= i < rounds.drop_first().len() implies rounds.drop_first()[i]
                >= 1 by {
                assert(rounds.drop_first()[i] == rounds[i + 1]);
            }
        }
        law_listener_observes_every_update(
            next,
            pushed,
            Some(pushes[0]),
            pushes.drop_first(),
            rounds.drop_first(),
        );
        if seen == Some(pushes[0]) {
            assert(emitted(poll_round(sub, pushed).1) == Seq::<Seq<u8>>::empty());
            assert(Seq::<Seq<u8>>::empty() + distinct_updates(seen, pushes.drop_first())
                =~= distinct_updates(seen, pushes.drop_first()));
        } else {
            assert(emitted(poll_round(sub, pushed).1) == seq![pushes[0]]);
        }
    }
}

/// What each of several listeners is sent over a series of pushes to the
/// stream called `id`, when after every push each of them polls once, one
/// listener after the other, against the same registry.
pub open spec fn fan_out_observed(
    subs: Seq<SubscriptionView>,
    table: StreamTable,
    id: Seq<char>,
    pushes: Seq<Seq<u8>>,
) -> Seq<Seq<Seq<u8>>>
    decreases pushes.len(),
{
    if pushes.len() == 0 {
        Seq::new(subs.len(), |i: int| Seq::empty())
    } else {
        let pushed = after_push(table, id, pushes[0]);
        let polled = Seq::new(subs.len(), |i: int| poll_round(subs[i], pushed).0);
        let later = fan_out_observed(polled, pushed, id, pushes.drop_first());
        Seq::new(subs.len(), |i: int| emitted(poll_round(subs[i], pushed).1) + later[i])
    }
}

/// One poll after each of `count` pushes.
pub open spec fn once_each(count: nat) -> Seq<nat> {
    Seq::new(count, |i: int| 1nat)
}

/// However many listeners follow a stream, each is sent what it would be
/// sent if it were the only one: a poll reads the registry and leaves it as
/// it is, so no listener changes what another one sees.
pub proof fn law_fan_out_is_independent(
    subs: Seq<SubscriptionView>,
    table: StreamTable,
    id: Seq<char>,
    pushes: Seq<Seq<u8>>,
)
    requires
        forall|i: int| 0 <= i < subs.len() ==> (#[trigger] subs[i]).stream_name == id,
    ensures
        fan_out_observed(subs, table, id, pushes).len() == subs.len(),
        forall|i: int|
            0 <= i < subs.len() ==> #[trigger] fan_out_observed(subs, table, id, pushes)[i]
                == observed(subs[i], table, pushes, once_each(pushes.len())),
    decreases pushes.len(),
{
    if pushes.len() > 0 {
        let pushed = after_push(table, id, pushes[0]);
        let polled = Seq::new(subs.len(), |i: int| poll_round(subs[i], pushed).0);
        assert forall|i: int| 0 <= i < polled.len() implies (#[trigger] polled[i]).stream_name
            == id by {
            assert(subs[i].stream_name == id);
        }
        law_fan_out_is_independent(polled, pushed, id, pushes.drop_first());
        let later = fan_out_observed(polled, pushed, id, pushes.drop_first());
        assert(once_each(pushes.len()).drop_first() =~= once_each(pushes.drop_first().len()));
        assert forall|i: int| 0 <= i < subs.len() implies #[trigger] fan_out_observed(
            subs,
            table,
            id,
            pushes,
        )[i] == observed(subs[i], table, pushes, once_each(pushes.len())) by {
            assert(subs[i].stream_name == id);
            assert(later[i] == observed(
                polled[i],
                pushed,
                pushes.drop_first(),
                once_each(pushes.drop_first().len()),
            ));
            assert(once_each(pushes.len())[0] == 1);
            reveal_with_fuel(emitted_in_rounds, 2);
            reveal_with_fuel(after_rounds, 2);
            assert(emitted_in_rounds(subs[i], pushed, 1) =~= emitted(
                poll_round(subs[i], pushed).1,
            ));
            assert(after_rounds(subs[i], pushed, 1) == polled[i]);
        }
    }
}

/// With any number of listeners, each polling after every push, every
/// listener is sent exactly the updates in the order of arrival, provided
/// that for it no update collides in fingerprint with the bytes before it.
pub proof fn law_fan_out_delivers_every_update(
    subs: Seq<SubscriptionView>,
    seen: Seq<Option<Seq<u8>>>,
    table: StreamTable,
    id: Seq<char>,
    pushes: Seq<Seq<u8>>,
)
    requires
        table.contains_key(id),
        seen.len() == subs.len(),
        forall|i: int|
            0 <= i < subs.len() ==> {
                &&& (#[trigger] subs[i]).stream_name == id
                &&& subs[i].state == LoopState::Polling
                &&& subs[i].cursor == cursor_of(seen[i])
                &&& free_of_collisions(seen[i], pushes)
            },
    ensures
        fan_out_observed(subs, table, id, pushes).len() == subs.len(),
        forall|i: int|
            0 <= i < subs.len() ==> #[trigger] fan_out_observed(subs, table, id, pushes)[i]
                == distinct_updates(seen[i], pushes),
{
    law_fan_out_is_independent(subs, table, id, pushes);
    assert forall|i: int| 0 <= i < subs.len() implies #[trigger] fan_out_observed(
        subs,
        table,
        id,
        pushes,
    )[i] == distinct_updates(seen[i], pushes) by {
        assert(subs[i].stream_name == id);
        law_listener_observes_every_update(
            subs[i],
            table,
            seen[i],
            pushes,
            once_each(pushes.len()),
        );
    }
}

} // verus!
