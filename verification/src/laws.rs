//! What holds of every bridge, proved over its states.
//!
//! Each statement below speaks of [`BridgeState`] and its transitions, the
//! same values in which the operations of the bridge state their results.

use vstd::prelude::*;
use crate::bridge::BridgeState;
use crate::channel::BridgeError;
use crate::events::{DomainEvent, VisualizationCommand};

verus! {

/// The number of events that a state can still accept.
pub open spec fn free_event_slots(state: BridgeState) -> nat {
    if state.events.len() <= state.capacity {
        (state.capacity - state.events.len()) as nat
    } else {
        0
    }
}

/// The number of commands that a state can still accept.
pub open spec fn free_command_slots(state: BridgeState) -> nat {
    if !state.command_receiver_open {
        0
    } else if state.commands.len() <= state.capacity {
        (state.capacity - state.commands.len()) as nat
    } else {
        0
    }
}

/// The smaller of two numbers.
pub open spec fn least(a: nat, b: nat) -> nat {
    if a <= b {
        a
    } else {
        b
    }
}

/// Sending events one after the other queues them in order for as long as
/// there is room, refuses every later one with `ChannelFull`, and touches
/// nothing else.
pub proof fn lemma_send_events(state: BridgeState, events: Seq<DomainEvent>)
    ensures
        state.send_events(events).events == state.events + events.take(
            least(events.len(), free_event_slots(state)) as int,
        ),
        state.send_events(events).capacity == state.capacity,
        state.send_events(events).commands == state.commands,
        state.send_events(events).command_receiver_open == state.command_receiver_open,
        state.event_outcomes(events).len() == events.len(),
        forall|i: int|
            0 <= i < events.len() ==> #[trigger] state.event_outcomes(events)[i] == (if i
                < free_event_slots(state) {
                Ok::<(), BridgeError>(())
            } else {
                Err::<(), BridgeError>(BridgeError::ChannelFull)
            }),
    decreases events.len(),
{
    if events.len() == 0 {
        assert(state.send_events(events).events =~= state.events + events.take(0));
    } else {
        let front = events.drop_last();
        lemma_send_events(state, front);
        let free = free_event_slots(state);
        let kept = least(front.len(), free);
        assert(front.take(kept as int) =~= events.take(kept as int));
        if front.len() < free {
            assert(events.take(kept as int + 1) =~= events.take(kept as int).push(events.last()));
            assert(state.send_events(events).events =~= state.events + events.take(
                kept as int + 1,
            ));
        }
        assert forall|i: int| 0 <= i < events.len() implies #[trigger] state.event_outcomes(
            events,
        )[i] == (if i < free {
            Ok::<(), BridgeError>(())
        } else {
            Err::<(), BridgeError>(BridgeError::ChannelFull)
        }) by {
            if i < front.len() {
                assert(state.event_outcomes(events)[i] == state.event_outcomes(front)[i]);
            }
        }
    }
}

/// First in, first out, nothing lost and nothing twice: where the events
/// sent fit into the queue, each is accepted, and the next drain hands out
/// what waited before followed by exactly those events, in the order in
/// which they were sent.
pub proof fn lemma_fifo(state: BridgeState, events: Seq<DomainEvent>)
    requires
        state.events.len() + events.len() <= state.capacity,
    ensures
        state.send_events(events).events == state.events + events,
        forall|i: int|
            0 <= i < events.len() ==> #[trigger] state.event_outcomes(events)[i] is Ok,
        state.send_events(events).drain_events().events == Seq::<DomainEvent>::empty(),
{
    lemma_send_events(state, events);
    assert(events.take(events.len() as int) =~= events);
}

/// Backpressure: of the events sent to a queue with `free` slots left, the
/// first `free` are accepted and every one beyond them is refused with
/// `ChannelFull`; the queue then holds what it held, followed by the
/// accepted events.
pub proof fn lemma_excess_is_refused(state: BridgeState, events: Seq<DomainEvent>)
    requires
        state.wf(),
        events.len() >= free_event_slots(state),
    ensures
        state.send_events(events).events == state.events + events.take(
            free_event_slots(state) as int,
        ),
        state.send_events(events).events.len() == state.capacity,
        forall|i: int|
            0 <= i < events.len() ==> (#[trigger] state.event_outcomes(events)[i] is Ok <==> i
                < free_event_slots(state)),
        forall|i: int|
            free_event_slots(state) <= i < events.len() ==> #[trigger] state.event_outcomes(
                events,
            )[i] == Err::<(), BridgeError>(BridgeError::ChannelFull),
{
    lemma_send_events(state, events);
}

/// A state stays well formed whatever is sent, drained or closed.
pub proof fn lemma_wf_is_kept(
    state: BridgeState,
    event: DomainEvent,
    command: VisualizationCommand,
)
    requires
        state.wf(),
    ensures
        BridgeState::empty(state.capacity).wf(),
        state.send_event(event).wf(),
        state.send_command(command).wf(),
        state.drain_events().wf(),
        state.drain_commands().wf(),
        state.close_command_receiver().wf(),
{
}

/// Sending commands one after the other queues them in order for as long as
/// a receiving endpoint is held and there is room, and touches nothing
/// else. Every refusal is `ChannelDisconnected` without a receiving
/// endpoint and `ChannelFull` with one.
pub proof fn lemma_send_commands(state: BridgeState, commands: Seq<VisualizationCommand>)
    requires
        state.wf(),
    ensures
        state.send_commands(commands).commands == state.commands + commands.take(
            least(commands.len(), free_command_slots(state)) as int,
        ),
        state.send_commands(commands).capacity == state.capacity,
        state.send_commands(commands).events == state.events,
        state.send_commands(commands).command_receiver_open == state.command_receiver_open,
        state.command_outcomes(commands).len() == commands.len(),
        forall|i: int|
            0 <= i < commands.len() ==> #[trigger] state.command_outcomes(commands)[i] == (if i
                < free_command_slots(state) {
                Ok::<(), BridgeError>(())
            } else if state.command_receiver_open {
                Err::<(), BridgeError>(BridgeError::ChannelFull)
            } else {
                Err::<(), BridgeError>(BridgeError::ChannelDisconnected)
            }),
    decreases commands.len(),
{
    if commands.len() == 0 {
        assert(state.send_commands(commands).commands =~= state.commands + commands.take(0));
    } else {
        let front = commands.drop_last();
        lemma_send_commands(state, front);
        let free = free_command_slots(state);
        let kept = least(front.len(), free);
        assert(front.take(kept as int) =~= commands.take(kept as int));
        if front.len() < free {
            assert(commands.take(kept as int + 1) =~= commands.take(kept as int).push(
                commands.last(),
            ));
            assert(state.send_commands(commands).commands =~= state.commands + commands.take(
                kept as int + 1,
            ));
        }
        assert forall|i: int| 0 <= i < commands.len() implies #[trigger] state.command_outcomes(
            commands,
        )[i] == (if i < free {
            Ok::<(), BridgeError>(())
        } else if state.command_receiver_open {
            Err::<(), BridgeError>(BridgeError::ChannelFull)
        } else {
            Err::<(), BridgeError>(BridgeError::ChannelDisconnected)
        }) by {
            if i < front.len() {
                assert(state.command_outcomes(commands)[i] == state.command_outcomes(front)[i]);
            }
        }
    }
}

/// Disconnection is final: once the receiving endpoint for commands is
/// given up, every command sent afterwards is refused with
/// `ChannelDisconnected`, and none of them is queued.
pub proof fn lemma_closed_receiver_refuses(
    state: BridgeState,
    commands: Seq<VisualizationCommand>,
)
    requires
        state.wf(),
    ensures
        state.close_command_receiver().command_outcome() == Err::<(), BridgeError>(
            BridgeError::ChannelDisconnected,
        ),
        state.close_command_receiver().send_commands(commands)
            == state.close_command_receiver(),
        forall|i: int|
            0 <= i < commands.len() ==> #[trigger] state.close_command_receiver().command_outcomes(
                commands,
            )[i] == Err::<(), BridgeError>(BridgeError::ChannelDisconnected),
{
    let closed = state.close_command_receiver();
    lemma_send_commands(closed, commands);
    assert(closed.send_commands(commands).commands =~= closed.commands);
    assert(closed.send_commands(commands) =~= closed);
}

/// Round trip: an event sent to an empty bridge is what the next drain
/// hands out, alone and unchanged; a command sent back afterwards is what
/// the domain side then receives, alone and unchanged; and the bridge is
/// empty again.
pub proof fn lemma_round_trip(capacity: nat, event: DomainEvent, command: VisualizationCommand)
    requires
        capacity >= 1,
    ensures
        BridgeState::empty(capacity).event_outcome() is Ok,
        BridgeState::empty(capacity).send_event(event).events == seq![event],
        BridgeState::empty(capacity).send_event(event).drain_events() == BridgeState::empty(
            capacity,
        ),
        BridgeState::empty(capacity).command_outcome() is Ok,
        BridgeState::empty(capacity).send_command(command).commands == seq![command],
        BridgeState::empty(capacity).send_command(command).drain_commands()
            == BridgeState::empty(capacity),
{
    let start = BridgeState::empty(capacity);
    assert(start.send_event(event).events =~= seq![event]);
    assert(start.send_event(event).drain_events() =~= start);
    assert(start.send_command(command).commands =~= seq![command]);
    assert(start.send_command(command).drain_commands() =~= start);
}

} // verus!
