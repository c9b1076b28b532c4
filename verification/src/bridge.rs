//! The bridge between the domain side and the visual side.
//!
//! The bridge owns two bounded queues. Domain events wait in one until the
//! visual layer drains them on its tick; visualization commands wait in the
//! other until the domain side takes them. No operation blocks: a message
//! that cannot be queued is refused at once, and a drain takes what is there.
//!
//! The contracts describe the bridge by a plain value, [`BridgeState`], and
//! by the transitions of that value. They are exact as long as the bridge
//! alone can reach a queue, that is until an endpoint of that queue has been
//! handed to another owner.

use vstd::prelude::*;
pub use crate::channel::BridgeError;
use crate::channel::{Channel, MAX_CAPACITY};
use crate::events::{BridgeMessage, DomainEvent, VisualizationCommand};

verus! {

/// The domain events among `messages`, should all of them be events.
pub open spec fn events_of(messages: Seq<BridgeMessage>) -> Seq<DomainEvent> {
    Seq::new(messages.len(), |i: int| messages[i]->Event_0)
}

/// The commands among `messages`, should all of them be commands.
pub open spec fn commands_of(messages: Seq<BridgeMessage>) -> Seq<VisualizationCommand> {
    Seq::new(messages.len(), |i: int| messages[i]->Command_0)
}

/// Every one of `messages` is a domain event.
pub open spec fn all_events(messages: Seq<BridgeMessage>) -> bool {
    forall|i: int| 0 <= i < messages.len() ==> #[trigger] messages[i] is Event
}

/// Every one of `messages` is a visualization command.
pub open spec fn all_commands(messages: Seq<BridgeMessage>) -> bool {
    forall|i: int| 0 <= i < messages.len() ==> #[trigger] messages[i] is Command
}

/// What a bridge holds at one moment.
#[verifier::ext_equal]
pub struct BridgeState {
    /// The number of messages that each queue may hold.
    pub capacity: nat,
    /// The domain events that wait for the visual layer, oldest first.
    pub events: Seq<DomainEvent>,
    /// The commands that wait for the domain side, oldest first.
    pub commands: Seq<VisualizationCommand>,
    /// Whether a receiving endpoint for commands is still held.
    pub command_receiver_open: bool,
}

impl BridgeState {
    /// A bridge of the given capacity in which nothing waits.
    pub open spec fn empty(capacity: nat) -> Self {
        BridgeState {
            capacity,
            events: Seq::empty(),
            commands: Seq::empty(),
            command_receiver_open: true,
        }
    }

    /// No queue holds more than its capacity, and commands wait only while
    /// someone can receive them.
    pub open spec fn wf(self) -> bool {
        &&& self.events.len() <= self.capacity
        &&& self.commands.len() <= self.capacity
        &&& !self.command_receiver_open ==> self.commands.len() == 0
    }

    /// What sending one domain event gives: it is refused as full where as
    /// many events wait as the capacity allows, and accepted otherwise.
    pub open spec fn event_outcome(self) -> Result<(), BridgeError> {
        if self.events.len() < self.capacity {
            Ok(())
        } else {
            Err(BridgeError::ChannelFull)
        }
    }

    /// The state after sending `event`: an accepted event waits behind all
    /// others, a refused one leaves no trace.
    pub open spec fn send_event(self, event: DomainEvent) -> Self {
        if self.event_outcome() is Ok {
            BridgeState { events: self.events.push(event), ..self }
        } else {
            self
        }
    }

    /// The state after the visual layer has drained the domain events.
    pub open spec fn drain_events(self) -> Self {
        BridgeState { events: Seq::empty(), ..self }
    }

    /// What sending one command gives: it is refused as disconnected where
    /// no receiving endpoint is left, else as full where as many commands
    /// wait as the capacity allows, and accepted otherwise.
    pub open spec fn command_outcome(self) -> Result<(), BridgeError> {
        if !self.command_receiver_open {
            Err(BridgeError::ChannelDisconnected)
        } else if self.commands.len() < self.capacity {
            Ok(())
        } else {
            Err(BridgeError::ChannelFull)
        }
    }

    /// The state after sending `command`.
    pub open spec fn send_command(self, command: VisualizationCommand) -> Self {
        if self.command_outcome() is Ok {
            BridgeState { commands: self.commands.push(command), ..self }
        } else {
            self
        }
    }

    /// The state after the domain side has drained the commands.
    pub open spec fn drain_commands(self) -> Self {
        BridgeState { commands: Seq::empty(), ..self }
    }

    /// The state after the receiving endpoint for commands was given up:
    /// what waited there can no longer be received.
    pub open spec fn close_command_receiver(self) -> Self {
        BridgeState { commands: Seq::empty(), command_receiver_open: false, ..self }
    }

    /// The state after sending `events` one after the other.
    pub open spec fn send_events(self, events: Seq<DomainEvent>) -> Self
        decreases events.len(),
    {
        if events.len() == 0 {
            self
        } else {
            self.send_events(events.drop_last()).send_event(events.last())
        }
    }

    /// What each of `events` is answered with when they are sent one after
    /// the other.
    pub open spec fn event_outcomes(self, events: Seq<DomainEvent>) -> Seq<Result<(), BridgeError>>
        decreases events.len(),
    {
        if events.len() == 0 {
            Seq::empty()
        } else {
            self.event_outcomes(events.drop_last()).push(
                self.send_events(events.drop_last()).event_outcome(),
            )
        }
    }

    /// The state after sending `commands` one after the other.
    pub open spec fn send_commands(self, commands: Seq<VisualizationCommand>) -> Self
        decreases commands.len(),
    {
        if commands.len() == 0 {
            self
        } else {
            self.send_commands(commands.drop_last()).send_command(commands.last())
        }
    }

    /// What each of `commands` is answered with when they are sent one after
    /// the other.
    pub open spec fn command_outcomes(self, commands: Seq<VisualizationCommand>) -> Seq<
        Result<(), BridgeError>,
    >
        decreases commands.len(),
    {
        if commands.len() == 0 {
            Seq::empty()
        } else {
            self.command_outcomes(commands.drop_last()).push(
                self.send_commands(commands.drop_last()).command_outcome(),
            )
        }
    }
}

/// The bridge between the domain side, which produces events at its own
/// pace, and the visual side, which runs once per tick and must not wait.
pub struct AsyncSyncBridge {
    /// Carries domain events towards the visual layer.
    inbound: Channel,
    /// Carries visualization commands towards the domain.
    outbound: Channel,
    capacity: usize,
}

impl View for AsyncSyncBridge {
    type V = BridgeState;

    closed spec fn view(&self) -> BridgeState {
        BridgeState {
            capacity: self.capacity as nat,
            events: events_of(self.inbound.messages()),
            commands: commands_of(self.outbound.messages()),
            command_receiver_open: self.outbound.receiver_open(),
        }
    }
}

impl AsyncSyncBridge {
    /// No sending endpoint for domain events has been handed out: what the
    /// contracts say of the waiting events is exact.
    pub closed spec fn owns_event_queue(self) -> bool {
        self.inbound.exclusive()
    }

    /// No receiving endpoint for commands has been handed out: what the
    /// contracts say of the waiting commands is exact.
    pub closed spec fn owns_command_queue(self) -> bool {
        self.outbound.exclusive()
    }

    /// The side of the bridge that carries commands is the same in both.
    pub open spec fn same_command_side(self, other: Self) -> bool {
        &&& self@.commands == other@.commands
        &&& self@.command_receiver_open == other@.command_receiver_open
        &&& self.owns_command_queue() == other.owns_command_queue()
    }

    /// The side of the bridge that carries domain events is the same in both.
    pub open spec fn same_event_side(self, other: Self) -> bool {
        &&& self@.events == other@.events
        &&& self.owns_event_queue() == other.owns_event_queue()
    }

    #[verifier::type_invariant]
    spec fn inv(self) -> bool {
        &&& self.inbound.receiver_open()
        &&& self.inbound.limit() == self.capacity
        &&& self.outbound.limit() == self.capacity
        &&& self.inbound.exclusive() ==> all_events(self.inbound.messages())
        &&& self.outbound.exclusive() ==> all_commands(self.outbound.messages())
    }

    /// A bridge whose two queues hold up to `capacity` messages each. Both
    /// queues are empty and reachable through the bridge alone.
    pub fn new(capacity: usize) -> (bridge: Self)
        requires
            capacity <= MAX_CAPACITY,
        ensures
            bridge@ == BridgeState::empty(capacity as nat),
            bridge.owns_event_queue(),
            bridge.owns_command_queue(),
    {
        let bridge = AsyncSyncBridge {
            inbound: Channel::new(capacity),
            outbound: Channel::new(capacity),
            capacity,
        };
        assert(bridge@.events =~= Seq::<DomainEvent>::empty());
        assert(bridge@.commands =~= Seq::<VisualizationCommand>::empty());
        bridge
    }

    /// The number of messages that each queue may hold. While the bridge
    /// alone can reach its queues, its state is well formed.
    pub fn capacity(&self) -> (capacity: usize)
        ensures
            capacity == self@.capacity,
            capacity <= MAX_CAPACITY,
            self.owns_event_queue() ==> self@.events.len() <= self@.capacity,
            self.owns_command_queue() ==> self@.commands.len() <= self@.capacity,
            self.owns_command_queue() && !self@.command_receiver_open ==> self@.commands.len()
                == 0,
    {
        proof {
            use_type_invariant(self);
        }
        let _ = self.inbound.capacity();
        let _ = self.outbound.capacity();
        self.capacity
    }

    /// Queues a domain event for the visual layer. A full queue refuses the
    /// event with `ChannelFull`; the caller never waits.
    pub fn send_domain_event(&mut self, event: DomainEvent) -> (sent: Result<(), BridgeError>)
        ensures
            final(self)@.capacity == old(self)@.capacity,
            final(self).same_command_side(*old(self)),
            final(self).owns_event_queue() == old(self).owns_event_queue(),
            old(self).owns_event_queue() ==> {
                &&& sent == old(self)@.event_outcome()
                &&& final(self)@ == old(self)@.send_event(event)
            },
    {
        proof {
            use_type_invariant(&*self);
        }
        let ghost before = self.inbound.messages();
        proof {
            if self.inbound.exclusive() {
                assert(all_events(before.push(BridgeMessage::Event(event))));
            }
        }
        let sent = self.inbound.try_send(BridgeMessage::Event(event));
        proof {
            if old(self).owns_event_queue() {
                if sent is Ok {
                    assert(events_of(before.push(BridgeMessage::Event(event))) =~= events_of(
                        before,
                    ).push(event));
                }
            }
        }
        sent
    }

    /// Takes every waiting domain event, oldest first, without waiting for
    /// more. At most as many events are taken as the queue may hold.
    pub fn receive_domain_events(&mut self) -> (events: Vec<DomainEvent>)
        ensures
            final(self)@.capacity == old(self)@.capacity,
            final(self).same_command_side(*old(self)),
            final(self).owns_event_queue() == old(self).owns_event_queue(),
            events@.len() <= old(self)@.capacity,
            old(self).owns_event_queue() ==> {
                &&& events@ == old(self)@.events
                &&& final(self)@ == old(self)@.drain_events()
            },
    {
        proof {
            use_type_invariant(&*self);
        }
        let _ = self.inbound.capacity();
        let ghost waiting = self.inbound.messages();
        let mut events: Vec<DomainEvent> = Vec::new();
        let mut budget: usize = self.capacity;
        while budget > 0
            invariant_except_break
                self.inbound.exclusive() ==> {
                    &&& all_events(waiting)
                    &&& waiting.len() <= self.capacity
                    &&& events@.len() == self.capacity - budget
                    &&& events@.len() <= waiting.len()
                    &&& events@ == events_of(waiting.take(events@.len() as int))
                    &&& self.inbound.messages() == waiting.skip(events@.len() as int)
                },
            invariant
                budget <= self.capacity,
                self.capacity == old(self).capacity,
                self.outbound == old(self).outbound,
                self.inbound.limit() == self.capacity,
                self.inbound.receiver_open(),
                self.inbound.exclusive() == old(self).inbound.exclusive(),
                events@.len() <= self.capacity - budget,
            ensures
                self.capacity == old(self).capacity,
                self.outbound == old(self).outbound,
                self.inbound.limit() == self.capacity,
                self.inbound.receiver_open(),
                self.inbound.exclusive() == old(self).inbound.exclusive(),
                events@.len() <= self.capacity,
                self.inbound.exclusive() ==> {
                    &&& events@ == events_of(waiting)
                    &&& self.inbound.messages() == Seq::<BridgeMessage>::empty()
                },
            decreases budget,
        {
            let ghost taken = events@.len() as int;
            proof {
                use_type_invariant(&*self);
                if self.inbound.exclusive() && taken < waiting.len() {
                    assert(all_events(waiting.skip(taken).drop_first())) by {
                        assert forall|i: int|
                            0 <= i < waiting.skip(taken).drop_first().len() implies #[trigger] waiting.skip(
                            taken,
                        ).drop_first()[i] is Event by {
                            assert(waiting.skip(taken).drop_first()[i] == waiting[taken + 1 + i]);
                        }
                    }
                }
            }
            let received = self.inbound.try_recv();
            budget = budget - 1;
            match received {
                Some(BridgeMessage::Event(event)) => {
                    events.push(event);
                    proof {
                        if self.inbound.exclusive() {
                            assert(waiting.skip(taken)[0] == waiting[taken]);
                            assert(waiting.skip(taken).drop_first() =~= waiting.skip(taken + 1));
                            assert(events@ =~= events_of(waiting.take(taken + 1)));
                        }
                    }
                },
                Some(BridgeMessage::Command(_)) => {
                    proof {
                        if self.inbound.exclusive() {
                            assert(waiting.skip(taken)[0] == waiting[taken]);
                            assert(false);
                        }
                    }
                },
                None => {
                    proof {
                        if self.inbound.exclusive() {
                            assert(waiting.skip(taken).len() == 0);
                            assert(waiting.take(taken) =~= waiting);
                        }
                    }
                    break ;
                },
            }
            proof {
                if self.inbound.exclusive() && budget == 0 {
                    assert(waiting.take(events@.len() as int) =~= waiting);
                    assert(waiting.skip(events@.len() as int) =~= Seq::<BridgeMessage>::empty());
                }
            }
        }
        proof {
            if old(self).owns_event_queue() {
                assert(self@.events =~= Seq::<DomainEvent>::empty());
            }
        }
        events
    }

    /// Queues a command for the domain side. The command is refused with
    /// `ChannelDisconnected` where no receiving endpoint is left and with
    /// `ChannelFull` where the queue is full; the caller never waits.
    pub fn send_command(&mut self, command: VisualizationCommand) -> (sent: Result<
        (),
        BridgeError,
    >)
        ensures
            final(self)@.capacity == old(self)@.capacity,
            final(self).same_event_side(*old(self)),
            final(self).owns_command_queue() == old(self).owns_command_queue(),
            final(self)@.command_receiver_open == old(self)@.command_receiver_open,
            old(self).owns_command_queue() ==> {
                &&& sent == old(self)@.command_outcome()
                &&& final(self)@ == old(self)@.send_command(command)
            },
    {
        proof {
            use_type_invariant(&*self);
        }
        let ghost before = self.outbound.messages();
        proof {
            if self.outbound.exclusive() {
                assert(all_commands(before.push(BridgeMessage::Command(command))));
            }
        }
        let sent = self.outbound.try_send(BridgeMessage::Command(command));
        proof {
            if old(self).owns_command_queue() {
                if sent is Ok {
                    assert(commands_of(before.push(BridgeMessage::Command(command)))
                        =~= commands_of(before).push(command));
                }
            }
        }
        sent
    }

    /// Takes every waiting command, oldest first, without waiting for more:
    /// the drain of the domain side. At most as many commands are taken as
    /// the queue may hold, and none once the receiving endpoint was given up.
    pub fn receive_commands(&mut self) -> (commands: Vec<VisualizationCommand>)
        ensures
            final(self)@.capacity == old(self)@.capacity,
            final(self).same_event_side(*old(self)),
            final(self).owns_command_queue() == old(self).owns_command_queue(),
            commands@.len() <= old(self)@.capacity,
            old(self).owns_command_queue() ==> {
                &&& commands@ == old(self)@.commands
                &&& final(self)@ == old(self)@.drain_commands()
            },
    {
        proof {
            use_type_invariant(&*self);
        }
        let _ = self.outbound.capacity();
        let ghost waiting = self.outbound.messages();
        let mut commands: Vec<VisualizationCommand> = Vec::new();
        let mut budget: usize = self.capacity;
        while budget > 0
            invariant_except_break
                self.outbound.exclusive() ==> {
                    &&& all_commands(waiting)
                    &&& waiting.len() <= self.capacity
                    &&& commands@.len() == self.capacity - budget
                    &&& commands@.len() <= waiting.len()
                    &&& commands@ == commands_of(waiting.take(commands@.len() as int))
                    &&& self.outbound.messages() == waiting.skip(commands@.len() as int)
                },
            invariant
                budget <= self.capacity,
                self.capacity == old(self).capacity,
                self.inbound == old(self).inbound,
                self.outbound.limit() == self.capacity,
                self.outbound.receiver_open() == old(self).outbound.receiver_open(),
                self.outbound.exclusive() == old(self).outbound.exclusive(),
                commands@.len() <= self.capacity - budget,
            ensures
                self.capacity == old(self).capacity,
                self.inbound == old(self).inbound,
                self.outbound.limit() == self.capacity,
                self.outbound.receiver_open() == old(self).outbound.receiver_open(),
                self.outbound.exclusive() == old(self).outbound.exclusive(),
                commands@.len() <= self.capacity,
                self.outbound.exclusive() ==> {
                    &&& commands@ == commands_of(waiting)
                    &&& self.outbound.messages() == Seq::<BridgeMessage>::empty()
                },
            decreases budget,
        {
            let ghost taken = commands@.len() as int;
            proof {
                use_type_invariant(&*self);
                if self.outbound.exclusive() && taken < waiting.len() {
                    assert(all_commands(waiting.skip(taken).drop_first())) by {
                        assert forall|i: int|
                            0 <= i < waiting.skip(taken).drop_first().len() implies #[trigger] waiting.skip(
                            taken,
                        ).drop_first()[i] is Command by {
                            assert(waiting.skip(taken).drop_first()[i] == waiting[taken + 1 + i]);
                        }
                    }
                }
            }
            let received = self.outbound.try_recv();
            budget = budget - 1;
            match received {
                Some(BridgeMessage::Command(command)) => {
                    commands.push(command);
                    proof {
                        if self.outbound.exclusive() {
                            assert(waiting.skip(taken)[0] == waiting[taken]);
                            assert(waiting.skip(taken).drop_first() =~= waiting.skip(taken + 1));
                            assert(commands@ =~= commands_of(waiting.take(taken + 1)));
                        }
                    }
                },
                Some(BridgeMessage::Event(_)) => {
                    proof {
                        if self.outbound.exclusive() {
                            assert(waiting.skip(taken)[0] == waiting[taken]);
                            assert(false);
                        }
                    }
                },
                None => {
                    proof {
                        if self.outbound.exclusive() {
                            assert(waiting.skip(taken).len() == 0);
                            assert(waiting.take(taken) =~= waiting);
                        }
                    }
                    break ;
                },
            }
            proof {
                if self.outbound.exclusive() && budget == 0 {
                    assert(waiting.take(commands@.len() as int) =~= waiting);
                    assert(waiting.skip(commands@.len() as int) =~= Seq::<BridgeMessage>::empty());
                }
            }
        }
        proof {
            if old(self).owns_command_queue() {
                assert(self@.commands =~= Seq::<VisualizationCommand>::empty());
            }
        }
        commands
    }

    /// A sending endpoint for the domain side, which may queue events from
    /// any thread and at its own pace. From now on the queue of events can
    /// change between two calls of the bridge.
    pub fn domain_sender(&mut self) -> (handle: crossbeam_channel::Sender<BridgeMessage>)
        ensures
            final(self)@.capacity == old(self)@.capacity,
            final(self).same_command_side(*old(self)),
            !final(self).owns_event_queue(),
    {
        proof {
            use_type_invariant(&*self);
        }
        self.inbound.sender_handle()
    }

    /// A receiving endpoint for the domain side, which may drain commands at
    /// its own pace, or `None` once the bridge has given its own up. From
    /// now on the queue of commands can change between two calls of the
    /// bridge. The bridge keeps an endpoint of its own; while it does, no
    /// command is refused as disconnected, so a bridge that is to notice
    /// that the domain side has gone gives its own endpoint up with
    /// `close_command_receiver`.
    pub fn command_receiver(&mut self) -> (handle: Option<
        crossbeam_channel::Receiver<BridgeMessage>,
    >)
        ensures
            final(self)@.capacity == old(self)@.capacity,
            final(self).same_event_side(*old(self)),
            final(self)@.command_receiver_open == old(self)@.command_receiver_open,
            handle is Some <==> old(self)@.command_receiver_open,
            handle is Some ==> !final(self).owns_command_queue(),
            handle is None ==> final(self).same_command_side(*old(self)),
    {
        proof {
            use_type_invariant(&*self);
        }
        self.outbound.receiver_handle()
    }

    /// Gives up the bridge's own receiving endpoint for commands. What
    /// waited there is lost. Once no receiving endpoint is left anywhere,
    /// every command is refused with `ChannelDisconnected`.
    pub fn close_command_receiver(&mut self)
        ensures
            final(self)@ == old(self)@.close_command_receiver(),
            final(self).same_event_side(*old(self)),
            final(self).owns_command_queue() == old(self).owns_command_queue(),
    {
        proof {
            use_type_invariant(&*self);
        }
        self.outbound.close_receiver();
        assert(self@.commands =~= Seq::<VisualizationCommand>::empty());
    }
}

/// The inbound half of a tick: drains the domain events and appends them, in
/// arrival order, to the host's queue of events for this tick. Returns how
/// many were appended.
pub fn process_domain_events(bridge: &mut AsyncSyncBridge, host_events: &mut Vec<DomainEvent>) -> (count: usize)
    ensures
        final(bridge)@.capacity == old(bridge)@.capacity,
        final(bridge).same_command_side(*old(bridge)),
        final(bridge).owns_event_queue() == old(bridge).owns_event_queue(),
        count <= old(bridge)@.capacity,
        final(host_events)@.len() == old(host_events)@.len() + count,
        final(host_events)@.take(old(host_events)@.len() as int) == old(host_events)@,
        old(bridge).owns_event_queue() ==> {
            &&& final(host_events)@ == old(host_events)@ + old(bridge)@.events
            &&& final(bridge)@ == old(bridge)@.drain_events()
        },
{
    let mut drained = bridge.receive_domain_events();
    let count = drained.len();
    host_events.append(&mut drained);
    count
}

/// The outbound half of a tick: sends each of the host's commands of this
/// tick towards the domain, in order, and reports for each whether it was
/// queued. A refused command is dropped, not sent again.
pub fn send_visualization_commands(
    bridge: &mut AsyncSyncBridge,
    commands: Vec<VisualizationCommand>,
) -> (outcomes: Vec<Result<(), BridgeError>>)
    ensures
        final(bridge)@.capacity == old(bridge)@.capacity,
        final(bridge).same_event_side(*old(bridge)),
        final(bridge).owns_command_queue() == old(bridge).owns_command_queue(),
        final(bridge)@.command_receiver_open == old(bridge)@.command_receiver_open,
        outcomes@.len() == commands@.len(),
        old(bridge).owns_command_queue() ==> {
            &&& outcomes@ == old(bridge)@.command_outcomes(commands@)
            &&& final(bridge)@ == old(bridge)@.send_commands(commands@)
        },
{
    let mut outcomes: Vec<Result<(), BridgeError>> = Vec::new();
    let ghost all = commands@;
    for command in it: commands
        invariant
            it.seq() == all,
            bridge@.capacity == old(bridge)@.capacity,
            bridge.same_event_side(*old(bridge)),
            bridge.owns_command_queue() == old(bridge).owns_command_queue(),
            bridge@.command_receiver_open == old(bridge)@.command_receiver_open,
            outcomes@.len() == it.index(),
            old(bridge).owns_command_queue() ==> {
                &&& outcomes@ == old(bridge)@.command_outcomes(all.take(it.index() as int))
                &&& bridge@ == old(bridge)@.send_commands(all.take(it.index() as int))
            },
    {
        let ghost done = outcomes@.len() as int;
        let sent = bridge.send_command(command);
        outcomes.push(sent);
        proof {
            assert(all.take(done + 1).drop_last() =~= all.take(done));
            assert(all.take(done + 1).last() == all[done]);
        }
    }
    proof {
        assert(all.take(all.len() as int) =~= all);
    }
    outcomes
}

} // verus!
