//! The dispatcher: one listener per component binding, each driving the
//! cycle of waiting for a message on its topic, invoking the bound module
//! with the payload, and returning to waiting — whether the invocation
//! succeeded or failed. Listeners are independent: stepping one never
//! touches another, so a failing binding cannot disturb the rest.
//!
//! Waiting on the broker, running the module and sleeping between events
//! belong to the surrounding runtime; this module fixes, for every listener
//! state and every event, the next state and the action the runtime must
//! perform.

use vstd::prelude::*;
use crate::config::{BindingView, ComponentBinding, RawManifest, TriggerMetadata};
use crate::config::manifest_outcome;
use crate::invoke::{InvocationError, InvocationResult};

verus! {

/// One message delivered by the broker on a subscribed topic.
#[derive(Debug, Clone, PartialEq, Eq)]
pub struct Message {
    pub topic: String,
    pub payload: Vec<u8>,
    pub qos: u8,
}

/// Where one listener stands in its cycle.
#[derive(Debug, Clone, Copy, PartialEq, Eq)]
pub enum ListenerStatus {
    /// Created, not yet subscribed.
    Starting,
    /// Subscribed, waiting for the next message on its topic.
    WaitingForMessage,
    /// A message arrived; its invocation is in flight.
    Invoking,
    /// Shut down; the listener takes no further part.
    Terminated,
}

/// What the runtime reports to a listener.
#[derive(Debug, PartialEq, Eq)]
pub enum ListenerEvent {
    /// The dispatcher asks the listener to begin.
    Start,
    /// The broker delivered a message on the listener's topic.
    MessageArrived(Message),
    /// The invocation in flight finished, successfully or not.
    InvocationFinished(Result<InvocationResult, InvocationError>),
    /// Global shutdown.
    Shutdown,
}

/// What the runtime must do after a listener step.
#[derive(Debug, Clone, PartialEq, Eq)]
pub enum ListenerAction {
    /// Subscribe to the topic at the given quality-of-service level.
    Subscribe { topic: String, qos: u8 },
    /// Invoke the module with the message payload.
    Invoke { component_id: String, payload: Vec<u8> },
    /// Nothing to do; wait for the next event.
    Wait,
    /// Stop driving this listener.
    Halt,
}

/// One per-binding listener: the binding it serves and where it stands.
#[derive(Debug, Clone, PartialEq, Eq)]
pub struct Listener {
    pub binding: ComponentBinding,
    pub status: ListenerStatus,
}

/// The listener's next state for a given event. The binding never changes;
/// only the status moves: Starting steps to waiting on `Start`, waiting
/// steps to invoking when a message arrives, invoking steps back to waiting
/// when the invocation finishes — on failure just as on success — and
/// `Shutdown` terminates from any state. An event out of turn changes
/// nothing.
pub open spec fn step_state(l: Listener, event: ListenerEvent) -> Listener {
    match event {
        ListenerEvent::Shutdown => (Listener { status: ListenerStatus::Terminated, ..l }),
        ListenerEvent::Start => match l.status {
            ListenerStatus::Starting => (Listener { status: ListenerStatus::WaitingForMessage, ..l }),
            _ => l,
        },
        ListenerEvent::MessageArrived(_) => match l.status {
            ListenerStatus::WaitingForMessage => (Listener { status: ListenerStatus::Invoking, ..l }),
            _ => l,
        },
        ListenerEvent::InvocationFinished(_) => match l.status {
            ListenerStatus::Invoking => (Listener { status: ListenerStatus::WaitingForMessage, ..l }),
            _ => l,
        },
    }
}

/// The action the runtime must perform for a given event: subscribe on
/// `Start`, invoke the bound module with exactly the arrived payload when a
/// message is dispatched, halt on shutdown, and otherwise wait.
pub open spec fn step_action(l: Listener, event: ListenerEvent) -> ListenerAction {
    match event {
        ListenerEvent::Shutdown => ListenerAction::Halt,
        ListenerEvent::Start => match l.status {
            ListenerStatus::Starting => (ListenerAction::Subscribe {
                topic: l.binding.topic,
                qos: l.binding.qos,
            }),
            _ => ListenerAction::Wait,
        },
        ListenerEvent::MessageArrived(message) => match l.status {
            ListenerStatus::WaitingForMessage => (ListenerAction::Invoke {
                component_id: l.binding.component_id,
                payload: message.payload,
            }),
            _ => ListenerAction::Wait,
        },
        ListenerEvent::InvocationFinished(_) => ListenerAction::Wait,
    }
}

impl Listener {
    /// Steps this listener by one event, returning the action the runtime
    /// must perform; state and action are exactly those of the transition
    /// relation, and the binding is untouched.
    pub fn step(&mut self, event: ListenerEvent) -> (action: ListenerAction)
        ensures
            *final(self) == step_state(*old(self), event),
            action == step_action(*old(self), event),
            final(self).binding == old(self).binding,
    {
        match event {
            ListenerEvent::Shutdown => {
                self.status = ListenerStatus::Terminated;
                ListenerAction::Halt
            },
            ListenerEvent::Start => match self.status {
                ListenerStatus::Starting => {
                    self.status = ListenerStatus::WaitingForMessage;
                    ListenerAction::Subscribe {
                        topic: self.binding.topic.clone(),
                        qos: self.binding.qos,
                    }
                },
                _ => ListenerAction::Wait,
            },
            ListenerEvent::MessageArrived(message) => match self.status {
                ListenerStatus::WaitingForMessage => {
                    self.status = ListenerStatus::Invoking;
                    ListenerAction::Invoke {
                        component_id: self.binding.component_id.clone(),
                        payload: message.payload,
                    }
                },
                _ => ListenerAction::Wait,
            },
            ListenerEvent::InvocationFinished(_) => match self.status {
                ListenerStatus::Invoking => {
                    self.status = ListenerStatus::WaitingForMessage;
                    ListenerAction::Wait
                },
                _ => ListenerAction::Wait,
            },
        }
    }
}

/// The dispatcher: the immutable trigger metadata and one listener per
/// component binding, fixed at startup.
#[derive(Debug, PartialEq, Eq)]
pub struct Dispatcher {
    pub metadata: TriggerMetadata,
    pub listeners: Vec<Listener>,
}

/// What starting the dispatcher yields: the metadata kept, and exactly one
/// listener per binding, in binding order, each in `Starting`.
pub open spec fn started_from(
    d: Dispatcher,
    metadata: TriggerMetadata,
    bindings: Seq<ComponentBinding>,
) -> bool {
    &&& d.metadata == metadata
    &&& d.listeners@.len() == bindings.len()
    &&& forall|i: int|
        0 <= i < bindings.len() ==> #[trigger] d.listeners@[i] == (Listener {
            binding: bindings[i],
            status: ListenerStatus::Starting,
        })
}

impl Dispatcher {
    /// The data-model invariant: valid metadata, and every listener serves
    /// a valid binding. The binding set itself is fixed after startup:
    /// every operation keeps each listener's binding.
    pub open spec fn wf(self) -> bool {
        &&& self.metadata.wf()
        &&& forall|i: int|
            0 <= i < self.listeners@.len() ==> (#[trigger] self.listeners@[i]).binding.wf()
    }

    /// Starts the dispatcher for a resolved configuration: exactly one
    /// listener per component binding, one-to-one and in order, each ready
    /// to subscribe. Valid inputs — which resolution guarantees — yield a
    /// dispatcher satisfying the data-model invariant.
    pub fn start(metadata: TriggerMetadata, bindings: Vec<ComponentBinding>) -> (d: Dispatcher)
        ensures
            started_from(d, metadata, bindings@),
            d.listeners@.len() == bindings@.len(),
            metadata.wf() && (forall|i: int|
                0 <= i < bindings@.len() ==> #[trigger] bindings@[i].wf()) ==> d.wf(),
    {
        let mut listeners: Vec<Listener> = Vec::new();
        let mut i: usize = 0;
        while i < bindings.len()
            invariant
                i <= bindings@.len(),
                listeners@.len() == i,
                forall|j: int|
                    0 <= j < i ==> #[trigger] listeners@[j] == (Listener {
                        binding: bindings@[j],
                        status: ListenerStatus::Starting,
                    }),
            decreases bindings@.len() - i,
        {
            let binding = bindings[i].clone();
            listeners.push(Listener { binding, status: ListenerStatus::Starting });
            i += 1;
        }
        Dispatcher { metadata, listeners }
    }

    /// Steps the listener at index `i` by one event. Only that listener
    /// moves, exactly along the transition relation; every other listener
    /// and the metadata are untouched.
    pub fn step_listener(&mut self, i: usize, event: ListenerEvent) -> (action: ListenerAction)
        requires
            i < old(self).listeners@.len(),
        ensures
            final(self).metadata == old(self).metadata,
            final(self).listeners@ == old(self).listeners@.update(
                i as int,
                step_state(old(self).listeners@[i as int], event),
            ),
            action == step_action(old(self).listeners@[i as int], event),
            forall|j: int|
                0 <= j < old(self).listeners@.len() && j != i ==> final(self).listeners@[j]
                    == old(self).listeners@[j],
            old(self).wf() ==> final(self).wf(),
    {
        let ghost before = self.listeners@;
        let mut listener = self.listeners.remove(i);
        let action = listener.step(event);
        self.listeners.insert(i, listener);
        proof {
            assert(self.listeners@ =~= before.update(i as int, step_state(before[i as int], event)));
        }
        action
    }

    /// Global shutdown: terminates every listener. Whatever each listener
    /// was doing, afterwards all of them are terminated — in-flight
    /// invocations are abandoned, not drained — and every binding is kept.
    pub fn shutdown_all(&mut self)
        ensures
            final(self).metadata == old(self).metadata,
            final(self).listeners@.len() == old(self).listeners@.len(),
            forall|i: int|
                0 <= i < old(self).listeners@.len() ==> {
                    &&& (#[trigger] final(self).listeners@[i]).binding == old(
                        self,
                    ).listeners@[i].binding
                    &&& final(self).listeners@[i].status is Terminated
                },
            old(self).wf() ==> final(self).wf(),
    {
        let ghost init = *self;
        let mut i: usize = 0;
        while i < self.listeners.len()
            invariant
                i <= init.listeners@.len(),
                self.metadata == init.metadata,
                self.listeners@.len() == init.listeners@.len(),
                forall|j: int|
                    0 <= j < i ==> (#[trigger] self.listeners@[j]).binding
                        == init.listeners@[j].binding && self.listeners@[j].status is Terminated,
                forall|j: int|
                    i <= j < init.listeners@.len() ==> #[trigger] self.listeners@[j]
                        == init.listeners@[j],
            decreases init.listeners@.len() - i,
        {
            let _ = self.step_listener(i, ListenerEvent::Shutdown);
            i += 1;
        }
    }
}

/// One listener per binding: for every valid manifest with N component
/// bindings, the started dispatcher holds exactly N listeners, the i-th
/// serving the i-th binding, each ready to subscribe.
pub proof fn lemma_one_listener_per_binding(
    m: RawManifest,
    metadata: TriggerMetadata,
    bindings: Seq<ComponentBinding>,
    views: Seq<BindingView>,
    d: Dispatcher,
)
    requires
        manifest_outcome(m) == Ok::<_, crate::config::ConfigErrorView>((metadata@, views)),
        bindings.len() == views.len(),
        forall|i: int| 0 <= i < bindings.len() ==> #[trigger] bindings[i]@ == views[i],
        started_from(d, metadata, bindings),
    ensures
        d.listeners@.len() == views.len(),
        forall|i: int|
            0 <= i < views.len() ==> #[trigger] d.listeners@[i].binding@ == views[i]
                && d.listeners@[i].status is Starting,
{
}

/// Byte-exact delivery: a message arriving at a waiting listener is
/// dispatched at once to the module bound to the topic, with the payload
/// passed byte for byte.
pub proof fn lemma_payload_delivered_exact(l: Listener, m: Message)
    requires
        l.status is WaitingForMessage,
    ensures
        step_action(l, ListenerEvent::MessageArrived(m)) == (ListenerAction::Invoke {
            component_id: l.binding.component_id,
            payload: m.payload,
        }),
        step_state(l, ListenerEvent::MessageArrived(m)).status is Invoking,
        step_state(l, ListenerEvent::MessageArrived(m)).binding == l.binding,
{
}

/// In-order handling within one binding: the first message is dispatched at
/// once; while its invocation is in flight a second message is not
/// dispatched and changes nothing; once the invocation finishes — however
/// it finishes — the second message is dispatched, with its own payload.
pub proof fn lemma_in_order_within_binding(
    l: Listener,
    m1: Message,
    m2: Message,
    outcome: Result<InvocationResult, InvocationError>,
)
    requires
        l.status is WaitingForMessage,
    ensures
        ({
            let l1 = step_state(l, ListenerEvent::MessageArrived(m1));
            let l2 = step_state(l1, ListenerEvent::InvocationFinished(outcome));
            &&& step_action(l, ListenerEvent::MessageArrived(m1)) == (ListenerAction::Invoke {
                component_id: l.binding.component_id,
                payload: m1.payload,
            })
            &&& l1.status is Invoking
            &&& step_state(l1, ListenerEvent::MessageArrived(m2)) == l1
            &&& step_action(l1, ListenerEvent::MessageArrived(m2)) == ListenerAction::Wait
            &&& l2.status is WaitingForMessage
            &&& step_action(l2, ListenerEvent::MessageArrived(m2)) == (ListenerAction::Invoke {
                component_id: l.binding.component_id,
                payload: m2.payload,
            })
        }),
{
}

/// The listener state after one full delivery: a message arrives and its
/// invocation finishes, however it finishes.
pub open spec fn handle_one(
    l: Listener,
    m: Message,
    outcome: Result<InvocationResult, InvocationError>,
) -> Listener {
    step_state(
        step_state(l, ListenerEvent::MessageArrived(m)),
        ListenerEvent::InvocationFinished(outcome),
    )
}

/// The actions a listener emits when the runtime delivers the messages of
/// `msgs` one at a time, in order, each invocation finishing before the
/// next message is delivered.
pub open spec fn delivery_actions(
    l: Listener,
    msgs: Seq<Message>,
    outcomes: Seq<Result<InvocationResult, InvocationError>>,
) -> Seq<ListenerAction>
    decreases msgs.len(),
{
    if msgs.len() == 0 {
        Seq::empty()
    } else {
        seq![step_action(l, ListenerEvent::MessageArrived(msgs[0]))] + delivery_actions(
            handle_one(l, msgs[0], outcomes[0]),
            msgs.drop_first(),
            outcomes.drop_first(),
        )
    }
}

/// First-in, first-out within one binding: however many messages the broker
/// delivers on the listener's topic, and however each invocation ends, the
/// bound module is invoked once per message, in arrival order, each time
/// with exactly that message's payload.
pub proof fn lemma_in_order_trace(
    l: Listener,
    msgs: Seq<Message>,
    outcomes: Seq<Result<InvocationResult, InvocationError>>,
)
    requires
        l.status is WaitingForMessage,
        outcomes.len() == msgs.len(),
    ensures
        delivery_actions(l, msgs, outcomes).len() == msgs.len(),
        forall|i: int|
            0 <= i < msgs.len() ==> delivery_actions(l, msgs, outcomes)[i]
                == (ListenerAction::Invoke {
                component_id: l.binding.component_id,
                payload: msgs[i].payload,
            }),
    decreases msgs.len(),
{
    if msgs.len() > 0 {
        let l2 = handle_one(l, msgs[0], outcomes[0]);
        assert(l2.status is WaitingForMessage);
        assert(l2.binding == l.binding);
        lemma_in_order_trace(l2, msgs.drop_first(), outcomes.drop_first());
        let rest = delivery_actions(l2, msgs.drop_first(), outcomes.drop_first());
        assert forall|i: int| 0 <= i < msgs.len() implies delivery_actions(l, msgs, outcomes)[i]
            == (ListenerAction::Invoke {
            component_id: l.binding.component_id,
            payload: msgs[i].payload,
        }) by {
            if i > 0 {
                assert(delivery_actions(l, msgs, outcomes)[i] == rest[i - 1]);
                assert(msgs.drop_first()[i - 1] == msgs[i]);
            }
        }
    }
}

/// Failure isolation: a failed invocation steps its own listener back to
/// waiting — the listener neither terminates nor loses its binding — and
/// leaves every other listener exactly as it was.
pub proof fn lemma_failure_isolated(listeners: Seq<Listener>, i: int, error: InvocationError)
    requires
        0 <= i < listeners.len(),
        listeners[i].status is Invoking,
    ensures
        ({
            let stepped = step_state(
                listeners[i],
                ListenerEvent::InvocationFinished(Err(error)),
            );
            let after = listeners.update(i, stepped);
            &&& stepped.status is WaitingForMessage
            &&& stepped.binding == listeners[i].binding
            &&& after.len() == listeners.len()
            &&& forall|j: int|
                0 <= j < listeners.len() && j != i ==> #[trigger] after[j] == listeners[j]
        }),
{
}

} // verus!
