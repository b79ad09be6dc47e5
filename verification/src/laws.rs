//! The library's laws: properties that hold across whole operation
//! sequences, proved once over the manager's transition functions and the
//! bus model that every executable contract is stated against.

use vstd::prelude::*;
use crate::bus::ChannelModel;
use crate::bus::channel_at;
use crate::bus::drain_model;
use crate::bus::drained_messages;
use crate::bus::lemma_models_same_except;
use crate::bus::register_model;
use crate::bus::send_model;
use crate::bus::unregister_model;
use crate::manager::CreationOutcome;
use crate::manager::StartOutcome;
use crate::manager::StorageManager;
use crate::node::NodeFacts;
use crate::progress::ProgressMessage;
use crate::types::StorageConnectionStatus;

verus! {

/// One lifecycle operation, as the manager's transition functions see it.
pub enum LifecycleOp {
    MarkConnecting,
    Initialize(CreationOutcome),
    Start(StartOutcome),
    Stop,
}

/// The manager after one lifecycle operation.
pub open spec fn apply_lifecycle(m: StorageManager, op: LifecycleOp) -> StorageManager {
    match op {
        LifecycleOp::MarkConnecting => StorageManager::connecting_transition(m),
        LifecycleOp::Initialize(c) => StorageManager::initialize_transition(m, c),
        LifecycleOp::Start(o) => StorageManager::start_transition(m, o),
        LifecycleOp::Stop => StorageManager::stop_transition(m),
    }
}

/// The manager after a sequence of lifecycle operations, first one first.
pub open spec fn apply_lifecycle_all(m: StorageManager, ops: Seq<LifecycleOp>) -> StorageManager
    decreases ops.len(),
{
    if ops.len() == 0 {
        m
    } else {
        apply_lifecycle_all(apply_lifecycle(m, ops[0]), ops.subrange(1, ops.len() as int))
    }
}

/// The five values a connection status can take.
pub open spec fn status_is_defined(s: StorageConnectionStatus) -> bool {
    ||| s is Disconnected
    ||| s is Initialized
    ||| s is Connecting
    ||| s is Connected
    ||| s is Error
}

/// A status value is never anything but one of the five defined values.
pub proof fn lemma_status_exhaustive(s: StorageConnectionStatus)
    ensures
        status_is_defined(s),
{
}

/// One lifecycle operation preserves the manager's invariant.
pub proof fn lemma_lifecycle_step_wf(m: StorageManager, op: LifecycleOp)
    requires
        m.wf(),
    ensures
        apply_lifecycle(m, op).wf(),
{
}

/// Law: across any sequence of lifecycle operations — initializations,
/// start attempts with any outcome, stops — the manager stays well formed,
/// and its status is always one of the five defined values.
pub proof fn lemma_status_always_defined(m: StorageManager, ops: Seq<LifecycleOp>)
    requires
        m.wf(),
    ensures
        apply_lifecycle_all(m, ops).wf(),
        status_is_defined(apply_lifecycle_all(m, ops).status),
    decreases ops.len(),
{
    if ops.len() == 0 {
    } else {
        lemma_lifecycle_step_wf(m, ops[0]);
        lemma_status_always_defined(apply_lifecycle(m, ops[0]), ops.subrange(1, ops.len() as int));
    }
}

/// Law: initialization is idempotent.  Once a handle sits in the slot, a
/// second `initialize_node` — whatever creation outcome it carries — leaves
/// the handle exactly as it is: two initializations in a row never put two
/// different nodes in the slot.
pub proof fn lemma_initialize_idempotent(
    m: StorageManager,
    c1: CreationOutcome,
    c2: CreationOutcome,
)
    ensures
        ({
            let m1 = StorageManager::initialize_transition(m, c1);
            m1.node is Some ==> StorageManager::initialize_transition(m1, c2).node == m1.node
        }),
{
}

/// Law: after a successful start the network info's peer id is exactly what
/// the engine reported, and the following stop clears it.
pub proof fn lemma_peer_id_follows_lifecycle(m: StorageManager, facts: NodeFacts)
    ensures
        ({
            let m1 = StorageManager::start_transition(m, StartOutcome::Started(facts));
            &&& m1.network_peer_id() == facts.peer_id
            &&& StorageManager::stop_transition(m1).network_peer_id() is None
        }),
{
}

/// Law: a start attempt begun with `mark_connecting` resolves to exactly
/// one defined terminal — `Connected` on success, `Error` on every
/// failure — and never rests at `Connecting`.
pub proof fn lemma_connecting_resolves(m: StorageManager, outcome: StartOutcome)
    ensures
        ({
            let m2 = StorageManager::start_transition(
                StorageManager::connecting_transition(m),
                outcome,
            );
            &&& (m2.status is Connected <==> outcome is Started)
            &&& (m2.status is Error <==> !(outcome is Started))
        }),
{
}

/// Whether the slot holds a running node.
pub open spec fn node_is_started(m: StorageManager) -> bool {
    m.node matches Some(h) && h.started
}

/// Whether the operation is a start attempt that the engine answered with
/// success.
pub open spec fn is_successful_start(op: LifecycleOp) -> bool {
    op matches LifecycleOp::Start(StartOutcome::Started(_))
}

/// Law: only a start attempt the engine answered with `Started` ever yields
/// a running node.  Before the first such attempt the node-dependent
/// operations' contracts therefore answer `NodeNotInitialized` or
/// `NodeNotStarted`, and being verified, they neither panic nor hang.
pub proof fn lemma_only_successful_start_starts(m: StorageManager, op: LifecycleOp)
    requires
        !node_is_started(m),
        !is_successful_start(op),
    ensures
        !node_is_started(apply_lifecycle(m, op)),
{
}

/// Law: the handle is never lost.  Once a node sits in the slot, every
/// lifecycle operation — including every failure path — returns with a
/// handle still in the slot.
pub proof fn lemma_handle_never_lost(m: StorageManager, op: LifecycleOp)
    requires
        m.node is Some,
    ensures
        apply_lifecycle(m, op).node is Some,
{
}

/// The bus after the messages of `msgs` are sent under `id`, in order.
pub open spec fn send_all_model(
    b: Map<Seq<char>, ChannelModel>,
    id: Seq<char>,
    msgs: Seq<ProgressMessage>,
) -> Map<Seq<char>, ChannelModel>
    decreases msgs.len(),
{
    if msgs.len() == 0 {
        b
    } else {
        send_all_model(send_model(b, id, msgs[0]), id, msgs.subrange(1, msgs.len() as int))
    }
}

/// Sending to an open channel queues every message, in order.
pub proof fn lemma_send_all_queues(
    b: Map<Seq<char>, ChannelModel>,
    id: Seq<char>,
    msgs: Seq<ProgressMessage>,
)
    requires
        b.contains_key(id),
        b[id].open,
    ensures
        ({
            let b1 = send_all_model(b, id, msgs);
            &&& b1.contains_key(id)
            &&& b1[id].open
            &&& b1[id].queue == b[id].queue + msgs
        }),
    decreases msgs.len(),
{
    if msgs.len() == 0 {
        assert(b[id].queue + msgs =~= b[id].queue);
    } else {
        let b1 = send_model(b, id, msgs[0]);
        let rest = msgs.subrange(1, msgs.len() as int);
        lemma_send_all_queues(b1, id, rest);
        assert(b1[id].queue + rest =~= b[id].queue + msgs);
    }
}

/// Law: register an operation, send any messages in order, then
/// unregister — the receiver drains exactly those messages, in send order.
/// A receiver of a channel freshly registered (for instance after the
/// earlier operation was unregistered) observes nothing.
pub proof fn lemma_progress_fanout(
    b0: Map<Seq<char>, ChannelModel>,
    id: Seq<char>,
    msgs: Seq<ProgressMessage>,
)
    ensures
        ({
            let b1 = register_model(b0, id);
            let b2 = send_all_model(b1, id, msgs);
            let b3 = unregister_model(b2, id);
            drained_messages(b3, id) == msgs
        }),
        drained_messages(register_model(b0, id), id) == Seq::<ProgressMessage>::empty(),
{
    let b1 = register_model(b0, id);
    lemma_send_all_queues(b1, id, msgs);
    assert(Seq::<ProgressMessage>::empty() + msgs =~= msgs);
}

/// Law: no cross-talk.  An operation on one id's channel — registering,
/// sending, unregistering, draining — leaves every other id's channel, and
/// so every other receiver's messages, exactly as they were.
pub proof fn lemma_no_cross_talk(
    b: Map<Seq<char>, ChannelModel>,
    id1: Seq<char>,
    id2: Seq<char>,
    m: ProgressMessage,
)
    requires
        id1 != id2,
    ensures
        channel_at(register_model(b, id1), id2) == channel_at(b, id2),
        channel_at(send_model(b, id1, m), id2) == channel_at(b, id2),
        channel_at(unregister_model(b, id1), id2) == channel_at(b, id2),
        channel_at(drain_model(b, id1), id2) == channel_at(b, id2),
        drained_messages(send_model(b, id1, m), id2) == drained_messages(b, id2),
{
    lemma_models_same_except(b, id1, m);
}

/// Law: no cross-talk over a whole message sequence — another id's channel
/// survives all of one operation's sends untouched.
pub proof fn lemma_send_all_no_cross_talk(
    b: Map<Seq<char>, ChannelModel>,
    id1: Seq<char>,
    id2: Seq<char>,
    msgs: Seq<ProgressMessage>,
)
    requires
        id1 != id2,
    ensures
        channel_at(send_all_model(b, id1, msgs), id2) == channel_at(b, id2),
    decreases msgs.len(),
{
    if msgs.len() != 0 {
        lemma_models_same_except(b, id1, msgs[0]);
        lemma_send_all_no_cross_talk(
            send_model(b, id1, msgs[0]),
            id1,
            id2,
            msgs.subrange(1, msgs.len() as int),
        );
    }
}

} // verus!
