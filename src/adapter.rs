use vstd::prelude::*;
use crate::binder::{bind_result, BufferBinder};
use crate::codec::{batch_of, concat_ports, encodes, EventBatch, PluginEvent, RawMidiMessage};
use crate::session::{plan_for, PeriodPlan, PluginSession, SessionError, SessionState};

verus! {

/// The decisions of the transport's period callback.
///
/// Each period the callback drains the pending MIDI messages of every port
/// into the reusable event batch, then asks for the period's plan: deliver
/// the batch if it is not empty, strictly before the plugin processes the
/// bound buffers; or, where the buffers cannot be bound or the plugin is not
/// ready, call nothing and silence the outputs. Nothing here can stop the
/// stream.
pub struct PeriodBridge {
    session: PluginSession,
    batch: EventBatch,
    binder: BufferBinder,
}

impl PeriodBridge {
    pub closed spec fn spec_state(&self) -> SessionState {
        self.session.spec_state()
    }

    pub closed spec fn spec_events(&self) -> Seq<PluginEvent> {
        self.batch@
    }

    pub closed spec fn spec_capacity(&self) -> nat {
        self.batch.spec_capacity()
    }

    pub closed spec fn spec_binder(&self) -> BufferBinder {
        self.binder
    }

    /// A bridge that drives `session`, binds buffers with `binder` and keeps
    /// room for `event_capacity` events per period.
    pub fn new(session: PluginSession, binder: BufferBinder, event_capacity: usize) -> (r: PeriodBridge)
        ensures
            r.spec_state() == session.spec_state(),
            r.spec_events() == Seq::<PluginEvent>::empty(),
            r.spec_capacity() == event_capacity,
            r.spec_binder() == binder,
    {
        PeriodBridge { session, batch: EventBatch::new(event_capacity), binder }
    }

    pub fn state(&self) -> (r: SessionState)
        ensures
            r == self.spec_state(),
    {
        self.session.state()
    }

    /// The events of the current period, in delivery order.
    pub fn events(&self) -> (r: &[PluginEvent])
        ensures
            r@ == self.spec_events(),
    {
        self.batch.events()
    }

    pub fn event_capacity(&self) -> (r: usize)
        ensures
            r == self.spec_capacity(),
    {
        self.batch.capacity()
    }

    /// Starts a period: the previous period's events are dropped.
    pub fn start_period(&mut self)
        ensures
            final(self).spec_events() == Seq::<PluginEvent>::empty(),
            final(self).spec_capacity() == old(self).spec_capacity(),
            final(self).spec_state() == old(self).spec_state(),
            final(self).spec_binder() == old(self).spec_binder(),
    {
        self.batch.clear();
    }

    /// Adds one message drained from a MIDI port, if there is room left in
    /// this period's batch.
    pub fn push_midi(&mut self, bytes: &[u8], time: u32) -> (r: bool)
        ensures
            r == (old(self).spec_events().len() < old(self).spec_capacity()),
            r ==> final(self).spec_events().len() == old(self).spec_events().len() + 1
                && final(self).spec_events().drop_last() == old(self).spec_events()
                && encodes(final(self).spec_events().last(), bytes@, time),
            !r ==> final(self).spec_events() == old(self).spec_events(),
            final(self).spec_capacity() == old(self).spec_capacity(),
            final(self).spec_state() == old(self).spec_state(),
            final(self).spec_binder() == old(self).spec_binder(),
    {
        self.batch.push_raw(bytes, time)
    }

    /// Replaces this period's events with the pending messages of all MIDI
    /// ports, port by port, each in arrival order.
    pub fn collect_midi(&mut self, ports: &[Vec<RawMidiMessage>])
        ensures
            batch_of(final(self).spec_events(), concat_ports(ports@), old(self).spec_capacity()),
            final(self).spec_capacity() == old(self).spec_capacity(),
            final(self).spec_state() == old(self).spec_state(),
            final(self).spec_binder() == old(self).spec_binder(),
    {
        self.batch.encode_ports(ports);
    }

    /// The plan for this period, given the lengths of the channel buffers
    /// the transport supplied.
    pub fn plan(&mut self, input_lens: &[usize], output_lens: &[usize]) -> (r: PeriodPlan)
        ensures
            r == plan_for(
                old(self).spec_state(),
                old(self).spec_events().len(),
                bind_result(old(self).spec_binder(), input_lens@, output_lens@) is Ok,
            ),
            r != PeriodPlan::Silence ==> final(self).spec_state() == SessionState::Active,
            r == PeriodPlan::Silence ==> final(self).spec_state() == old(self).spec_state(),
            final(self).spec_events() == old(self).spec_events(),
            final(self).spec_capacity() == old(self).spec_capacity(),
            final(self).spec_binder() == old(self).spec_binder(),
    {
        let bound = self.binder.bind(input_lens, output_lens).is_ok();
        let count = self.batch.len();
        self.session.plan_period(count, bound)
    }

    /// The transport is being torn down; see [`PluginSession::begin_shutdown`].
    pub fn begin_shutdown(&mut self) -> (r: Result<SessionState, SessionError>)
        ensures
            final(self).spec_events() == old(self).spec_events(),
            final(self).spec_capacity() == old(self).spec_capacity(),
            final(self).spec_binder() == old(self).spec_binder(),
            r is Ok ==> final(self).spec_state() == SessionState::ShuttingDown,
            r is Err ==> final(self).spec_state() == old(self).spec_state(),
            r is Ok <==> (old(self).spec_state() == SessionState::Loaded
                || old(self).spec_state() == SessionState::Initialized
                || old(self).spec_state() == SessionState::Active),
    {
        self.session.begin_shutdown()
    }

    /// The plugin is to be shut down; see [`PluginSession::finish_shutdown`].
    pub fn finish_shutdown(&mut self) -> (r: Result<SessionState, SessionError>)
        ensures
            final(self).spec_events() == old(self).spec_events(),
            final(self).spec_capacity() == old(self).spec_capacity(),
            final(self).spec_binder() == old(self).spec_binder(),
            r is Ok ==> final(self).spec_state() == SessionState::Stopped,
            r is Err ==> final(self).spec_state() == old(self).spec_state(),
            r is Ok <==> old(self).spec_state() == SessionState::ShuttingDown,
    {
        self.session.finish_shutdown()
    }
}

/// A period with no pending MIDI messages gives an empty batch, and the
/// plan for such a period never delivers events: the plugin's event entry
/// point is not called.
pub proof fn lemma_no_messages_no_delivery(
    events: Seq<PluginEvent>,
    capacity: nat,
    state: SessionState,
    bound: bool,
)
    requires
        batch_of(events, Seq::<RawMidiMessage>::empty(), capacity),
    ensures
        events.len() == 0,
        plan_for(state, events.len(), bound) != PeriodPlan::DeliverThenProcess,
{
}

/// Delivery happens exactly in the periods that carry events and in which
/// the plugin is called at all; a plan never delivers without processing
/// right after.
pub proof fn lemma_delivery_only_with_events(state: SessionState, event_count: nat, bound: bool)
    ensures
        (plan_for(state, event_count, bound) == PeriodPlan::DeliverThenProcess)
            <==> (event_count > 0 && plan_for(state, event_count, bound) != PeriodPlan::Silence),
{
}

} // verus!
