use vstd::prelude::*;

verus! {

/// Byte size of one MIDI event record of the plugin ABI: six `i32` fields
/// followed by eight single-byte fields, with no padding.
pub const MIDI_EVENT_RECORD_SIZE: i32 = 32;

/// Event-kind tag that marks a record as a MIDI event.
pub const MIDI_EVENT_KIND: i32 = 1;

/// Largest number of data bytes a MIDI record carries.
pub const MIDI_DATA_LEN: usize = 3;

/// One MIDI message as the transport reports it: its raw bytes and the frame
/// offset within the current period at which it occurs.
pub struct RawMidiMessage {
    pub bytes: Vec<u8>,
    pub time: u32,
}

/// A MIDI event record laid out field for field as the plugin ABI expects it.
#[derive(Clone, Copy, Debug, PartialEq, Eq)]
pub struct PluginEvent {
    pub event_kind: i32,
    pub byte_size: i32,
    pub delta_frames: i32,
    pub flags: i32,
    pub note_length: i32,
    pub note_offset: i32,
    pub midi_data: [u8; 3],
    pub midi_reserved: u8,
    pub detune: i8,
    pub note_off_velocity: u8,
    pub reserved1: u8,
    pub reserved2: u8,
}

/// The `i`-th data byte of a record built from `bytes`: the source byte where
/// there is one, zero past its end; bytes past the third are never read.
pub open spec fn padded_byte(bytes: Seq<u8>, i: int) -> u8 {
    if i < bytes.len() {
        bytes[i]
    } else {
        0
    }
}

/// The offset field for a transport time stamp: the stamp's 32 bits read as
/// a signed integer, with no clamping.
pub open spec fn frame_offset(time: u32) -> int {
    if time <= 0x7fff_ffff {
        time as int
    } else {
        time as int - 0x1_0000_0000
    }
}

/// `e` is the record that encodes a MIDI message of `bytes` at `time`.
pub open spec fn encodes(e: PluginEvent, bytes: Seq<u8>, time: u32) -> bool {
    &&& e.event_kind == MIDI_EVENT_KIND
    &&& e.byte_size == MIDI_EVENT_RECORD_SIZE
    &&& e.delta_frames as int == frame_offset(time)
    &&& e.flags == 0
    &&& e.note_length == 0
    &&& e.note_offset == 0
    &&& e.midi_data@ == seq![padded_byte(bytes, 0), padded_byte(bytes, 1), padded_byte(bytes, 2)]
    &&& e.midi_reserved == 0
    &&& e.detune == 0
    &&& e.note_off_velocity == 0
    &&& e.reserved1 == 0
    &&& e.reserved2 == 0
}

/// Relies on `std::mem::size_of` applied to `vst::api::MidiEvent`, a
/// `#[repr(C)]` struct of six `i32` and eight one-byte fields.
#[verifier::external_body]
fn midi_event_record_size() -> (r: i32)
    ensures
        r == MIDI_EVENT_RECORD_SIZE,
{
    std::mem::size_of::<vst::api::MidiEvent>() as i32
}

/// Encodes one MIDI message into a plugin event record. Missing data bytes
/// are zero; bytes beyond the third are dropped, as the record has no room
/// for them. The time stamp is carried over without clamping.
pub fn encode_raw(bytes: &[u8], time: u32) -> (e: PluginEvent)
    ensures
        encodes(e, bytes@, time),
{
    let mut midi_data: [u8; 3] = [0, 0, 0];
    let n: usize = if bytes.len() < MIDI_DATA_LEN { bytes.len() } else { MIDI_DATA_LEN };
    let mut i: usize = 0;
    while i < n
        invariant
            n <= 3,
            n <= bytes@.len(),
            i <= n,
            midi_data@.len() == 3,
            forall|k: int| 0 <= k < i ==> midi_data@[k] == bytes@[k],
            forall|k: int| i <= k < 3 ==> midi_data@[k] == 0,
        decreases n - i,
    {
        midi_data[i] = bytes[i];
        i = i + 1;
    }
    proof {
        assert(midi_data@ =~= seq![padded_byte(bytes@, 0), padded_byte(bytes@, 1), padded_byte(bytes@, 2)]);
    }
    let delta_frames: i32 = if time <= 0x7fff_ffff {
        time as i32
    } else {
        ((time - 0x8000_0000) as i32) - 0x7fff_ffff - 1
    };
    PluginEvent {
        event_kind: MIDI_EVENT_KIND,
        byte_size: midi_event_record_size(),
        delta_frames,
        flags: 0,
        note_length: 0,
        note_offset: 0,
        midi_data,
        midi_reserved: 0,
        detune: 0,
        note_off_velocity: 0,
        reserved1: 0,
        reserved2: 0,
    }
}

/// Encodes a transport message; see [`encode_raw`].
pub fn encode(message: &RawMidiMessage) -> (e: PluginEvent)
    ensures
        encodes(e, message.bytes@, message.time),
{
    encode_raw(message.bytes.as_slice(), message.time)
}


/// The messages of all MIDI ports as one sequence: port by port in index
/// order, each port's messages in arrival order.
pub open spec fn concat_ports(ports: Seq<Vec<RawMidiMessage>>) -> Seq<RawMidiMessage>
    decreases ports.len(),
{
    if ports.len() == 0 {
        Seq::empty()
    } else {
        concat_ports(ports.drop_last()) + ports.last()@
    }
}

/// The smaller of two counts.
pub open spec fn min_count(a: nat, b: nat) -> nat {
    if a <= b {
        a
    } else {
        b
    }
}

/// `events` is what a batch of capacity `capacity` holds after encoding
/// `messages`: the encodings of the first messages, in order, as many as fit.
pub open spec fn batch_of(events: Seq<PluginEvent>, messages: Seq<RawMidiMessage>, capacity: nat) -> bool {
    &&& events.len() == min_count(messages.len(), capacity)
    &&& forall|i: int|
        0 <= i < events.len() ==> #[trigger] encodes(events[i], messages[i].bytes@, messages[i].time)
}

/// The per-period list of encoded MIDI events handed to the plugin.
///
/// Its storage is reserved once, for `capacity` events, and reused for every
/// period: the batch never holds more than `capacity` events, so filling it
/// never grows the storage.
pub struct EventBatch {
    events: Vec<PluginEvent>,
    capacity: usize,
}

impl View for EventBatch {
    type V = Seq<PluginEvent>;

    closed spec fn view(&self) -> Seq<PluginEvent> {
        self.events@
    }
}

impl EventBatch {
    /// The number of events the batch can hold.
    pub closed spec fn spec_capacity(&self) -> nat {
        self.capacity as nat
    }

    #[verifier::type_invariant]
    spec fn inv(&self) -> bool {
        self.events@.len() <= self.capacity
    }

    /// An empty batch with room for `capacity` events.
    pub fn new(capacity: usize) -> (r: EventBatch)
        ensures
            r@ == Seq::<PluginEvent>::empty(),
            r.spec_capacity() == capacity,
    {
        EventBatch { events: Vec::with_capacity(capacity), capacity }
    }

    pub fn capacity(&self) -> (r: usize)
        ensures
            r == self.spec_capacity(),
    {
        self.capacity
    }

    /// The number of events in the batch: the count header of the event list.
    pub fn len(&self) -> (r: usize)
        ensures
            r == self@.len(),
            r <= self.spec_capacity(),
    {
        proof { use_type_invariant(self); }
        self.events.len()
    }

    pub fn is_empty(&self) -> (r: bool)
        ensures
            r == (self@.len() == 0),
    {
        self.events.len() == 0
    }

    /// The encoded events, in delivery order.
    pub fn events(&self) -> (r: &[PluginEvent])
        ensures
            r@ == self@,
    {
        self.events.as_slice()
    }

    /// Empties the batch, keeping its storage.
    pub fn clear(&mut self)
        ensures
            final(self)@ == Seq::<PluginEvent>::empty(),
            final(self).spec_capacity() == old(self).spec_capacity(),
    {
        let mut events: Vec<PluginEvent> = Vec::new();
        std::mem::swap(&mut events, &mut self.events);
        events.clear();
        self.events = events;
    }

    /// Appends the encoding of a message of `bytes` at `time` if there is
    /// room; a full batch drops the message and reports `false`.
    pub fn push_raw(&mut self, bytes: &[u8], time: u32) -> (r: bool)
        ensures
            r == (old(self)@.len() < old(self).spec_capacity()),
            final(self).spec_capacity() == old(self).spec_capacity(),
            r ==> final(self)@.len() == old(self)@.len() + 1
                && final(self)@.drop_last() == old(self)@
                && encodes(final(self)@.last(), bytes@, time),
            !r ==> final(self)@ == old(self)@,
    {
        proof { use_type_invariant(&*self); }
        if self.events.len() < self.capacity {
            let e = encode_raw(bytes, time);
            let mut events: Vec<PluginEvent> = Vec::new();
            std::mem::swap(&mut events, &mut self.events);
            events.push(e);
            self.events = events;
            proof {
                assert(self.events@.drop_last() =~= old(self).events@);
            }
            true
        } else {
            false
        }
    }

    /// Appends the encoding of `message` if there is room; see [`Self::push_raw`].
    pub fn push(&mut self, message: &RawMidiMessage) -> (r: bool)
        ensures
            r == (old(self)@.len() < old(self).spec_capacity()),
            final(self).spec_capacity() == old(self).spec_capacity(),
            r ==> final(self)@.len() == old(self)@.len() + 1
                && final(self)@.drop_last() == old(self)@
                && encodes(final(self)@.last(), message.bytes@, message.time),
            !r ==> final(self)@ == old(self)@,
    {
        self.push_raw(message.bytes.as_slice(), message.time)
    }

    /// Appends the encodings of `messages` in order, as many as fit; the
    /// batch holds afterwards exactly what encoding the old messages followed
    /// by `messages` into it gives.
    fn append_messages(&mut self, messages: &[RawMidiMessage], Ghost(prior): Ghost<Seq<RawMidiMessage>>)
        requires
            batch_of(old(self)@, prior, old(self).spec_capacity()),
        ensures
            batch_of(final(self)@, prior + messages@, old(self).spec_capacity()),
            final(self).spec_capacity() == old(self).spec_capacity(),
    {
        let cap = self.capacity();
        let mut i: usize = 0;
        while i < messages.len()
            invariant
                i <= messages@.len(),
                self.spec_capacity() == cap,
                batch_of(self@, prior + messages@.take(i as int), cap as nat),
            decreases messages@.len() - i,
        {
            let ghost before = self@;
            let pushed = self.push(&messages[i]);
            proof {
                let all_prev = prior + messages@.take(i as int);
                let all_next = prior + messages@.take(i + 1);
                assert(all_next =~= all_prev.push(messages@[i as int]));
                if pushed {
                    assert forall|k: int| 0 <= k < self@.len() implies
                        #[trigger] encodes(self@[k], all_next[k].bytes@, all_next[k].time) by {
                        if k < before.len() {
                            assert(self@[k] == self@.drop_last()[k]);
                        }
                    }
                } else {
                    assert forall|k: int| 0 <= k < self@.len() implies
                        #[trigger] encodes(self@[k], all_next[k].bytes@, all_next[k].time) by {
                        assert(all_next[k] == all_prev[k]);
                    }
                }
            }
            i = i + 1;
        }
        proof {
            assert(messages@.take(messages@.len() as int) =~= messages@);
        }
    }

    /// Rebuilds the batch from `messages`: clears it, then encodes the
    /// messages in order. Every message is kept while there is room; only
    /// messages beyond the capacity are dropped.
    pub fn encode_batch(&mut self, messages: &[RawMidiMessage])
        ensures
            batch_of(final(self)@, messages@, old(self).spec_capacity()),
            final(self).spec_capacity() == old(self).spec_capacity(),
            messages@.len() <= old(self).spec_capacity() ==> final(self)@.len() == messages@.len(),
    {
        self.clear();
        proof {
            assert(Seq::<RawMidiMessage>::empty() + messages@ =~= messages@);
        }
        self.append_messages(messages, Ghost(Seq::empty()));
    }

    /// Rebuilds the batch from the pending messages of every MIDI port:
    /// port by port in index order, each port's messages in arrival order.
    pub fn encode_ports(&mut self, ports: &[Vec<RawMidiMessage>])
        ensures
            batch_of(final(self)@, concat_ports(ports@), old(self).spec_capacity()),
            final(self).spec_capacity() == old(self).spec_capacity(),
    {
        self.clear();
        let mut p: usize = 0;
        proof {
            assert(ports@.take(0) =~= Seq::<Vec<RawMidiMessage>>::empty());
        }
        while p < ports.len()
            invariant
                p <= ports@.len(),
                self.spec_capacity() == old(self).spec_capacity(),
                batch_of(self@, concat_ports(ports@.take(p as int)), self.spec_capacity()),
            decreases ports@.len() - p,
        {
            let ghost prior = concat_ports(ports@.take(p as int));
            self.append_messages(ports[p].as_slice(), Ghost(prior));
            proof {
                assert(ports@.take(p + 1).drop_last() =~= ports@.take(p as int));
                assert(ports@.take(p + 1).last() == ports@[p as int]);
            }
            p = p + 1;
        }
        proof {
            assert(ports@.take(ports@.len() as int) =~= ports@);
        }
    }
}

} // verus!
