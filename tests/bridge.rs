use vst_host::adapter::PeriodBridge;
use vst_host::binder::{BindError, BoundLayout, BufferBinder};
use vst_host::codec::{encode, encode_raw, EventBatch, RawMidiMessage, MIDI_EVENT_KIND, MIDI_EVENT_RECORD_SIZE};
use vst_host::ports::{PortLayout, SetupError};
use vst_host::session::{EditorGate, PeriodPlan, PluginSession, SessionError, SessionState, SessionStep};

fn msg(bytes: &[u8], time: u32) -> RawMidiMessage {
    RawMidiMessage { bytes: bytes.to_vec(), time }
}

fn active_bridge(inputs: usize, outputs: usize, capacity: usize) -> PeriodBridge {
    let mut session = PluginSession::new();
    session.load().unwrap();
    session.init().unwrap();
    PeriodBridge::new(session, BufferBinder::new(inputs, outputs), capacity)
}

#[test]
fn encode_note_on_at_offset() {
    let e = encode(&msg(&[0x90, 60, 0x7F], 5));
    assert_eq!(e.delta_frames, 5);
    assert_eq!(e.midi_data, [0x90, 60, 0x7F]);
    assert_eq!(e.byte_size, MIDI_EVENT_RECORD_SIZE);
    assert_eq!(e.event_kind, MIDI_EVENT_KIND);
    assert_eq!((e.flags, e.note_length, e.note_offset), (0, 0, 0));
    assert_eq!((e.midi_reserved, e.detune, e.note_off_velocity, e.reserved1, e.reserved2), (0, 0, 0, 0, 0));
}

#[test]
fn record_size_matches_plugin_abi() {
    assert_eq!(MIDI_EVENT_RECORD_SIZE as usize, std::mem::size_of::<vst::api::MidiEvent>());
    assert_eq!(encode_raw(&[0xF8], 0).byte_size, 32);
}

#[test]
fn encode_pads_short_messages_with_zero() {
    assert_eq!(encode_raw(&[0xC0, 7], 3).midi_data, [0xC0, 7, 0]);
    assert_eq!(encode_raw(&[0xF8], 0).midi_data, [0xF8, 0, 0]);
    assert_eq!(encode_raw(&[], 0).midi_data, [0, 0, 0]);
}

#[test]
fn encode_truncates_long_messages() {
    let e = encode_raw(&[0xF0, 1, 2, 3, 0xF7], 9);
    assert_eq!(e.midi_data, [0xF0, 1, 2]);
    assert_eq!(e.delta_frames, 9);
}

#[test]
fn encode_keeps_offsets_verbatim() {
    assert_eq!(encode_raw(&[0x80, 60, 0], 5000).delta_frames, 5000);
    assert_eq!(encode_raw(&[0x80, 60, 0], 0x7FFF_FFFF).delta_frames, i32::MAX);
    assert_eq!(encode_raw(&[0x80, 60, 0], 0xFFFF_FFFF).delta_frames, -1);
    assert_eq!(encode_raw(&[0x80, 60, 0], 0x8000_0000).delta_frames, i32::MIN);
}

#[test]
fn encode_batch_keeps_count_and_order() {
    let messages = vec![msg(&[0x90, 60, 0x7F], 1), msg(&[0xC0, 4], 2), msg(&[0x80, 60, 0], 3)];
    let mut batch = EventBatch::new(16);
    batch.encode_batch(&messages);
    assert_eq!(batch.len(), 3);
    let events = batch.events();
    assert_eq!(events[0].midi_data, [0x90, 60, 0x7F]);
    assert_eq!(events[1].midi_data, [0xC0, 4, 0]);
    assert_eq!(events[2].midi_data, [0x80, 60, 0]);
    assert_eq!(events.iter().map(|e| e.delta_frames).collect::<Vec<_>>(), vec![1, 2, 3]);
}

#[test]
fn encode_batch_replaces_previous_contents() {
    let mut batch = EventBatch::new(4);
    batch.encode_batch(&[msg(&[0x90, 1, 1], 0), msg(&[0x90, 2, 2], 0)]);
    batch.encode_batch(&[msg(&[0x80, 3, 0], 7)]);
    assert_eq!(batch.len(), 1);
    assert_eq!(batch.events()[0].midi_data, [0x80, 3, 0]);
}

#[test]
fn encode_batch_empty_has_count_zero_and_is_not_delivered() {
    let mut bridge = active_bridge(2, 2, 8);
    bridge.start_period();
    bridge.collect_midi(&[]);
    assert_eq!(bridge.events().len(), 0);
    assert_eq!(bridge.plan(&[64, 64], &[64, 64]), PeriodPlan::Process);

    let mut batch = EventBatch::new(8);
    batch.encode_batch(&[]);
    assert_eq!(batch.len(), 0);
    assert!(batch.is_empty());
}

#[test]
fn encode_batch_drops_messages_beyond_capacity() {
    let messages: Vec<RawMidiMessage> = (0..5u32).map(|i| msg(&[0x90, i as u8, 100], i)).collect();
    let mut batch = EventBatch::new(3);
    batch.encode_batch(&messages);
    assert_eq!(batch.len(), 3);
    assert_eq!(batch.events()[2].midi_data, [0x90, 2, 100]);
    assert!(!batch.push(&msg(&[0x90, 9, 9], 0)));
    assert_eq!(batch.len(), 3);
}

#[test]
fn two_ports_encode_in_port_then_arrival_order() {
    let ports = vec![vec![msg(&[0x90, 60, 0x7F], 10)], vec![msg(&[0x80, 60, 0x00], 20)]];
    let mut batch = EventBatch::new(16);
    batch.encode_ports(&ports);
    assert_eq!(batch.len(), 2);
    let events = batch.events();
    assert_eq!((events[0].delta_frames, events[0].midi_data), (10, [0x90, 60, 0x7F]));
    assert_eq!((events[1].delta_frames, events[1].midi_data), (20, [0x80, 60, 0x00]));
}

#[test]
fn ports_order_wins_over_time_stamps() {
    let ports = vec![
        vec![msg(&[0x90, 1, 1], 30), msg(&[0x90, 2, 2], 40)],
        vec![],
        vec![msg(&[0x90, 3, 3], 5)],
    ];
    let mut bridge = active_bridge(0, 2, 16);
    bridge.collect_midi(&ports);
    let notes: Vec<u8> = bridge.events().iter().map(|e| e.midi_data[1]).collect();
    assert_eq!(notes, vec![1, 2, 3]);
    assert_eq!(bridge.plan(&[], &[128, 128]), PeriodPlan::DeliverThenProcess);
}

#[test]
fn batch_capacity_stays_fixed_across_periods() {
    let mut bridge = active_bridge(1, 1, 32);
    let counts = [5usize, 32, 3, 0, 32, 40, 1];
    for &n in counts.iter() {
        bridge.start_period();
        for i in 0..n {
            bridge.push_midi(&[0x90, i as u8, 64], i as u32);
        }
        assert_eq!(bridge.events().len(), n.min(32));
        assert_eq!(bridge.event_capacity(), 32);
    }
    let mut batch = EventBatch::new(32);
    for _ in 0..10 {
        batch.clear();
        for i in 0..20u8 {
            assert!(batch.push_raw(&[0x90, i, 1], 0));
        }
        assert_eq!(batch.capacity(), 32);
    }
}

#[test]
fn bind_full_period_gives_period_frames() {
    let binder = BufferBinder::new(2, 2);
    assert_eq!(
        binder.bind(&[1024, 1024], &[1024, 1024]),
        Ok(BoundLayout { inputs: 2, outputs: 2, frames: 1024 })
    );
    assert_eq!(binder.bind(&[], &[256]), Ok(BoundLayout { inputs: 0, outputs: 1, frames: 256 }));
    assert_eq!(binder.bind(&[], &[]), Ok(BoundLayout { inputs: 0, outputs: 0, frames: 0 }));
}

#[test]
fn bind_twice_gives_the_same_layout() {
    let binder = BufferBinder::new(2, 2);
    let first = binder.bind(&[512, 512], &[512, 512]);
    let second = binder.bind(&[512, 512], &[512, 512]);
    assert_eq!(first, second);
    assert_eq!(binder, BufferBinder::new(2, 2));
}

#[test]
fn bind_rejects_bad_layouts() {
    let binder = BufferBinder::new(1, 2);
    assert_eq!(binder.bind(&[64, 64], &[64]), Err(BindError::TooManyInputs));
    assert_eq!(binder.bind(&[64], &[64, 64, 64]), Err(BindError::TooManyOutputs));
    assert_eq!(binder.bind(&[64], &[64, 32]), Err(BindError::MismatchedLengths));
    assert_eq!(binder.bind(&[], &[64, 32]), Err(BindError::MismatchedLengths));
}

#[test]
fn silent_passthrough_for_a_hundred_periods() {
    let layout = PortLayout::from_info(2, 2, 1, 0);
    assert_eq!(layout.check_transport(2, 2), Ok(()));
    let mut bridge = active_bridge(2, 2, 64);
    let inputs: Vec<Vec<f32>> = vec![vec![0.0; 1024]; 2];
    let mut outputs: Vec<Vec<f32>> = vec![vec![1.0; 1024]; 2];
    for _ in 0..100 {
        bridge.start_period();
        bridge.collect_midi(&[vec![]]);
        let in_lens: Vec<usize> = inputs.iter().map(|c| c.len()).collect();
        let out_lens: Vec<usize> = outputs.iter().map(|c| c.len()).collect();
        let plan = bridge.plan(&in_lens, &out_lens);
        assert_eq!(plan, PeriodPlan::Process);
        for (o, i) in outputs.iter_mut().zip(inputs.iter()) {
            o.copy_from_slice(i);
        }
        for o in outputs.iter() {
            assert_eq!(o.len(), 1024);
            assert!(o.iter().all(|s| *s == 0.0));
        }
    }
    assert_eq!(bridge.state(), SessionState::Active);
}

#[test]
fn unbindable_period_is_silenced_not_stopped() {
    let mut bridge = active_bridge(2, 2, 4);
    bridge.push_midi(&[0x90, 60, 1], 0);
    assert_eq!(bridge.plan(&[64, 32], &[64, 64]), PeriodPlan::Silence);
    assert_eq!(bridge.state(), SessionState::Initialized);
    assert_eq!(bridge.plan(&[64, 64], &[64, 64]), PeriodPlan::DeliverThenProcess);
}

#[test]
fn session_lifecycle_in_order() {
    let mut s = PluginSession::new();
    assert_eq!(s.state(), SessionState::Unloaded);
    assert_eq!(s.init(), Err(SessionError::OutOfOrder));
    assert_eq!(s.plan_period(0, true), PeriodPlan::Silence);
    assert_eq!(s.load(), Ok(SessionState::Loaded));
    assert_eq!(s.load(), Err(SessionError::OutOfOrder));
    assert_eq!(s.init(), Ok(SessionState::Initialized));
    assert_eq!(s.init(), Err(SessionError::OutOfOrder));
    assert_eq!(s.plan_period(2, true), PeriodPlan::DeliverThenProcess);
    assert_eq!(s.state(), SessionState::Active);
    assert_eq!(s.finish_shutdown(), Err(SessionError::OutOfOrder));
    assert_eq!(s.begin_shutdown(), Ok(SessionState::ShuttingDown));
    assert_eq!(s.plan_period(0, true), PeriodPlan::Silence);
    assert_eq!(s.finish_shutdown(), Ok(SessionState::Stopped));
    assert_eq!(s.advance(SessionStep::RunPeriod), Err(SessionError::OutOfOrder));
    assert_eq!(s.state(), SessionState::Stopped);
}

#[test]
fn bridge_shutdown_order() {
    let mut bridge = active_bridge(1, 1, 4);
    assert_eq!(bridge.finish_shutdown(), Err(SessionError::OutOfOrder));
    assert_eq!(bridge.begin_shutdown(), Ok(SessionState::ShuttingDown));
    assert_eq!(bridge.plan(&[8], &[8]), PeriodPlan::Silence);
    assert_eq!(bridge.finish_shutdown(), Ok(SessionState::Stopped));
}

#[test]
fn editor_opens_once_on_a_live_plugin() {
    let mut s = PluginSession::new();
    let mut gate = EditorGate::new();
    assert!(!gate.try_open(&s));
    s.load().unwrap();
    assert!(!gate.try_open(&s));
    s.init().unwrap();
    assert!(gate.try_open(&s));
    assert!(gate.is_open());
    assert!(!gate.try_open(&s));
}

#[test]
fn port_layout_from_plugin_info() {
    let l = PortLayout::from_info(2, 2, 1, 3);
    assert_eq!((l.audio_inputs, l.audio_outputs, l.midi_inputs), (2, 2, 4));
    let l = PortLayout::from_info(-1, 0, 1, -5);
    assert_eq!((l.audio_inputs, l.audio_outputs, l.midi_inputs), (0, 0, 0));
    let l = PortLayout::from_info(0, 0, i32::MAX, i32::MAX);
    assert_eq!(l.midi_inputs, u32::MAX - 1);
    let b = PortLayout::from_info(3, 1, 0, 0).binder();
    assert_eq!(b, BufferBinder::new(3, 1));
}

#[test]
fn channel_count_mismatch_fails_setup() {
    let l = PortLayout::from_info(2, 2, 0, 0);
    assert_eq!(l.check_transport(1, 2), Err(SetupError::InputCountMismatch));
    assert_eq!(l.check_transport(1, 3), Err(SetupError::InputCountMismatch));
    assert_eq!(l.check_transport(2, 3), Err(SetupError::OutputCountMismatch));
    assert_eq!(l.check_transport(2, 2), Ok(()));
}
