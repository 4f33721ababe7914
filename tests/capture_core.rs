use std::collections::VecDeque;

use speaker_capture::capture::{
    deliver_packet, fallback_mode, next_step, session_rate, ClientMode, Handoff, InitReport,
    LoopEvent, LoopStep, StreamState, DEFAULT_SAMPLE_RATE,
};
use speaker_capture::devices::{
    collect_output_devices, find_device_index, resolve_device, DeviceChoice, DeviceProbe,
};
use speaker_capture::frames::{convert_frames, word_from_le};
use speaker_capture::input::SpeakerInput;
use speaker_capture::transport::{open_transport, SampleRing, TRANSPORT_CAPACITY};

fn interleave(frames: &[Vec<f32>]) -> VecDeque<u8> {
    let mut q = VecDeque::new();
    for frame in frames {
        for s in frame {
            q.extend(s.to_le_bytes());
        }
    }
    q
}

#[test]
fn word_from_le_reads_little_endian() {
    assert_eq!(word_from_le(0x78, 0x56, 0x34, 0x12), 0x1234_5678);
    assert_eq!(word_from_le(0xff, 0xff, 0xff, 0xff), u32::MAX);
    assert_eq!(word_from_le(0, 0, 0x80, 0x3f), 1.0f32.to_bits());
}

#[test]
fn stereo_keeps_first_channel() {
    let mut q = interleave(&[vec![0.5, -1.0], vec![0.25, 2.0], vec![-0.75, 3.0]]);
    let words = convert_frames(&mut q, 2);
    let samples: Vec<f32> = words.iter().map(|w| f32::from_bits(*w)).collect();
    assert_eq!(samples, vec![0.5, 0.25, -0.75]);
    assert!(q.is_empty());
}

#[test]
fn mono_converts_every_sample() {
    let mut q = interleave(&[vec![0.1], vec![0.2], vec![0.3], vec![0.4]]);
    let words = convert_frames(&mut q, 1);
    assert_eq!(words, vec![0.1f32.to_bits(), 0.2f32.to_bits(), 0.3f32.to_bits(), 0.4f32.to_bits()]);
    assert!(q.is_empty());
}

#[test]
fn six_channels_count_is_length_over_frame_size() {
    let frames: Vec<Vec<f32>> = (0..10).map(|i| (0..6).map(|c| (i * 10 + c) as f32).collect()).collect();
    let mut q = interleave(&frames);
    assert_eq!(q.len(), 240);
    let words = convert_frames(&mut q, 6);
    assert_eq!(words.len(), 240 / 24);
    for (i, w) in words.iter().enumerate() {
        assert_eq!(f32::from_bits(*w), (i * 10) as f32);
    }
}

#[test]
fn partial_frame_stays_queued() {
    let mut q = interleave(&[vec![1.0, 9.0], vec![2.0, 9.0]]);
    q.extend([1u8, 2, 3, 4, 5]);
    let words = convert_frames(&mut q, 2);
    assert_eq!(words, vec![1.0f32.to_bits(), 2.0f32.to_bits()]);
    assert_eq!(q, VecDeque::from(vec![1u8, 2, 3, 4, 5]));
}

#[test]
fn empty_queue_gives_no_samples() {
    let mut q = VecDeque::new();
    assert!(convert_frames(&mut q, 2).is_empty());
    let mut short: VecDeque<u8> = VecDeque::from(vec![7u8, 7, 7]);
    assert!(convert_frames(&mut short, 1).is_empty());
    assert_eq!(short.len(), 3);
}

#[test]
fn ring_round_trip_within_capacity() {
    let mut ring = SampleRing::with_capacity(8);
    let samples: Vec<u32> = vec![5, 1, 4, 2, 3];
    assert_eq!(ring.push_all(&samples), 5);
    assert_eq!(ring.drain(), samples);
    assert!(ring.drain().is_empty());
}

#[test]
fn ring_full_capacity_round_trip() {
    let mut ring = SampleRing::with_capacity(4);
    let samples: Vec<u32> = vec![10, 20, 30, 40];
    assert_eq!(ring.push_all(&samples), 4);
    assert_eq!(ring.drain(), samples);
}

#[test]
fn ring_drops_pushes_beyond_capacity() {
    let mut ring = SampleRing::with_capacity(4);
    assert_eq!(ring.push_all(&vec![1, 2, 3]), 3);
    assert_eq!(ring.push_all(&vec![4, 5, 6]), 1);
    assert_eq!(ring.push_all(&vec![7]), 0);
    assert_eq!(ring.drain(), vec![1, 2, 3, 4]);
}

#[test]
fn split_transport_carries_samples_in_order() {
    let (mut prod, mut cons) = open_transport(3);
    assert_eq!(prod.offer(11), Ok(()));
    assert_eq!(prod.offer_all(&vec![12, 13, 14]), 2);
    assert_eq!(prod.offer(15), Err(15));
    assert_eq!(cons.next_word(), Some(11));
    assert_eq!(cons.next_word(), Some(12));
    assert_eq!(cons.next_word(), Some(13));
    assert_eq!(cons.next_word(), None);
}

#[test]
fn default_transport_capacity() {
    let (mut prod, _cons) = open_transport(TRANSPORT_CAPACITY);
    let samples: Vec<u32> = (0..TRANSPORT_CAPACITY as u32 + 10).collect();
    assert_eq!(prod.offer_all(&samples), 131072);
}

#[test]
fn deliver_packet_pushes_first_channel() {
    let (mut prod, mut cons) = open_transport(16);
    let mut q = interleave(&[vec![0.5, 0.0], vec![-0.5, 0.0]]);
    q.push_back(9);
    assert_eq!(deliver_packet(&mut q, 2, &mut prod), (2, 2));
    assert_eq!(q.len(), 1);
    assert_eq!(cons.next_word().map(f32::from_bits), Some(0.5));
    assert_eq!(cons.next_word().map(f32::from_bits), Some(-0.5));
    assert_eq!(cons.next_word(), None);
}

#[test]
fn deliver_packet_drops_when_full() {
    let (mut prod, mut cons) = open_transport(1);
    let mut q = interleave(&[vec![1.0], vec![2.0], vec![3.0]]);
    assert_eq!(deliver_packet(&mut q, 1, &mut prod), (3, 1));
    assert_eq!(cons.next_word().map(f32::from_bits), Some(1.0));
    assert_eq!(cons.next_word(), None);
}

#[test]
fn take_consumer_only_once() {
    let (_prod, cons) = open_transport(4);
    let mut state = StreamState::new(&InitReport::Ready(48000), cons);
    assert!(state.take_consumer().is_some());
    assert!(state.take_consumer().is_none());
    assert_eq!(state.sample_rate(), 48000);
}

#[test]
fn handoff_yields_once() {
    let mut h = Handoff::new(7u8);
    assert_eq!(h.take(), Some(7));
    assert_eq!(h.take(), None);
}

#[test]
fn failed_initialization_falls_back_to_default_rate() {
    let (mut prod, cons) = open_transport(4);
    let mut state = StreamState::new(&InitReport::Failed("device not found".to_string()), cons);
    assert_eq!(state.sample_rate(), 44100);
    let mut consumer = state.take_consumer().expect("consumer is handed over");
    assert_eq!(consumer.next_word(), None);
    assert_eq!(prod.offer(1), Ok(()));
}

#[test]
fn session_rate_per_report() {
    assert_eq!(session_rate(&InitReport::Ready(96000)), 96000);
    assert_eq!(session_rate(&InitReport::Failed(String::from("Init failed"))), DEFAULT_SAMPLE_RATE);
    assert_eq!(session_rate(&InitReport::TimedOut), 44100);
}

#[test]
fn loopback_falls_back_to_capture_once() {
    assert!(fallback_mode(ClientMode::Loopback) == Some(ClientMode::DirectCapture));
    assert!(fallback_mode(ClientMode::DirectCapture).is_none());
}

#[test]
fn loop_steps() {
    assert!(next_step(&LoopStep::CheckShutdown, &LoopEvent::ShutdownRead(true)) == LoopStep::Stopped);
    assert!(next_step(&LoopStep::CheckShutdown, &LoopEvent::ShutdownRead(false)) == LoopStep::AwaitPacket);
    assert!(next_step(&LoopStep::AwaitPacket, &LoopEvent::Waited(false)) == LoopStep::Stopped);
    assert!(next_step(&LoopStep::AwaitPacket, &LoopEvent::Waited(true)) == LoopStep::QueryPacket);
    assert!(next_step(&LoopStep::QueryPacket, &LoopEvent::QueryFailed) == LoopStep::CheckShutdown);
    assert!(next_step(&LoopStep::QueryPacket, &LoopEvent::PacketSize(None)) == LoopStep::CheckShutdown);
    assert!(next_step(&LoopStep::QueryPacket, &LoopEvent::PacketSize(Some(0))) == LoopStep::CheckShutdown);
    assert!(next_step(&LoopStep::QueryPacket, &LoopEvent::PacketSize(Some(480))) == LoopStep::ReadPacket(480));
    assert!(next_step(&LoopStep::ReadPacket(480), &LoopEvent::ReadFailed) == LoopStep::CheckShutdown);
    assert!(next_step(&LoopStep::ReadPacket(480), &LoopEvent::BytesRead(0)) == LoopStep::CheckShutdown);
    assert!(next_step(&LoopStep::ReadPacket(480), &LoopEvent::BytesRead(3840)) == LoopStep::Deliver);
    assert!(next_step(&LoopStep::Deliver, &LoopEvent::Delivered) == LoopStep::CheckShutdown);
    assert!(next_step(&LoopStep::Stopped, &LoopEvent::ShutdownRead(false)) == LoopStep::Stopped);
    assert!(next_step(&LoopStep::Deliver, &LoopEvent::Waited(true)) == LoopStep::Deliver);
}

#[test]
fn enumeration_of_no_devices_is_empty() {
    assert!(collect_output_devices(&Vec::new()).is_empty());
}

#[test]
fn enumeration_skips_unreadable_devices() {
    let probes = vec![
        Some(DeviceProbe { id: Some("{0.0.0}.{a}".to_string()), name: Some("Speakers".to_string()) }),
        None,
        Some(DeviceProbe { id: None, name: Some("Broken".to_string()) }),
        Some(DeviceProbe { id: Some(String::new()), name: Some("Empty".to_string()) }),
        Some(DeviceProbe { id: Some("{0.0.0}.{b}".to_string()), name: None }),
        Some(DeviceProbe { id: Some("{0.0.0}.{a}".to_string()), name: Some("Again".to_string()) }),
    ];
    let list = collect_output_devices(&probes);
    assert_eq!(
        list,
        vec![
            ("{0.0.0}.{a}".to_string(), "Speakers".to_string()),
            ("{0.0.0}.{b}".to_string(), String::new()),
            ("{0.0.0}.{a}".to_string(), "Again".to_string()),
        ]
    );
}

#[test]
fn find_device_first_exact_match() {
    let ids = vec![Some("abc".to_string()), None, Some("ABC".to_string()), Some("abc".to_string())];
    assert_eq!(find_device_index(&ids, &"abc".to_string()), Some(0));
    assert_eq!(find_device_index(&ids, &"ABC".to_string()), Some(2));
    assert_eq!(find_device_index(&ids, &"ab".to_string()), None);
    assert_eq!(find_device_index(&Vec::new(), &"abc".to_string()), None);
}

#[test]
fn resolve_falls_back_to_default() {
    let ids = vec![Some("one".to_string()), Some("two".to_string())];
    assert!(resolve_device(&Some("two".to_string()), &ids) == DeviceChoice::Listed(1));
    assert!(resolve_device(&Some("not-a-real-device-id".to_string()), &ids) == DeviceChoice::SystemDefault);
    assert!(resolve_device(&None, &ids) == DeviceChoice::SystemDefault);
}

#[test]
fn request_normalizes_default_identifiers() {
    let none = SpeakerInput::new(None).unwrap();
    assert_eq!(none.device_id(), &None);
    let empty = SpeakerInput::new(Some(String::new())).unwrap();
    assert_eq!(empty.device_id(), &None);
    let sentinel = SpeakerInput::new(Some("default".to_string())).unwrap();
    assert_eq!(sentinel.into_device_id(), None);
    let upper = SpeakerInput::new(Some("Default".to_string())).unwrap();
    assert_eq!(upper.device_id(), &Some("Default".to_string()));
    let named = SpeakerInput::new(Some("not-a-real-device-id".to_string())).unwrap();
    assert_eq!(named.into_device_id(), Some("not-a-real-device-id".to_string()));
}
