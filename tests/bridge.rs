use alvr_server::bridge::{Bridge, Delivery};
use alvr_server::packets::{
    copy_bytes, header_from_frame, Haptics, ServerControlPacket, VideoFrame, VideoFrameHeaderPacket,
};
use alvr_server::statistics::StatisticsSink;
use std::time::Duration;
use tokio::sync::{broadcast, mpsc};

struct Session {
    control: mpsc::UnboundedReceiver<ServerControlPacket>,
    video: mpsc::UnboundedReceiver<alvr_server::packets::VideoPacket>,
    haptics: mpsc::UnboundedReceiver<Haptics>,
    mirror_sender: broadcast::Sender<Vec<u8>>,
}

fn install(bridge: &mut Bridge) -> Session {
    let (control_tx, control) = mpsc::unbounded_channel();
    let (video_tx, video) = mpsc::unbounded_channel();
    let (haptics_tx, haptics) = mpsc::unbounded_channel();
    let (mirror_tx, _) = broadcast::channel(16);
    bridge
        .registry
        .install(control_tx, video_tx, haptics_tx, mirror_tx.clone());
    Session {
        control,
        video,
        haptics,
        mirror_sender: mirror_tx,
    }
}

fn frame(counter: u32) -> VideoFrame {
    VideoFrame {
        packet_counter: counter,
        tracking_frame_index: 7,
        video_frame_index: 8,
        sent_time: 9,
        frame_byte_size: 2,
        fec_index: 3,
        fec_percentage: 5,
    }
}

#[test]
fn video_send_with_mirror_and_statistics() {
    let mut bridge = Bridge::new();
    bridge.statistics = Some(StatisticsSink::new());
    let mut session = install(&mut bridge);
    let mut mirror = session.mirror_sender.subscribe();

    let r = bridge.video_send(frame(1), &[0xAA, 0xBB]);
    assert_eq!(r, Delivery::Delivered);

    assert_eq!(mirror.try_recv().unwrap(), vec![0xAA, 0xBB]);
    let packet = session.video.try_recv().unwrap();
    assert_eq!(packet.header.packet_counter, 1);
    assert_eq!(packet.header, header_from_frame(frame(1)));
    assert_eq!(packet.payload, vec![0xAA, 0xBB]);
    assert_eq!(bridge.statistics.unwrap().video_bytes, 2);
    assert_eq!(bridge.statistics.unwrap().video_packets, 1);
}

#[test]
fn video_packets_keep_order_and_bytes() {
    let mut bridge = Bridge::new();
    let mut session = install(&mut bridge);
    let buffers: Vec<Vec<u8>> = vec![vec![1, 2, 3], vec![], vec![0xFF; 1000], vec![4]];
    for (i, b) in buffers.iter().enumerate() {
        assert_eq!(bridge.video_send(frame(i as u32), b), Delivery::Delivered);
    }
    for (i, b) in buffers.iter().enumerate() {
        let packet = session.video.try_recv().unwrap();
        assert_eq!(packet.header.packet_counter, i as u32);
        assert_eq!(&packet.payload, b);
    }
    assert!(session.video.try_recv().is_err());
}

#[test]
fn header_conversion_keeps_every_field() {
    let h = header_from_frame(frame(42));
    assert_eq!(
        h,
        VideoFrameHeaderPacket {
            packet_counter: 42,
            tracking_frame_index: 7,
            video_frame_index: 8,
            sent_time: 9,
            frame_byte_size: 2,
            fec_index: 3,
            fec_percentage: 5,
        }
    );
}

#[test]
fn haptics_send_builds_haptics() {
    let mut bridge = Bridge::new();
    let mut session = install(&mut bridge);
    let duration_ns = Duration::from_secs_f32(0.5).as_nanos() as u64;
    let r = bridge.haptics_send(42, duration_ns, 100.0f32.to_bits(), 1.0f32.to_bits());
    assert_eq!(r, Delivery::Delivered);
    let h = session.haptics.try_recv().unwrap();
    assert_eq!(h.path, 42);
    assert_eq!(Duration::from_nanos(h.duration_ns), Duration::from_millis(500));
    assert_eq!(f32::from_bits(h.frequency_bits), 100.0);
    assert_eq!(f32::from_bits(h.amplitude_bits), 1.0);
}

#[test]
fn initialize_decoder_mirrors_then_sends() {
    let mut bridge = Bridge::new();
    let mut session = install(&mut bridge);
    let mut mirror = session.mirror_sender.subscribe();
    assert_eq!(bridge.initialize_decoder(&[1, 2, 3]), Delivery::Delivered);
    assert_eq!(mirror.try_recv().unwrap(), vec![1, 2, 3]);
    match session.control.try_recv().unwrap() {
        ServerControlPacket::InitializeDecoder { config_buffer } => {
            assert_eq!(config_buffer, vec![1, 2, 3])
        }
    }
}

#[test]
fn mirror_without_subscribers_is_no_error() {
    let mut bridge = Bridge::new();
    let mut session = install(&mut bridge);
    assert_eq!(bridge.video_send(frame(3), &[5, 6]), Delivery::Delivered);
    assert_eq!(session.video.try_recv().unwrap().payload, vec![5, 6]);
}

#[test]
fn adapters_without_session_drop_events() {
    let mut bridge = Bridge::new();
    bridge.statistics = Some(StatisticsSink::new());
    assert_eq!(bridge.video_send(frame(1), &[1, 2]), Delivery::NoSession);
    assert_eq!(bridge.haptics_send(1, 2, 3, 4), Delivery::NoSession);
    assert_eq!(bridge.initialize_decoder(&[9]), Delivery::NoSession);
    assert_eq!(bridge.statistics.unwrap().video_bytes, 0);
    assert!(!bridge.registry.has_session());
}

#[test]
fn adapters_after_teardown_drop_events() {
    let mut bridge = Bridge::new();
    let mut session = install(&mut bridge);
    bridge.registry.teardown();
    assert_eq!(bridge.video_send(frame(1), &[1, 2]), Delivery::NoSession);
    assert_eq!(bridge.haptics_send(1, 2, 3, 4), Delivery::NoSession);
    assert_eq!(bridge.initialize_decoder(&[9]), Delivery::NoSession);
    assert!(session.video.try_recv().is_err());
    assert!(session.haptics.try_recv().is_err());
    assert!(session.control.try_recv().is_err());
}

#[test]
fn closed_receiver_reports_closed() {
    let mut bridge = Bridge::new();
    let session = install(&mut bridge);
    drop(session);
    assert_eq!(bridge.video_send(frame(1), &[1]), Delivery::Closed);
    assert_eq!(bridge.haptics_send(1, 2, 3, 4), Delivery::Closed);
    assert_eq!(bridge.initialize_decoder(&[1]), Delivery::Closed);
}

#[test]
fn statistics_reports() {
    let mut bridge = Bridge::new();
    bridge.report_present(5);
    assert!(bridge.statistics.is_none());
    bridge.statistics = Some(StatisticsSink::new());
    bridge.report_present(10);
    bridge.report_composed(20);
    bridge.report_encoded(30);
    bridge.report_fec_failure(12);
    let s = bridge.statistics.unwrap();
    assert_eq!(s.last_present_ns, Some(10));
    assert_eq!(s.last_composed_ns, Some(20));
    assert_eq!(s.last_encoded_ns, Some(30));
    assert_eq!(s.fec_failures, 1);
    assert_eq!(s.last_fec_percentage, Some(12));
}

#[test]
fn statistics_byte_counter_saturates() {
    let mut s = StatisticsSink::new();
    s.video_bytes = u64::MAX - 1;
    s.report_video_packet(5);
    assert_eq!(s.video_bytes, u64::MAX);
    assert_eq!(s.video_packets, 1);
}

#[test]
fn copy_bytes_copies() {
    assert_eq!(copy_bytes(&[]), Vec::<u8>::new());
    assert_eq!(copy_bytes(&[1, 2, 3]), vec![1, 2, 3]);
}

#[test]
fn message_builders_copy_their_input() {
    let p = alvr_server::packets::video_packet(frame(4), &[9, 8, 7]);
    assert_eq!(p.header, header_from_frame(frame(4)));
    assert_eq!(p.payload, vec![9, 8, 7]);
    match alvr_server::packets::decoder_packet(&[1, 2]) {
        ServerControlPacket::InitializeDecoder { config_buffer } => {
            assert_eq!(config_buffer, vec![1, 2])
        }
    }
}
