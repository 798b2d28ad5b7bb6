use videoroom::engine::{Ipv4, RouterOutcome};
use videoroom::ids::{ParticipantId, ProducerId, RoomId, RouterId};
use videoroom::recording::{
    create_sdp, engine_failure, keeps_draining, pause_failure, push_decimal, startup_step,
    Egress, EngineStep, LineRead, PortAllocator, Recorder, RecorderState, Startup,
    RECORDING_PORT_MAX, RECORDING_PORT_MIN,
};
use videoroom::room::{MediaKind, Producer, Room};

fn audio(id: u128) -> Producer {
    Producer { id: ProducerId(id), kind: MediaKind::Audio }
}

fn video(id: u128) -> Producer {
    Producer { id: ProducerId(id), kind: MediaKind::Video }
}

fn strings(items: &[&str]) -> Vec<String> {
    items.iter().map(|s| s.to_string()).collect()
}

#[test]
fn ports_come_in_blocks_of_four() {
    let mut ports = PortAllocator::new();
    assert_eq!(ports.allocate(), 12000);
    assert_eq!(ports.allocate(), 12004);
    assert_eq!(ports.allocate(), 12008);
}

#[test]
fn ports_wrap_around_after_the_top() {
    let mut ports = PortAllocator::new();
    let mut last = 0;
    for _ in 0..251 {
        last = ports.allocate();
        assert!(RECORDING_PORT_MIN <= last && last <= RECORDING_PORT_MAX);
    }
    assert_eq!(last, 13000);
    assert_eq!(ports.allocate(), 12000);
    assert_eq!(ports.allocate(), 12004);
}

#[test]
fn decimal_rendering() {
    for (n, text) in [(0u16, "0"), (7, "7"), (10, "10"), (909, "909"), (12000, "12000"), (65535, "65535")] {
        let mut s = String::from("p=");
        push_decimal(&mut s, n);
        assert_eq!(s, format!("p={}", text));
    }
}

#[test]
fn session_description_for_first_block() {
    assert_eq!(
        create_sdp(12000),
        "\nv=0\no=- 0 0 IN IP4 127.0.0.1\ns=-\nc=IN IP4 127.0.0.1\nt=0 0\nm=audio 12000 RTP/AVPF 111\na=rtcp:12001\na=rtpmap:111 opus/48000/2\na=fmtp:111 minptime=10;useinbandfec=1\nm=video 12002 RTP/AVPF 125\na=rtcp:12003\na=rtpmap:125 H264/90000\n"
    );
}

#[test]
fn session_description_crosses_digit_boundary() {
    let sdp = create_sdp(9998);
    assert!(sdp.contains("m=audio 9998 RTP/AVPF 111\na=rtcp:9999\n"));
    assert!(sdp.contains("m=video 10000 RTP/AVPF 125\na=rtcp:10001\n"));
}

#[test]
fn recorder_plans_both_kinds() {
    let mut ports = PortAllocator::new();
    ports.allocate();
    let a = audio(1);
    let v = video(2);
    let recorder = Recorder::new(&mut ports, Some(&a), Some(&v));
    assert_eq!(recorder.state(), RecorderState::Idle);
    assert!(!recorder.is_recording());
    assert_eq!(recorder.port_number(), 12004);
    assert_eq!(
        recorder.audio(),
        Some(Egress {
            producer_id: ProducerId(1),
            kind: MediaKind::Audio,
            ip: Ipv4(127, 0, 0, 1),
            comedia: false,
            rtcp_mux: false,
            port: 12004,
            rtcp_port: 12005,
            paused: true,
            codec: 0,
        })
    );
    assert_eq!(
        recorder.video(),
        Some(Egress {
            producer_id: ProducerId(2),
            kind: MediaKind::Video,
            ip: Ipv4(127, 0, 0, 1),
            comedia: false,
            rtcp_mux: false,
            port: 12006,
            rtcp_port: 12007,
            paused: true,
            codec: 1,
        })
    );
    assert_eq!(ports.allocate(), 12008);
}

#[test]
fn recorder_without_producers_still_takes_ports() {
    let mut ports = PortAllocator::new();
    let recorder = Recorder::new(&mut ports, None, None);
    assert_eq!(recorder.audio(), None);
    assert_eq!(recorder.video(), None);
    assert_eq!(recorder.port_number(), 12000);
    assert_eq!(ports.allocate(), 12004);
}

#[test]
fn start_lays_out_the_transcoder() {
    let mut ports = PortAllocator::new();
    let a = audio(1);
    let mut recorder = Recorder::new(&mut ports, Some(&a), None);
    let launch = recorder.start_recording("demo").unwrap();
    assert_eq!(recorder.state(), RecorderState::Starting);
    assert_eq!(launch.sdp_filename, "./profiles/demo.sdp");
    assert_eq!(recorder.sdp_filename(), "");
    assert!(!recorder.has_process());
    assert_eq!(launch.sdp, create_sdp(12000));
    assert_eq!(launch.program, "ffmpeg");
    assert_eq!(launch.output_path, "./recordings/demo_tmp.mp4");
    assert_eq!(
        launch.args,
        strings(&[
            "-protocol_whitelist",
            "file,rtp,udp",
            "-probesize",
            "50M",
            "-fflags",
            "+genpts",
            "-i",
            "./profiles/demo.sdp",
            "-f",
            "mp4",
            "-strict",
            "experimental",
            "-y",
            "./recordings/demo_tmp.mp4",
        ])
    );
    assert!(recorder.start_recording("again").is_none());
    assert_eq!(recorder.state(), RecorderState::Starting);
    assert_eq!(recorder.sdp_filename(), "");
}

#[test]
fn failed_start_leaves_no_trace_of_process_or_description() {
    let mut ports = PortAllocator::new();
    let a = audio(1);
    let mut recorder = Recorder::new(&mut ports, Some(&a), None);
    recorder.start_recording("demo").unwrap();
    assert_eq!(startup_step(&LineRead::End), Startup::Abort("FFmpeg is quit".to_string()));
    assert!(!recorder.has_process());
    assert_eq!(recorder.sdp_filename(), "");
    assert_eq!(recorder.filename(), "");
    assert!(!recorder.is_recording());
}

#[test]
fn running_transcoder_is_noted_with_its_description() {
    let mut ports = PortAllocator::new();
    let mut recorder = Recorder::new(&mut ports, None, None);
    let launch = recorder.start_recording("demo").unwrap();
    recorder.process_started(&launch.sdp_filename);
    assert!(recorder.has_process());
    assert_eq!(recorder.sdp_filename(), "./profiles/demo.sdp");
    assert_eq!(recorder.state(), RecorderState::Starting);
}

#[test]
fn recorder_life_cycle() {
    let mut ports = PortAllocator::new();
    let a = audio(1);
    let mut recorder = Recorder::new(&mut ports, Some(&a), None);
    assert!(!recorder.mark_recording("demo"));
    assert!(recorder.stop_recording().is_none());
    let launch = recorder.start_recording("demo").unwrap();
    assert!(recorder.stop_recording().is_none());
    recorder.process_started(&launch.sdp_filename);
    assert!(recorder.has_process());
    assert!(recorder.mark_recording("demo"));
    assert!(recorder.is_recording());
    assert_eq!(recorder.filename(), "demo");
    let plan = recorder.stop_recording().unwrap();
    assert_eq!(plan.quit, Ok(b"q\n".to_vec()));
    assert_eq!(plan.rename_from, "./recordings/demo_tmp.mp4");
    assert_eq!(plan.rename_to, "./recordings/demo.mp4");
    assert_eq!(plan.remove, "./profiles/demo.sdp");
    assert!(plan.pause_audio);
    assert!(!plan.pause_video);
    assert_eq!(recorder.state(), RecorderState::Stopped);
    assert!(!recorder.has_process());
    assert!(recorder.stop_recording().is_none());
}

#[test]
fn stop_ffmpeg_without_process_fails() {
    let mut ports = PortAllocator::new();
    let mut recorder = Recorder::new(&mut ports, None, None);
    assert_eq!(recorder.stop_ffmpeg(), Err("proc is none".to_string()));
    recorder.process_started("./profiles/x.sdp");
    assert_eq!(recorder.stop_ffmpeg(), Ok(vec![b'q', b'\n']));
    assert_eq!(recorder.stop_ffmpeg(), Err("proc is none".to_string()));
}

#[test]
fn stop_of_recording_without_process_reports_it() {
    let mut ports = PortAllocator::new();
    let v = video(3);
    let mut recorder = Recorder::new(&mut ports, None, Some(&v));
    recorder.start_recording("x").unwrap();
    assert!(recorder.mark_recording("x"));
    let plan = recorder.stop_recording().unwrap();
    assert_eq!(plan.quit, Err("proc is none".to_string()));
    assert!(!plan.pause_audio);
    assert!(plan.pause_video);
}

#[test]
fn startup_waits_for_the_banner() {
    assert_eq!(
        startup_step(&LineRead::Line("ffmpeg version 6.0 Copyright\n".to_string())),
        Startup::Ready
    );
    assert_eq!(startup_step(&LineRead::Line("ffmpeg version".to_string())), Startup::Ready);
    assert_eq!(startup_step(&LineRead::Line("  ffmpeg version 6\n".to_string())), Startup::Wait);
    assert_eq!(startup_step(&LineRead::Line("ffmpeg versio".to_string())), Startup::Wait);
    assert_eq!(startup_step(&LineRead::Line(String::new())), Startup::Wait);
}

#[test]
fn startup_gives_up_on_end_or_failure() {
    assert_eq!(startup_step(&LineRead::End), Startup::Abort("FFmpeg is quit".to_string()));
    assert_eq!(
        startup_step(&LineRead::Failed("broken pipe".to_string())),
        Startup::Abort("Failed to read line: broken pipe".to_string())
    );
}

#[test]
fn draining_goes_on_while_lines_come() {
    assert!(keeps_draining(&LineRead::Line("frame=1\n".to_string())));
    assert!(!keeps_draining(&LineRead::End));
    assert!(!keeps_draining(&LineRead::Failed("e".to_string())));
}

#[test]
fn engine_failure_reports() {
    assert_eq!(
        engine_failure(EngineStep::CreateTransport, MediaKind::Audio, "e"),
        "Failed to create audio transport: e"
    );
    assert_eq!(
        engine_failure(EngineStep::CreateTransport, MediaKind::Video, "e"),
        "Failed to create video transport: e"
    );
    assert_eq!(
        engine_failure(EngineStep::ConnectTransport, MediaKind::Audio, "e"),
        "Failed to connect audio transport: e"
    );
    assert_eq!(
        engine_failure(EngineStep::ConnectTransport, MediaKind::Video, "e"),
        "Failed to connect video transport: e"
    );
    assert_eq!(
        engine_failure(EngineStep::Consume, MediaKind::Audio, "e"),
        "Failed to consume audio transport: e"
    );
    assert_eq!(
        engine_failure(EngineStep::Consume, MediaKind::Video, "e"),
        "Failed to consume video transport: e"
    );
    assert_eq!(
        engine_failure(EngineStep::Resume, MediaKind::Audio, "e"),
        "Failed to start audio consumer: e"
    );
    assert_eq!(
        engine_failure(EngineStep::Resume, MediaKind::Video, "e"),
        "Failed to start video consumer: e"
    );
    assert_eq!(
        pause_failure(MediaKind::Audio, "closed"),
        "Failed to pause audio consumer: closed"
    );
    assert_eq!(pause_failure(MediaKind::Video, ""), "Failed to pause video consumer: ");
}

fn room_with(producers: &[Producer]) -> (Room, ParticipantId) {
    let mut room = Room::new_with_id(&RouterOutcome::Created(RouterId(1)), RoomId(1)).unwrap();
    let a = ParticipantId(10);
    room.set_participant_name(a, "a".to_string());
    for p in producers {
        room.add_producer(a, *p);
    }
    (room, a)
}

#[test]
fn room_recording_of_unknown_participant_fails() {
    let (room, _) = room_with(&[audio(1)]);
    let mut ports = PortAllocator::new();
    let started = room.start_recording(&mut ports, &ParticipantId(99), "x");
    assert_eq!(started.err(), Some("Invalid participant is specified.".to_string()));
    assert_eq!(ports.allocate(), 12000);
}

#[test]
fn room_recording_takes_first_producer_of_each_kind() {
    let (room, a) = room_with(&[video(1), audio(2), video(3), audio(4)]);
    let mut ports = PortAllocator::new();
    let (recorder, launch) = room.start_recording(&mut ports, &a, "talk").unwrap();
    assert_eq!(recorder.state(), RecorderState::Starting);
    assert_eq!(recorder.audio().unwrap().producer_id, ProducerId(2));
    assert_eq!(recorder.audio().unwrap().port, 12000);
    assert_eq!(recorder.video().unwrap().producer_id, ProducerId(1));
    assert_eq!(recorder.video().unwrap().port, 12002);
    assert_eq!(launch.sdp_filename, "./profiles/talk.sdp");
    assert_eq!(recorder.sdp_filename(), "");
    assert!(!recorder.has_process());
    assert!(room.recorder().is_none());
}

#[test]
fn room_recording_of_participant_without_video() {
    let (room, a) = room_with(&[audio(2)]);
    let mut ports = PortAllocator::new();
    let (recorder, _) = room.start_recording(&mut ports, &a, "talk").unwrap();
    assert!(recorder.audio().is_some());
    assert!(recorder.video().is_none());
}

#[test]
fn second_recording_takes_the_slot_and_hands_the_first_back() {
    let (mut room, a) = room_with(&[audio(2)]);
    let mut ports = PortAllocator::new();
    let (mut first, launch) = room.start_recording(&mut ports, &a, "one").unwrap();
    first.process_started(&launch.sdp_filename);
    assert!(first.mark_recording("one"));
    assert!(room.set_recorder(first).is_none());
    let (mut second, launch) = room.start_recording(&mut ports, &a, "two").unwrap();
    second.process_started(&launch.sdp_filename);
    assert!(second.mark_recording("two"));
    let replaced = room.set_recorder(second).unwrap();
    assert_eq!(replaced.filename(), "one");
    assert_eq!(replaced.port_number(), 12000);
    let held = room.recorder().as_ref().unwrap();
    assert_eq!(held.filename(), "two");
    assert_eq!(held.port_number(), 12004);
    assert!(held.is_recording());
}

#[test]
fn room_stop_recording_is_idempotent() {
    let (mut room, a) = room_with(&[audio(2)]);
    assert!(room.stop_recording().is_none());
    let mut ports = PortAllocator::new();
    let (mut recorder, launch) = room.start_recording(&mut ports, &a, "one").unwrap();
    recorder.process_started(&launch.sdp_filename);
    recorder.mark_recording("one");
    room.set_recorder(recorder);
    let plan = room.stop_recording().unwrap();
    assert_eq!(plan.rename_to, "./recordings/one.mp4");
    assert!(room.stop_recording().is_none());
    assert_eq!(room.recorder().as_ref().unwrap().state(), RecorderState::Stopped);
}

#[test]
fn closing_a_room_stops_its_recording() {
    let (mut room, a) = room_with(&[audio(2)]);
    let mut ports = PortAllocator::new();
    let (mut recorder, launch) = room.start_recording(&mut ports, &a, "one").unwrap();
    recorder.process_started(&launch.sdp_filename);
    recorder.mark_recording("one");
    room.set_recorder(recorder);
    let closing = room.close();
    let plan = closing.stop.unwrap();
    assert_eq!(plan.remove, "./profiles/one.sdp");
    assert_eq!(plan.quit, Ok(vec![b'q', b'\n']));
    assert!(room.close().stop.is_none());
}
