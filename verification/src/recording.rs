//! Bookkeeping of a recording: the loopback ports it uses, the egress of
//! each media kind, the session description and command line handed to the
//! transcoder, and the recorder's life cycle.
use crate::engine::{loopback, Ipv4};
use crate::ids::ProducerId;
use crate::room::{MediaKind, Producer};
use vstd::prelude::*;
use vstd::string::*;

verus! {

/// First port that a recording may use.
pub const RECORDING_PORT_MIN: u16 = 12000;

/// Port at which the allocator wraps around.
pub const RECORDING_PORT_MAX: u16 = 13000;

/// The port block that is handed out after the block at `port`.
pub open spec fn following(port: u16) -> u16 {
    if port >= RECORDING_PORT_MAX {
        RECORDING_PORT_MIN
    } else {
        (port + 4) as u16
    }
}

/// Whether `port` is the first port of a block that the allocator hands
/// out: in the range, a multiple of four above its bottom.
pub open spec fn is_block(port: u16) -> bool {
    &&& RECORDING_PORT_MIN <= port <= RECORDING_PORT_MAX
    &&& (port - RECORDING_PORT_MIN) % 4 == 0
}

/// After a block comes the block four ports higher, and after the top one
/// the bottom one: the allocator never leaves its range.
pub proof fn lemma_following_is_block(port: u16)
    requires
        is_block(port),
    ensures
        is_block(following(port)),
        port < RECORDING_PORT_MAX ==> following(port) == port + 4,
        port == RECORDING_PORT_MAX ==> following(port) == RECORDING_PORT_MIN,
{
}

/// Hands out blocks of four consecutive ports, cycling through a fixed
/// range. One allocator serves every recorder of the process.
#[derive(Debug)]
pub struct PortAllocator {
    next: u16,
}

impl PortAllocator {
    #[verifier::type_invariant]
    spec fn inv(&self) -> bool {
        is_block(self.next)
    }

    /// The first port of the block that the next call of `allocate` returns.
    pub closed spec fn upcoming(&self) -> u16 {
        self.next
    }

    /// An allocator that starts at the bottom of the range.
    pub fn new() -> (ports: PortAllocator)
        ensures
            ports.upcoming() == RECORDING_PORT_MIN,
    {
        PortAllocator { next: RECORDING_PORT_MIN }
    }

    /// Hands out the first port of a block of four and moves on to the next
    /// block, back to the bottom of the range after the top one.
    pub fn allocate(&mut self) -> (port: u16)
        ensures
            port == old(self).upcoming(),
            final(self).upcoming() == following(port),
            is_block(port),
    {
        proof {
            use_type_invariant(&*self);
        }
        let port = self.next;
        self.next = if port >= RECORDING_PORT_MAX {
            RECORDING_PORT_MIN
        } else {
            port + 4
        };
        port
    }
}

/// How one media kind leaves the router towards the transcoder: a one-way
/// transport on loopback with a fixed remote endpoint, RTCP on a port of its
/// own, and a consumer that is created paused and offered a single codec.
#[derive(Debug, Copy, Clone, PartialEq, Eq, Structural)]
pub struct Egress {
    /// The producer that is consumed.
    pub producer_id: ProducerId,
    pub kind: MediaKind,
    /// Address the transport listens on and sends to.
    pub ip: Ipv4,
    /// Whether the remote endpoint is learned from incoming packets.
    pub comedia: bool,
    /// Whether RTP and RTCP share a port.
    pub rtcp_mux: bool,
    /// Remote RTP port.
    pub port: u16,
    /// Remote RTCP port.
    pub rtcp_port: u16,
    /// Whether the consumer is created paused.
    pub paused: bool,
    /// Place of the offered codec among the room's configured codecs.
    pub codec: usize,
}

/// The egress of the producer `producer_id` as the recording's stream of
/// kind `kind`, on the port block that starts at `first`: audio on the first
/// two ports and offered the first configured codec, video on the last two
/// and offered the second.
pub open spec fn egress_of(producer_id: ProducerId, kind: MediaKind, first: u16) -> Egress {
    let offset: u16 = match kind {
        MediaKind::Audio => 0,
        MediaKind::Video => 2,
    };
    Egress {
        producer_id,
        kind,
        ip: loopback(),
        comedia: false,
        rtcp_mux: false,
        port: (first + offset) as u16,
        rtcp_port: (first + offset + 1) as u16,
        paused: true,
        codec: match kind {
            MediaKind::Audio => 0,
            MediaKind::Video => 1,
        },
    }
}

/// Where a recorder is in its life.
#[derive(Debug, Copy, Clone, PartialEq, Eq, Structural)]
pub enum RecorderState {
    Idle,
    Starting,
    Recording,
    Stopping,
    Stopped,
}

/// Mathematical value of a [`Recorder`].
pub struct RecorderView {
    pub state: RecorderState,
    pub audio: Option<Egress>,
    pub video: Option<Egress>,
    pub port_number: u16,
    pub has_process: bool,
    pub filename: Seq<char>,
    pub sdp_filename: Seq<char>,
}

/// The recording of one participant's audio and video.
#[derive(Debug)]
pub struct Recorder {
    state: RecorderState,
    audio: Option<Egress>,
    video: Option<Egress>,
    port_number: u16,
    has_process: bool,
    filename: String,
    sdp_filename: String,
}

/// What the transcoder is started with.
#[derive(Debug, Clone, PartialEq, Eq)]
pub struct Launch {
    /// Where the session description is written.
    pub sdp_filename: String,
    /// The session description.
    pub sdp: String,
    /// The program to run.
    pub program: String,
    /// Its arguments.
    pub args: Vec<String>,
    /// Where it writes while the recording goes on.
    pub output_path: String,
}

/// What is left to do once a recording has been told to stop.
#[derive(Debug, PartialEq, Eq)]
pub struct StopPlan {
    /// What to write to the transcoder's input, or why there is no
    /// transcoder to tell.
    pub quit: Result<Vec<u8>, String>,
    /// The temporary output file.
    pub rename_from: String,
    /// Its final name.
    pub rename_to: String,
    /// The session description file to delete.
    pub remove: String,
    /// Whether an audio consumer is to be paused.
    pub pause_audio: bool,
    /// Whether a video consumer is to be paused.
    pub pause_video: bool,
}

/// The character of the decimal digit `d`.
pub open spec fn digit(d: nat) -> char {
    if d == 0 {
        '0'
    } else if d == 1 {
        '1'
    } else if d == 2 {
        '2'
    } else if d == 3 {
        '3'
    } else if d == 4 {
        '4'
    } else if d == 5 {
        '5'
    } else if d == 6 {
        '6'
    } else if d == 7 {
        '7'
    } else if d == 8 {
        '8'
    } else {
        '9'
    }
}

/// `n` in decimal, without leading zeros.
pub open spec fn decimal(n: nat) -> Seq<char>
    decreases n,
{
    if n < 10 {
        seq![digit(n)]
    } else {
        decimal(n / 10).push(digit(n % 10))
    }
}

/// Where the session description of the recording `name` is written.
pub open spec fn sdp_path(name: Seq<char>) -> Seq<char> {
    "./profiles/"@ + name + ".sdp"@
}

/// Where the transcoder writes the recording `name` while it goes on.
pub open spec fn temporary_path(name: Seq<char>) -> Seq<char> {
    "./recordings/"@ + name + "_tmp.mp4"@
}

/// Where the recording `name` lies once it has been stopped.
pub open spec fn final_path(name: Seq<char>) -> Seq<char> {
    "./recordings/"@ + name + ".mp4"@
}

/// The session description of a recording on the port block at `port`:
/// Opus audio with payload type 111 on the first port, H.264 video with
/// payload type 125 on the third, each with RTCP on the port after its own.
pub open spec fn sdp_text(port: nat) -> Seq<char> {
    "\nv=0\no=- 0 0 IN IP4 127.0.0.1\ns=-\nc=IN IP4 127.0.0.1\nt=0 0\nm=audio "@ + decimal(port)
        + " RTP/AVPF 111\na=rtcp:"@ + decimal(port + 1)
        + "\na=rtpmap:111 opus/48000/2\na=fmtp:111 minptime=10;useinbandfec=1\nm=video "@
        + decimal(port + 2) + " RTP/AVPF 125\na=rtcp:"@ + decimal(port + 3)
        + "\na=rtpmap:125 H264/90000\n"@
}

/// The transcoder's arguments for the session description at `sdp` and the
/// output file `output`.
pub open spec fn transcoder_args(sdp: Seq<char>, output: Seq<char>) -> Seq<Seq<char>> {
    seq![
        "-protocol_whitelist"@,
        "file,rtp,udp"@,
        "-probesize"@,
        "50M"@,
        "-fflags"@,
        "+genpts"@,
        "-i"@,
        sdp,
        "-f"@,
        "mp4"@,
        "-strict"@,
        "experimental"@,
        "-y"@,
        output,
    ]
}

/// `plan` is what stopping a recording with the value `r` leaves to do:
/// tell the transcoder to quit if one runs, give the output its final name,
/// delete the session description, and pause the consumers that exist.
pub open spec fn stop_plan_for(plan: StopPlan, r: RecorderView) -> bool {
    &&& plan.quit.is_ok() == r.has_process
    &&& (plan.quit matches Ok(directive) ==> directive@ == seq![0x71u8, 0x0au8])
    &&& (plan.quit matches Err(reason) ==> reason@ == "proc is none"@)
    &&& plan.rename_from@ == temporary_path(r.filename)
    &&& plan.rename_to@ == final_path(r.filename)
    &&& plan.remove@ == r.sdp_filename
    &&& plan.pause_audio == r.audio.is_some()
    &&& plan.pause_video == r.video.is_some()
}

/// The values of a vector of strings.
pub open spec fn texts(items: Seq<String>) -> Seq<Seq<char>> {
    Seq::new(items.len(), |i: int| items[i]@)
}

fn digit_text(d: u16) -> (text: &'static str)
    requires
        d < 10,
    ensures
        text@ == seq![digit(d as nat)],
{
    proof {
        reveal_strlit("0");
        reveal_strlit("1");
        reveal_strlit("2");
        reveal_strlit("3");
        reveal_strlit("4");
        reveal_strlit("5");
        reveal_strlit("6");
        reveal_strlit("7");
        reveal_strlit("8");
        reveal_strlit("9");
    }
    let text = if d == 0 {
        "0"
    } else if d == 1 {
        "1"
    } else if d == 2 {
        "2"
    } else if d == 3 {
        "3"
    } else if d == 4 {
        "4"
    } else if d == 5 {
        "5"
    } else if d == 6 {
        "6"
    } else if d == 7 {
        "7"
    } else if d == 8 {
        "8"
    } else {
        "9"
    };
    assert(text@ =~= seq![digit(d as nat)]);
    text
}

/// Appends `n` in decimal to `text`.
pub fn push_decimal(text: &mut String, n: u16)
    ensures
        final(text)@ == old(text)@ + decimal(n as nat),
    decreases n,
{
    if n >= 10 {
        push_decimal(text, n / 10);
    }
    text.append(digit_text(n % 10));
    assert(text@ =~= old(text)@ + decimal(n as nat));
}

/// Writes the session description of a recording on the port block that
/// starts at `port_number`.
pub fn create_sdp(port_number: u16) -> (text: String)
    requires
        port_number <= u16::MAX - 3,
    ensures
        text@ == sdp_text(port_number as nat),
{
    let mut text =
        "\nv=0\no=- 0 0 IN IP4 127.0.0.1\ns=-\nc=IN IP4 127.0.0.1\nt=0 0\nm=audio ".to_owned();
    push_decimal(&mut text, port_number);
    text.append(" RTP/AVPF 111\na=rtcp:");
    push_decimal(&mut text, port_number + 1);
    text.append(
        "\na=rtpmap:111 opus/48000/2\na=fmtp:111 minptime=10;useinbandfec=1\nm=video ",
    );
    push_decimal(&mut text, port_number + 2);
    text.append(" RTP/AVPF 125\na=rtcp:");
    push_decimal(&mut text, port_number + 3);
    text.append("\na=rtpmap:125 H264/90000\n");
    text
}

fn joined(head: &str, middle: &str, tail: &str) -> (text: String)
    ensures
        text@ == head@ + middle@ + tail@,
{
    let mut text = head.to_owned();
    text.append(middle);
    text.append(tail);
    text
}

/// What reading one line of the transcoder's diagnostics gave.
#[derive(Debug, Clone, PartialEq, Eq)]
pub enum LineRead {
    /// A line was read.
    Line(String),
    /// The stream has ended.
    End,
    /// Reading failed, for the reason given.
    Failed(String),
}

/// What to do after one line while waiting for the transcoder to start.
#[derive(Debug, Clone, PartialEq, Eq)]
pub enum Startup {
    /// Read on.
    Wait,
    /// The transcoder has announced itself.
    Ready,
    /// The transcoder will not start, for the reason given.
    Abort(String),
}

/// Whether `line` is the line by which the transcoder announces itself.
pub open spec fn is_banner(line: Seq<char>) -> bool {
    "ffmpeg version"@.is_prefix_of(line)
}

/// Tells through `str::starts_with` whether `text` begins with `prefix`.
#[verifier::external_body]
fn starts_with(text: &str, prefix: &str) -> (begins: bool)
    ensures
        begins == prefix@.is_prefix_of(text@),
{
    text.starts_with(prefix)
}

/// Judges one read while waiting for the transcoder to start: its banner
/// ends the wait, another line prolongs it, and the end of the stream or a
/// failed read gives the start up.
pub fn startup_step(read: &LineRead) -> (step: Startup)
    ensures
        match *read {
            LineRead::Line(line) => if is_banner(line@) {
                step is Ready
            } else {
                step is Wait
            },
            LineRead::End => step matches Startup::Abort(reason) && reason@ == "FFmpeg is quit"@,
            LineRead::Failed(error) => step matches Startup::Abort(reason) && reason@
                == "Failed to read line: "@ + error@,
        },
{
    match read {
        LineRead::Line(line) => {
            if starts_with(line.as_str(), "ffmpeg version") {
                Startup::Ready
            } else {
                Startup::Wait
            }
        },
        LineRead::End => Startup::Abort("FFmpeg is quit".to_owned()),
        LineRead::Failed(error) => {
            let mut reason = "Failed to read line: ".to_owned();
            reason.append(error.as_str());
            Startup::Abort(reason)
        },
    }
}

/// Whether to go on draining the transcoder's diagnostics after one read:
/// as long as lines come.
pub fn keeps_draining(read: &LineRead) -> (more: bool)
    ensures
        more == (*read is Line),
{
    match read {
        LineRead::Line(_) => true,
        _ => false,
    }
}

/// A step of building or running an egress in the media engine.
#[derive(Debug, Copy, Clone, PartialEq, Eq, Structural)]
pub enum EngineStep {
    CreateTransport,
    ConnectTransport,
    Consume,
    Resume,
}

/// The words that open the report of a failed engine step.
pub open spec fn failure_opening(step: EngineStep, kind: MediaKind) -> Seq<char> {
    match (step, kind) {
        (EngineStep::CreateTransport, MediaKind::Audio) => "Failed to create audio transport: "@,
        (EngineStep::CreateTransport, MediaKind::Video) => "Failed to create video transport: "@,
        (EngineStep::ConnectTransport, MediaKind::Audio) => "Failed to connect audio transport: "@,
        (EngineStep::ConnectTransport, MediaKind::Video) => "Failed to connect video transport: "@,
        (EngineStep::Consume, MediaKind::Audio) => "Failed to consume audio transport: "@,
        (EngineStep::Consume, MediaKind::Video) => "Failed to consume video transport: "@,
        (EngineStep::Resume, MediaKind::Audio) => "Failed to start audio consumer: "@,
        (EngineStep::Resume, MediaKind::Video) => "Failed to start video consumer: "@,
    }
}

/// The report of an engine step that failed with `error`.
pub fn engine_failure(step: EngineStep, kind: MediaKind, error: &str) -> (report: String)
    ensures
        report@ == failure_opening(step, kind) + error@,
{
    let opening = match (step, kind) {
        (EngineStep::CreateTransport, MediaKind::Audio) => "Failed to create audio transport: ",
        (EngineStep::CreateTransport, MediaKind::Video) => "Failed to create video transport: ",
        (EngineStep::ConnectTransport, MediaKind::Audio) => "Failed to connect audio transport: ",
        (EngineStep::ConnectTransport, MediaKind::Video) => "Failed to connect video transport: ",
        (EngineStep::Consume, MediaKind::Audio) => "Failed to consume audio transport: ",
        (EngineStep::Consume, MediaKind::Video) => "Failed to consume video transport: ",
        (EngineStep::Resume, MediaKind::Audio) => "Failed to start audio consumer: ",
        (EngineStep::Resume, MediaKind::Video) => "Failed to start video consumer: ",
    };
    let mut report = opening.to_owned();
    report.append(error);
    report
}

/// The words that open the report of a consumer that could not be paused.
pub open spec fn pause_opening(kind: MediaKind) -> Seq<char> {
    match kind {
        MediaKind::Audio => "Failed to pause audio consumer: "@,
        MediaKind::Video => "Failed to pause video consumer: "@,
    }
}

/// The report of a consumer of kind `kind` that could not be paused, for
/// the reason `error`.
pub fn pause_failure(kind: MediaKind, error: &str) -> (report: String)
    ensures
        report@ == pause_opening(kind) + error@,
{
    let opening = match kind {
        MediaKind::Audio => "Failed to pause audio consumer: ",
        MediaKind::Video => "Failed to pause video consumer: ",
    };
    let mut report = opening.to_owned();
    report.append(error);
    report
}

impl View for Recorder {
    type V = RecorderView;

    closed spec fn view(&self) -> RecorderView {
        RecorderView {
            state: self.state,
            audio: self.audio,
            video: self.video,
            port_number: self.port_number,
            has_process: self.has_process,
            filename: self.filename@,
            sdp_filename: self.sdp_filename@,
        }
    }
}

/// The egress planned for an optional producer.
pub open spec fn planned(producer: Option<&Producer>, kind: MediaKind, first: u16) -> Option<
    Egress,
> {
    match producer {
        Some(p) => Some(egress_of(p.id, kind, first)),
        None => None,
    }
}

fn plan_egress(producer: Option<&Producer>, kind: MediaKind, first: u16) -> (egress: Option<
    Egress,
>)
    requires
        first <= RECORDING_PORT_MAX,
    ensures
        egress == planned(producer, kind, first),
{
    let offset: u16 = match kind {
        MediaKind::Audio => 0,
        MediaKind::Video => 2,
    };
    let codec: usize = match kind {
        MediaKind::Audio => 0,
        MediaKind::Video => 1,
    };
    match producer {
        Some(p) => Some(
            Egress {
                producer_id: p.id,
                kind,
                ip: Ipv4(127, 0, 0, 1),
                comedia: false,
                rtcp_mux: false,
                port: first + offset,
                rtcp_port: first + offset + 1,
                paused: true,
                codec,
            },
        ),
        None => None,
    }
}

impl Recorder {
    #[verifier::type_invariant]
    spec fn inv(&self) -> bool {
        self.port_number <= RECORDING_PORT_MAX
    }

    /// Whether the recording is going on.
    pub open spec fn recording(&self) -> bool {
        self@.state == RecorderState::Recording
    }

    /// Plans a recording of the given producers: takes the next block of
    /// ports and lays out one egress for each producer that is there, audio
    /// on the first two ports of the block and video on the last two. The
    /// caller then builds each egress in the media engine.
    pub fn new(
        ports: &mut PortAllocator,
        audio_producer: Option<&Producer>,
        video_producer: Option<&Producer>,
    ) -> (recorder: Recorder)
        ensures
            final(ports).upcoming() == following(old(ports).upcoming()),
            is_block(recorder@.port_number),
            recorder@ == (RecorderView {
                state: RecorderState::Idle,
                audio: planned(audio_producer, MediaKind::Audio, old(ports).upcoming()),
                video: planned(video_producer, MediaKind::Video, old(ports).upcoming()),
                port_number: old(ports).upcoming(),
                has_process: false,
                filename: Seq::empty(),
                sdp_filename: Seq::empty(),
            }),
    {
        let port_number = ports.allocate();
        let audio = plan_egress(audio_producer, MediaKind::Audio, port_number);
        let video = plan_egress(video_producer, MediaKind::Video, port_number);
        Recorder {
            state: RecorderState::Idle,
            audio,
            video,
            port_number,
            has_process: false,
            filename: String::new(),
            sdp_filename: String::new(),
        }
    }

    /// Where the recorder is in its life.
    pub fn state(&self) -> (state: RecorderState)
        ensures
            state == self@.state,
    {
        self.state
    }

    /// Whether the recording is going on.
    pub fn is_recording(&self) -> (recording: bool)
        ensures
            recording == self.recording(),
    {
        self.state == RecorderState::Recording
    }

    /// The first port of the recorder's block.
    pub fn port_number(&self) -> (port: u16)
        ensures
            port == self@.port_number,
            port <= RECORDING_PORT_MAX,
    {
        proof {
            use_type_invariant(self);
        }
        self.port_number
    }

    /// The name under which the recording goes on; empty before it does.
    pub fn filename(&self) -> (name: &String)
        ensures
            name@ == self@.filename,
    {
        &self.filename
    }

    /// Where the session description lies; empty until the transcoder runs.
    pub fn sdp_filename(&self) -> (name: &String)
        ensures
            name@ == self@.sdp_filename,
    {
        &self.sdp_filename
    }

    /// Whether a transcoder runs for this recorder.
    pub fn has_process(&self) -> (has: bool)
        ensures
            has == self@.has_process,
    {
        self.has_process
    }

    /// The audio egress, if audio is recorded.
    pub fn audio(&self) -> (egress: Option<Egress>)
        ensures
            egress == self@.audio,
    {
        self.audio
    }

    /// The video egress, if video is recorded.
    pub fn video(&self) -> (egress: Option<Egress>)
        ensures
            egress == self@.video,
    {
        self.video
    }

    /// Begins to start an idle recorder under the name `output_name` and
    /// says what to start the transcoder with. Nothing but the recorder's
    /// state changes: where the session description lies is noted only once
    /// the transcoder runs, so a start that fails leaves no trace of it. A
    /// recorder that is not idle stays as it is.
    pub fn start_recording(&mut self, output_name: &str) -> (launch: Option<Launch>)
        ensures
            old(self)@.state != RecorderState::Idle ==> launch.is_none() && final(self)@
                == old(self)@,
            old(self)@.state == RecorderState::Idle ==> launch.is_some() && final(self)@ == (
            RecorderView { state: RecorderState::Starting, ..old(self)@ }),
            launch matches Some(l) ==> {
                &&& l.sdp_filename@ == sdp_path(output_name@)
                &&& l.sdp@ == sdp_text(old(self)@.port_number as nat)
                &&& l.program@ == "ffmpeg"@
                &&& texts(l.args@) == transcoder_args(
                    sdp_path(output_name@),
                    temporary_path(output_name@),
                )
                &&& l.output_path@ == temporary_path(output_name@)
            },
    {
        proof {
            use_type_invariant(&*self);
        }
        if self.state != RecorderState::Idle {
            return None;
        }
        let launch = self.start_recording_process(output_name);
        self.state = RecorderState::Starting;
        Some(launch)
    }

    /// Lays out the transcoder's start for the recording `output_name`.
    fn start_recording_process(&self, output_name: &str) -> (launch: Launch)
        ensures
            launch.sdp_filename@ == sdp_path(output_name@),
            launch.sdp@ == sdp_text(self@.port_number as nat),
            launch.program@ == "ffmpeg"@,
            texts(launch.args@) == transcoder_args(
                sdp_path(output_name@),
                temporary_path(output_name@),
            ),
            launch.output_path@ == temporary_path(output_name@),
    {
        proof {
            use_type_invariant(self);
        }
        let sdp_filename = joined("./profiles/", output_name, ".sdp");
        let sdp = create_sdp(self.port_number);
        let output_path = joined("./recordings/", output_name, "_tmp.mp4");
        let mut args: Vec<String> = Vec::new();
        args.push("-protocol_whitelist".to_owned());
        args.push("file,rtp,udp".to_owned());
        args.push("-probesize".to_owned());
        args.push("50M".to_owned());
        args.push("-fflags".to_owned());
        args.push("+genpts".to_owned());
        args.push("-i".to_owned());
        args.push(sdp_filename.clone());
        args.push("-f".to_owned());
        args.push("mp4".to_owned());
        args.push("-strict".to_owned());
        args.push("experimental".to_owned());
        args.push("-y".to_owned());
        args.push(output_path.clone());
        assert(texts(args@) =~= transcoder_args(
            sdp_path(output_name@),
            temporary_path(output_name@),
        ));
        Launch { sdp_filename, sdp, program: "ffmpeg".to_owned(), args, output_path }
    }

    /// Notes that the transcoder runs, and where the session description
    /// that it was started with lies.
    pub fn process_started(&mut self, sdp_filename: &str)
        ensures
            final(self)@ == (RecorderView {
                has_process: true,
                sdp_filename: sdp_filename@,
                ..old(self)@
            }),
    {
        proof {
            use_type_invariant(&*self);
        }
        self.has_process = true;
        self.sdp_filename = sdp_filename.to_owned();
    }

    /// Marks a starting recorder as recording under the name `output_name`,
    /// once the transcoder runs and the consumers have been resumed. A
    /// recorder that is not starting stays as it is.
    pub fn mark_recording(&mut self, output_name: &str) -> (marked: bool)
        ensures
            marked == (old(self)@.state == RecorderState::Starting),
            marked ==> final(self)@ == (RecorderView {
                state: RecorderState::Recording,
                filename: output_name@,
                ..old(self)@
            }),
            !marked ==> final(self)@ == old(self)@,
    {
        proof {
            use_type_invariant(&*self);
        }
        if self.state != RecorderState::Starting {
            return false;
        }
        self.state = RecorderState::Recording;
        self.filename = output_name.to_owned();
        true
    }

    /// Lets go of the transcoder and says what to write to its input so that
    /// it ends. Fails, with the recorder unchanged, where no transcoder
    /// runs.
    pub fn stop_ffmpeg(&mut self) -> (quit: Result<Vec<u8>, String>)
        ensures
            final(self)@ == (RecorderView { has_process: false, ..old(self)@ }),
            quit.is_ok() == old(self)@.has_process,
            quit matches Ok(directive) ==> directive@ == seq![0x71u8, 0x0au8],
            quit matches Err(reason) ==> reason@ == "proc is none"@,
    {
        proof {
            use_type_invariant(&*self);
        }
        if !self.has_process {
            return Err("proc is none".to_owned());
        }
        self.has_process = false;
        let mut directive: Vec<u8> = Vec::new();
        directive.push(0x71u8);
        directive.push(0x0au8);
        assert(directive@ =~= seq![0x71u8, 0x0au8]);
        Ok(directive)
    }

    /// Stops a recording that is going on and says what is left to do: end
    /// the transcoder, give the output its final name, delete the session
    /// description, pause the consumers. A recorder that is not recording
    /// stays as it is and nothing is to be done.
    pub fn stop_recording(&mut self) -> (plan: Option<StopPlan>)
        ensures
            plan.is_some() == old(self).recording(),
            !old(self).recording() ==> final(self)@ == old(self)@,
            old(self).recording() ==> final(self)@ == (RecorderView {
                state: RecorderState::Stopped,
                has_process: false,
                ..old(self)@
            }),
            plan matches Some(p) ==> stop_plan_for(p, old(self)@),
    {
        proof {
            use_type_invariant(&*self);
        }
        if self.state != RecorderState::Recording {
            return None;
        }
        self.state = RecorderState::Stopping;
        let quit = self.stop_ffmpeg();
        let rename_from = joined("./recordings/", self.filename.as_str(), "_tmp.mp4");
        let rename_to = joined("./recordings/", self.filename.as_str(), ".mp4");
        let remove = self.sdp_filename.clone();
        let pause_audio = self.audio.is_some();
        let pause_video = self.video.is_some();
        self.state = RecorderState::Stopped;
        Some(StopPlan { quit, rename_from, rename_to, remove, pause_audio, pause_video })
    }
}

} // verus!
