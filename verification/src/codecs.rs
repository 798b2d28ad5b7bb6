//! Codec capabilities: the codecs that a room accepts, and the capabilities
//! that a recording's consumers are created with.
use crate::room::MediaKind;
use vstd::prelude::*;

verus! {

/// Audio codecs by their MIME type.
#[derive(Debug, Copy, Clone, PartialEq, Eq, Structural, Hash)]
pub enum MimeTypeAudio {
    Opus,
    MultiChannelOpus,
    Pcmu,
    Pcma,
    Isac,
    G722,
    Ilbc,
    Silk,
    Cn,
    TelephoneEvent,
    Rtx,
    Red,
}

/// Video codecs by their MIME type.
#[derive(Debug, Copy, Clone, PartialEq, Eq, Structural, Hash)]
pub enum MimeTypeVideo {
    Vp8,
    Vp9,
    H264,
    AV1,
    Rtx,
    Red,
    Ulpfec,
}

/// A kind of RTCP feedback that a codec supports.
#[derive(Debug, Copy, Clone, PartialEq, Eq, Structural, Hash)]
pub enum RtcpFeedback {
    Nack,
    NackPli,
    CcmFir,
    GoogRemb,
    TransportCc,
}

/// The value of a codec parameter.
#[derive(Debug, Clone, PartialEq, Eq)]
pub enum ParameterValue {
    Text(String),
    Number(u32),
}

/// A codec-specific parameter.
#[derive(Debug, Clone, PartialEq, Eq)]
pub struct Parameter {
    pub name: String,
    pub value: ParameterValue,
}

/// Mathematical value of a [`ParameterValue`].
pub enum ParameterValueView {
    Text(Seq<char>),
    Number(u32),
}

/// Mathematical value of a [`Parameter`].
pub struct ParameterView {
    pub name: Seq<char>,
    pub value: ParameterValueView,
}

impl View for ParameterValue {
    type V = ParameterValueView;

    open spec fn view(&self) -> ParameterValueView {
        match *self {
            ParameterValue::Text(text) => ParameterValueView::Text(text@),
            ParameterValue::Number(number) => ParameterValueView::Number(number),
        }
    }
}

impl View for Parameter {
    type V = ParameterView;

    open spec fn view(&self) -> ParameterView {
        ParameterView { name: self.name@, value: self.value@ }
    }
}

/// The values of a vector of parameters.
pub open spec fn parameter_views(parameters: Seq<Parameter>) -> Seq<ParameterView> {
    Seq::new(parameters.len(), |i: int| parameters[i]@)
}

/// A codec that a client or a router may be offered.
#[derive(Debug, Clone, PartialEq, Eq)]
#[allow(inconsistent_fields)]
pub enum RtpCodecCapability {
    Audio {
        mime_type: MimeTypeAudio,
        preferred_payload_type: Option<u8>,
        clock_rate: u32,
        channels: u8,
        parameters: Vec<Parameter>,
        rtcp_feedback: Vec<RtcpFeedback>,
    },
    Video {
        mime_type: MimeTypeVideo,
        preferred_payload_type: Option<u8>,
        clock_rate: u32,
        parameters: Vec<Parameter>,
        rtcp_feedback: Vec<RtcpFeedback>,
    },
}

/// A codec as a router has settled it: its payload type is fixed.
#[derive(Debug, Clone, PartialEq, Eq)]
#[allow(inconsistent_fields)]
pub enum RtpCodecCapabilityFinalized {
    Audio {
        mime_type: MimeTypeAudio,
        preferred_payload_type: u8,
        clock_rate: u32,
        channels: u8,
        parameters: Vec<Parameter>,
        rtcp_feedback: Vec<RtcpFeedback>,
    },
    Video {
        mime_type: MimeTypeVideo,
        preferred_payload_type: u8,
        clock_rate: u32,
        parameters: Vec<Parameter>,
        rtcp_feedback: Vec<RtcpFeedback>,
    },
}

/// Mathematical value of a codec capability.
#[allow(inconsistent_fields)]
pub enum CodecView {
    Audio {
        mime_type: MimeTypeAudio,
        preferred_payload_type: Option<u8>,
        clock_rate: u32,
        channels: u8,
        parameters: Seq<ParameterView>,
        rtcp_feedback: Seq<RtcpFeedback>,
    },
    Video {
        mime_type: MimeTypeVideo,
        preferred_payload_type: Option<u8>,
        clock_rate: u32,
        parameters: Seq<ParameterView>,
        rtcp_feedback: Seq<RtcpFeedback>,
    },
}

impl View for RtpCodecCapability {
    type V = CodecView;

    open spec fn view(&self) -> CodecView {
        match *self {
            RtpCodecCapability::Audio {
                mime_type,
                preferred_payload_type,
                clock_rate,
                channels,
                parameters,
                rtcp_feedback,
            } => CodecView::Audio {
                mime_type,
                preferred_payload_type,
                clock_rate,
                channels,
                parameters: parameter_views(parameters@),
                rtcp_feedback: rtcp_feedback@,
            },
            RtpCodecCapability::Video {
                mime_type,
                preferred_payload_type,
                clock_rate,
                parameters,
                rtcp_feedback,
            } => CodecView::Video {
                mime_type,
                preferred_payload_type,
                clock_rate,
                parameters: parameter_views(parameters@),
                rtcp_feedback: rtcp_feedback@,
            },
        }
    }
}

impl RtpCodecCapabilityFinalized {
    /// The capability that offers exactly this codec: the same in every
    /// field, with the settled payload type as the preferred one.
    pub open spec fn offer(&self) -> CodecView {
        match *self {
            RtpCodecCapabilityFinalized::Audio {
                mime_type,
                preferred_payload_type,
                clock_rate,
                channels,
                parameters,
                rtcp_feedback,
            } => CodecView::Audio {
                mime_type,
                preferred_payload_type: Some(preferred_payload_type),
                clock_rate,
                channels,
                parameters: parameter_views(parameters@),
                rtcp_feedback: rtcp_feedback@,
            },
            RtpCodecCapabilityFinalized::Video {
                mime_type,
                preferred_payload_type,
                clock_rate,
                parameters,
                rtcp_feedback,
            } => CodecView::Video {
                mime_type,
                preferred_payload_type: Some(preferred_payload_type),
                clock_rate,
                parameters: parameter_views(parameters@),
                rtcp_feedback: rtcp_feedback@,
            },
        }
    }
}

/// What a header extension is, by its URI.
#[derive(Debug, Copy, Clone, PartialEq, Eq, Structural, Hash)]
pub enum RtpHeaderExtensionUri {
    Mid,
    RtpStreamId,
    RepairRtpStreamId,
    AbsSendTime,
    TransportWideCcDraft01,
    SsrcAudioLevel,
    DependencyDescriptor,
    VideoOrientation,
    AbsCaptureTime,
    PlayoutDelay,
    MediasoupPacketId,
}

/// In which direction a header extension is supported.
#[derive(Debug, Copy, Clone, PartialEq, Eq, Structural, Hash)]
pub enum RtpHeaderExtensionDirection {
    SendRecv,
    SendOnly,
    RecvOnly,
    Inactive,
}

/// A supported RTP header extension.
#[derive(Debug, Copy, Clone, PartialEq, Eq, Structural, Hash)]
pub struct RtpHeaderExtension {
    pub kind: MediaKind,
    pub uri: RtpHeaderExtensionUri,
    pub preferred_id: u16,
    pub preferred_encrypt: bool,
    pub direction: RtpHeaderExtensionDirection,
}

/// What an endpoint can receive.
#[derive(Debug, Clone, PartialEq, Eq)]
pub struct RtpCapabilities {
    pub codecs: Vec<RtpCodecCapability>,
    pub header_extensions: Vec<RtpHeaderExtension>,
}

/// What a router supports.
#[derive(Debug, Clone, PartialEq, Eq)]
pub struct RtpCapabilitiesFinalized {
    pub codecs: Vec<RtpCodecCapabilityFinalized>,
    pub header_extensions: Vec<RtpHeaderExtension>,
}

/// Mathematical value of a set of capabilities.
pub struct CapabilitiesView {
    pub codecs: Seq<CodecView>,
    pub header_extensions: Seq<RtpHeaderExtension>,
}

/// The values of a vector of codecs.
pub open spec fn codec_views(codecs: Seq<RtpCodecCapability>) -> Seq<CodecView> {
    Seq::new(codecs.len(), |i: int| codecs[i]@)
}

/// The capabilities that offer each of a router's codecs.
pub open spec fn offers(codecs: Seq<RtpCodecCapabilityFinalized>) -> Seq<CodecView> {
    Seq::new(codecs.len(), |i: int| codecs[i].offer())
}

impl View for RtpCapabilities {
    type V = CapabilitiesView;

    open spec fn view(&self) -> CapabilitiesView {
        CapabilitiesView {
            codecs: codec_views(self.codecs@),
            header_extensions: self.header_extensions@,
        }
    }
}

/// The parameters of the audio codec that a room accepts.
pub open spec fn opus_parameters() -> Seq<ParameterView> {
    seq![
        ParameterView { name: "minptime"@, value: ParameterValueView::Number(10) },
        ParameterView { name: "useinbandfec"@, value: ParameterValueView::Number(1) },
    ]
}

/// The codecs that a room accepts from its participants: Opus audio at 48
/// kHz in two channels with payload type 111, then H.264 video at 90 kHz
/// with payload type 125, neither with any RTCP feedback.
pub open spec fn accepted_codecs() -> Seq<CodecView> {
    seq![
        CodecView::Audio {
            mime_type: MimeTypeAudio::Opus,
            preferred_payload_type: Some(111u8),
            clock_rate: 48000,
            channels: 2,
            parameters: opus_parameters(),
            rtcp_feedback: Seq::empty(),
        },
        CodecView::Video {
            mime_type: MimeTypeVideo::H264,
            preferred_payload_type: Some(125u8),
            clock_rate: 90000,
            parameters: Seq::empty(),
            rtcp_feedback: Seq::empty(),
        },
    ]
}

fn opus() -> (codec: RtpCodecCapability)
    ensures
        codec@ == accepted_codecs()[0],
{
    let mut parameters: Vec<Parameter> = Vec::new();
    parameters.push(Parameter { name: "minptime".to_owned(), value: ParameterValue::Number(10) });
    parameters.push(
        Parameter { name: "useinbandfec".to_owned(), value: ParameterValue::Number(1) },
    );
    assert(parameter_views(parameters@) =~= opus_parameters());
    RtpCodecCapability::Audio {
        mime_type: MimeTypeAudio::Opus,
        preferred_payload_type: Some(111),
        clock_rate: 48000,
        channels: 2,
        parameters,
        rtcp_feedback: Vec::new(),
    }
}

fn h264() -> (codec: RtpCodecCapability)
    ensures
        codec@ == accepted_codecs()[1],
{
    let parameters: Vec<Parameter> = Vec::new();
    assert(parameter_views(parameters@) =~= Seq::<ParameterView>::empty());
    RtpCodecCapability::Video {
        mime_type: MimeTypeVideo::H264,
        preferred_payload_type: Some(125),
        clock_rate: 90000,
        parameters,
        rtcp_feedback: Vec::new(),
    }
}

/// List of codecs that a room will accept from clients.
pub fn media_codecs() -> (codecs: Vec<RtpCodecCapability>)
    ensures
        codec_views(codecs@) == accepted_codecs(),
{
    let mut codecs: Vec<RtpCodecCapability> = Vec::new();
    codecs.push(opus());
    codecs.push(h264());
    assert(codec_views(codecs@) =~= accepted_codecs());
    codecs
}

fn copy_parameters(parameters: &Vec<Parameter>) -> (copy: Vec<Parameter>)
    ensures
        parameter_views(copy@) == parameter_views(parameters@),
{
    let mut copy: Vec<Parameter> = Vec::new();
    let mut i: usize = 0;
    while i < parameters.len()
        invariant
            i <= parameters@.len(),
            copy@.len() == i,
            forall|k: int| 0 <= k < i ==> copy@[k]@ == parameters@[k]@,
        decreases parameters@.len() - i,
    {
        let value = match &parameters[i].value {
            ParameterValue::Text(text) => ParameterValue::Text(text.clone()),
            ParameterValue::Number(number) => ParameterValue::Number(*number),
        };
        copy.push(Parameter { name: parameters[i].name.clone(), value });
        i += 1;
    }
    assert(parameter_views(copy@) =~= parameter_views(parameters@));
    copy
}

fn copy_feedback(feedback: &Vec<RtcpFeedback>) -> (copy: Vec<RtcpFeedback>)
    ensures
        copy@ == feedback@,
{
    let mut copy: Vec<RtcpFeedback> = Vec::new();
    let mut i: usize = 0;
    while i < feedback.len()
        invariant
            i <= feedback@.len(),
            copy@ == feedback@.take(i as int),
        decreases feedback@.len() - i,
    {
        copy.push(feedback[i]);
        assert(feedback@.take(i + 1) =~= feedback@.take(i as int).push(feedback@[i as int]));
        i += 1;
    }
    assert(feedback@.take(feedback@.len() as int) =~= feedback@);
    copy
}

fn copy_extensions(extensions: &Vec<RtpHeaderExtension>) -> (copy: Vec<RtpHeaderExtension>)
    ensures
        copy@ == extensions@,
{
    let mut copy: Vec<RtpHeaderExtension> = Vec::new();
    let mut i: usize = 0;
    while i < extensions.len()
        invariant
            i <= extensions@.len(),
            copy@ == extensions@.take(i as int),
        decreases extensions@.len() - i,
    {
        copy.push(extensions[i]);
        assert(extensions@.take(i + 1) =~= extensions@.take(i as int).push(
            extensions@[i as int],
        ));
        i += 1;
    }
    assert(extensions@.take(extensions@.len() as int) =~= extensions@);
    copy
}

/// Turns a codec that a router has settled into the capability that
/// offers exactly that codec.
pub fn convert_rtp_codec_capability(src: &RtpCodecCapabilityFinalized) -> (dest:
    RtpCodecCapability)
    ensures
        dest@ == src.offer(),
{
    match src {
        RtpCodecCapabilityFinalized::Audio {
            mime_type,
            preferred_payload_type,
            clock_rate,
            channels,
            parameters,
            rtcp_feedback,
        } => RtpCodecCapability::Audio {
            mime_type: *mime_type,
            preferred_payload_type: Some(*preferred_payload_type),
            clock_rate: *clock_rate,
            channels: *channels,
            parameters: copy_parameters(parameters),
            rtcp_feedback: copy_feedback(rtcp_feedback),
        },
        RtpCodecCapabilityFinalized::Video {
            mime_type,
            preferred_payload_type,
            clock_rate,
            parameters,
            rtcp_feedback,
        } => RtpCodecCapability::Video {
            mime_type: *mime_type,
            preferred_payload_type: Some(*preferred_payload_type),
            clock_rate: *clock_rate,
            parameters: copy_parameters(parameters),
            rtcp_feedback: copy_feedback(rtcp_feedback),
        },
    }
}

/// Turns what a router supports into capabilities that offer the same:
/// each codec as [`convert_rtp_codec_capability`] turns it, the header
/// extensions as they are.
pub fn convert_rtp_capabilities(src: &RtpCapabilitiesFinalized) -> (dest: RtpCapabilities)
    ensures
        dest@ == (CapabilitiesView {
            codecs: offers(src.codecs@),
            header_extensions: src.header_extensions@,
        }),
{
    let mut codecs: Vec<RtpCodecCapability> = Vec::new();
    let mut i: usize = 0;
    while i < src.codecs.len()
        invariant
            i <= src.codecs@.len(),
            codecs@.len() == i,
            forall|k: int| 0 <= k < i ==> codecs@[k]@ == src.codecs@[k].offer(),
        decreases src.codecs@.len() - i,
    {
        codecs.push(convert_rtp_codec_capability(&src.codecs[i]));
        i += 1;
    }
    assert(codec_views(codecs@) =~= offers(src.codecs@));
    RtpCapabilities { codecs, header_extensions: copy_extensions(&src.header_extensions) }
}

/// The place of the codec that a recording of `kind` is offered among the
/// room's accepted codecs.
pub open spec fn recorded_codec(kind: MediaKind) -> int {
    match kind {
        MediaKind::Audio => 0,
        MediaKind::Video => 1,
    }
}

/// The capabilities with which a recording's consumer of kind `kind` is
/// created on a router: the router's header extensions and exactly one
/// codec, the room's first accepted audio codec or its first accepted video
/// codec, so that the stream arrives in the one encoding that the
/// transcoder is told of.
pub fn recording_capabilities(router: &RtpCapabilitiesFinalized, kind: MediaKind) -> (cap:
    RtpCapabilities)
    ensures
        cap@ == (CapabilitiesView {
            codecs: seq![accepted_codecs()[recorded_codec(kind)]],
            header_extensions: router.header_extensions@,
        }),
{
    let src_cap = convert_rtp_capabilities(router);
    let codec = match kind {
        MediaKind::Audio => opus(),
        MediaKind::Video => h264(),
    };
    let mut codecs: Vec<RtpCodecCapability> = Vec::new();
    codecs.push(codec);
    assert(codec_views(codecs@) =~= seq![accepted_codecs()[recorded_codec(kind)]]);
    RtpCapabilities { codecs, header_extensions: src_cap.header_extensions }
}

} // verus!
