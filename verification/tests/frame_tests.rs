use ffmpeg_di::error::Error;
use ffmpeg_di::host::Host;
use ffmpeg_di::util::channel_layout::ChannelLayout;
use ffmpeg_di::util::frame::{Audio, Frame, Sample, SampleKind, SampleType, AV_NOPTS_VALUE};
use ffmpeg_di::util::samplefmt::SampleFormat;
use ffmpeg_di::codec::codec_id::CodecId;
use ffmpeg_di::codec::codec_par::Parameters;
use ffmpeg_di::codec::context::Context;
use ffmpeg_di::format::packet::Packet;

#[test]
fn test_planar_two_channel_buffer_as_byte_pairs() {
    let mut host = Host::new();
    let layout = ChannelLayout::default(2);
    let a = Audio::new(&mut host, SampleFormat::U8P, 100, layout);
    assert_eq!(a.planes(), 2);
    assert!(a.is_planar());

    // The two-value byte type matches a 2-channel planar byte buffer
    // and yields one element per sample.
    let pair = SampleType { kind: SampleKind::U8, lanes: 2 };
    let view = a.data(pair, 0).expect("valid interpretation");
    assert_eq!(view.len(), 100);

    // The same buffer read as a single-channel type is refused.
    let scalar = SampleType { kind: SampleKind::U8, lanes: 1 };
    assert!(matches!(a.data(scalar, 0), Err(Error::UnsupportedSampleType)));

    // A plane index past the channel count is refused.
    assert!(matches!(a.data(pair, 5), Err(Error::InvalidPlaneIndex)));

    a.close(&mut host);
}

#[test]
fn test_packed_buffer_yields_interleaved_elements() {
    let mut host = Host::new();
    let layout = ChannelLayout::default(2);
    let a = Audio::new(&mut host, SampleFormat::S16, 50, layout);
    assert_eq!(a.planes(), 1);
    assert!(a.is_packed());

    let scalar = SampleType { kind: SampleKind::I16, lanes: 2 };
    assert!(matches!(a.data(scalar, 0), Err(Error::UnsupportedSampleType)));

    let scalar = SampleType { kind: SampleKind::I16, lanes: 1 };
    let view = a.data(scalar, 0).expect("valid interpretation");
    assert_eq!(view.len(), 100);
    assert_eq!(view.bytes().len(), 200);

    a.close(&mut host);
}

#[test]
fn test_empty_frame_has_no_planes_and_no_timestamp() {
    let mut host = Host::new();
    let f = Frame::empty(&mut host);
    assert!(f.is_empty());
    assert_eq!(f.pts(), None);
    assert_eq!(f.duration(), 0);
    assert_eq!(f.best_effort_timestamp(), 0);
    f.close(&mut host);

    let a = Audio::empty(&mut host);
    assert_eq!(a.planes(), 0);
    assert!(matches!(
        a.data(SampleType { kind: SampleKind::U8, lanes: 1 }, 0),
        Err(Error::InvalidPlaneIndex)
    ));
    a.close(&mut host);
}

#[test]
fn test_audio_parameter_setters() {
    let mut host = Host::new();
    let mut a = Audio::empty(&mut host);
    a.set_format(SampleFormat::S32P);
    a.set_samples(10);
    a.set_channel_layout(ChannelLayout::default(3));
    a.set_sample_rate(44100);
    assert_eq!(a.format(), SampleFormat::S32P);
    assert_eq!(a.samples(), 10);
    assert_eq!(a.channels(), 3);
    assert_eq!(a.sample_rate(), 44100);
    assert_eq!(a.channel_layout().nb_channels(), 3);

    a.allocate(SampleFormat::S32P, 10, ChannelLayout::default(3));
    assert_eq!(a.planes(), 3);
    let triple = SampleType { kind: SampleKind::I32, lanes: 3 };
    assert_eq!(a.data(triple, 2).unwrap().len(), 10);
    a.close(&mut host);
}

#[test]
fn test_no_timestamp_marker_is_the_most_negative_value() {
    assert_eq!(AV_NOPTS_VALUE, i64::MIN);
}

#[test]
fn test_audio_duplicate_is_independent() {
    let mut host = Host::new();
    let a = Audio::new(&mut host, SampleFormat::S16, 25, ChannelLayout::default(2));
    let b = a.duplicate(&mut host);
    assert_eq!(b.format(), SampleFormat::S16);
    assert_eq!(b.samples(), 25);
    assert_eq!(b.channels(), 2);
    assert_eq!(b.planes(), 1);
    // Two owners, two closes, two frees.
    a.close(&mut host);
    b.close(&mut host);
    assert_eq!(host.freed_entries().len(), 2);
}

#[test]
fn test_received_frame_carries_decoded_shape() {
    let mut host = Host::new();
    let base = Parameters::new(&mut host);
    let ctx = Context::parameters_to_context(&mut host, &base).unwrap();
    base.close(&mut host);
    let codec = ffmpeg_di::codec::find(CodecId::PCM_S16LE).unwrap();
    let mut dec = ctx.decoder();
    dec.open_as(&codec).unwrap();

    let p = Packet::new(&mut host, 100);
    dec.send_packet(&p).unwrap();
    p.close(&mut host);

    let mut frame = Frame::empty(&mut host);
    dec.receive_frame(&mut frame).unwrap();
    // The context had no sample layout, so the decoded frame carries
    // none either.
    assert!(frame.is_empty());
    frame.close(&mut host);
    dec.close(&mut host);
}

#[test]
fn test_generic_sample_accessor_matches_descriptor_form() {
    let mut host = Host::new();
    let a = Audio::new(&mut host, SampleFormat::U8P, 64, ChannelLayout::default(2));

    // Generic dispatch agrees with the descriptor-driven accessor.
    let v = a.data_as::<(u8, u8)>(0).expect("valid interpretation");
    assert_eq!(v.len(), 64);
    assert!(matches!(
        a.data_as::<u8>(0),
        Err(Error::UnsupportedSampleType)
    ));
    assert!(matches!(
        a.data_as::<(u8, u8)>(5),
        Err(Error::InvalidPlaneIndex)
    ));
    assert!(matches!(
        a.data_as::<(i16, i16)>(0),
        Err(Error::UnsupportedSampleType)
    ));

    a.close(&mut host);
}

#[test]
fn test_sample_validity_table() {
    // Scalars read packed buffers of their encoding, or mono planar.
    assert!(u8::is_valid(SampleFormat::U8, 2));
    assert!(u8::is_valid(SampleFormat::U8P, 1));
    assert!(!u8::is_valid(SampleFormat::U8P, 2));
    assert!(!u8::is_valid(SampleFormat::S16, 1));
    // Tuples read planar buffers with exactly their channel count.
    assert!(<(i16, i16)>::is_valid(SampleFormat::S16P, 2));
    assert!(!<(i16, i16)>::is_valid(SampleFormat::S16, 2));
    assert!(!<(i16, i16)>::is_valid(SampleFormat::S16P, 3));
    assert!(<(i64, i64, i64, i64, i64, i64, i64)>::is_valid(SampleFormat::S64P, 7));
    assert!(!<(i32, i32, i32)>::is_valid(SampleFormat::S32P, 4));
}
