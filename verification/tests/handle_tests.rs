use ffmpeg_di::format::destroy::{Destroy, Mode};
use ffmpeg_di::host::Host;
use ffmpeg_di::codec::codec_id::CodecId;
use ffmpeg_di::format::input::{find_input_format, open_with_format, MediaStore, Source};
use ffmpeg_di::format::stream::StreamData;
use ffmpeg_di::util::channel_layout::ChannelLayout;
use ffmpeg_di::util::dict::Dictionary;
use ffmpeg_di::util::discard::Discard;
use ffmpeg_di::util::media::Type;
use ffmpeg_di::util::rational::Rational;
use ffmpeg_di::util::samplefmt::SampleFormat;

#[test]
fn test_owning_handle_frees_exactly_once() {
    let mut host = Host::new();
    let f = ffmpeg_di::util::frame::Frame::empty(&mut host);
    // The handle owns the only reference; before close nothing has
    // been freed.
    assert_eq!(host.freed_entries().len(), 0);
    f.close(&mut host);
    let addr = host.freed_entries()[0];
    assert_eq!(host.freed_times(addr), 1);
    assert!(!host.live(addr));
    assert_eq!(host.freed_entries().len(), 1);
}

#[test]
fn test_shared_destructor_frees_once_after_last_drop() {
    let mut host = Host::new();
    let addr = host.allocate();
    let d0 = Destroy::new(&mut host, addr, None, Mode::Input);
    let d1 = d0.share(&mut host);
    let d2 = d0.share(&mut host);
    let d3 = d0.share(&mut host);

    assert_eq!(host.freed_times(addr), 0);
    d1.release(&mut host);
    assert_eq!(host.freed_times(addr), 0);
    assert!(host.live(addr));
    d2.release(&mut host);
    assert_eq!(host.freed_times(addr), 0);
    assert!(host.live(addr));
    d3.release(&mut host);
    assert_eq!(host.freed_times(addr), 0);
    assert!(host.live(addr));
    d0.release(&mut host);
    assert_eq!(host.freed_times(addr), 1);
    assert!(!host.live(addr));
}

#[test]
fn test_output_teardown_closes_io_before_context() {
    let mut host = Host::new();
    let ctx = host.allocate();
    let io = host.allocate();
    let d = Destroy::new(&mut host, ctx, Some(io), Mode::Output);
    let d2 = d.share(&mut host);
    d.release(&mut host);
    assert_eq!(host.freed_entries().len(), 0);
    d2.release(&mut host);
    let log = host.freed_entries();
    assert_eq!(log.len(), 2);
    assert_eq!(log[0], io);
    assert_eq!(log[1], ctx);
    assert_eq!(host.freed_times(io), 1);
    assert_eq!(host.freed_times(ctx), 1);
}

#[test]
fn test_fresh_addresses_are_never_reused() {
    let mut host = Host::new();
    let a = host.allocate();
    host.free(a);
    let b = host.allocate();
    let c = host.allocate();
    assert_ne!(a, b);
    assert_ne!(a, c);
    assert_ne!(b, c);
    assert_eq!(host.freed_times(a), 1);
}

#[test]
fn test_parameters_keep_parent_alive() {
    let fmt = find_input_format("s16le").unwrap();
    let mut host = Host::new();
    let mut store = MediaStore::new();
    store.add(Source {
        path: "a.pcm".to_owned(),
        format: find_input_format("s16le").unwrap(),
        bit_rate: 0,
        duration: 0,
        streams: vec![StreamData {
            id: 7,
            codec_id: CodecId::PCM_S16LE,
            time_base: Rational::new(1, 16000),
            frame_rate: Rational::new(0, 1),
            avg_frame_rate: Rational::new(0, 1),
            start_time: 0,
            duration: 0,
            nb_frames: 0,
            disposition: 0,
            discard: Discard::Default,
            sample_rate: 16000,
            layout: ChannelLayout::default(1),
            format: SampleFormat::S16,
            metadata: Dictionary::new(),
            side_data: Vec::new(),
        }],
        packets: Vec::new(),
    });
    let c = open_with_format(&mut host, &store, "a.pcm", &fmt).unwrap();
    let p = {
        let streams = c.streams();
        let s = streams.best(Type::Audio).unwrap();
        s.parameters(&mut host)
    };
    // Closing the input context drops one of two references; the
    // resource stays alive for the derived parameters.
    c.close(&mut host);
    assert_eq!(host.freed_entries().len(), 0);
    assert_eq!(p.codec_id(), CodecId::PCM_S16LE);
    // Dropping the last reference tears the context down exactly once.
    p.close(&mut host);
    assert_eq!(host.freed_entries().len(), 1);
}
