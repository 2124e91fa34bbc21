use ffmpeg_di::format::input::{find_input_format, open_with_format, MediaStore, PacketData, Source};
use ffmpeg_di::format::stream::StreamData;
use ffmpeg_di::host::Host;
use ffmpeg_di::codec::codec_id::CodecId;
use ffmpeg_di::util::channel_layout::ChannelLayout;
use ffmpeg_di::util::dict::Dictionary;
use ffmpeg_di::util::discard::Discard;
use ffmpeg_di::util::media::Type;
use ffmpeg_di::util::rational::Rational;
use ffmpeg_di::util::samplefmt::SampleFormat;
use ffmpeg_di::error::{Error, CODE_INVALID, CODE_NOT_FOUND};
use ffmpeg_di::format::packet::Packet;

fn pcm_stream(codec_id: CodecId, sample_rate: i32, channels: i32, format: SampleFormat) -> StreamData {
    StreamData {
        id: 0,
        codec_id,
        time_base: Rational::new(1, sample_rate),
        frame_rate: Rational::new(0, 1),
        avg_frame_rate: Rational::new(0, 1),
        start_time: 0,
        duration: 32000,
        nb_frames: 0,
        disposition: 0,
        discard: Discard::Default,
        sample_rate,
        layout: ChannelLayout::default(channels),
        format,
        metadata: Dictionary::new(),
        side_data: Vec::new(),
    }
}

fn pcm_source(path: &str, format_name: &str) -> Source {
    let format = find_input_format(format_name).expect("format not in registry");
    Source {
        path: path.to_owned(),
        format,
        bit_rate: 256000,
        duration: 2000000,
        streams: vec![pcm_stream(CodecId::PCM_S16LE, 16000, 1, SampleFormat::S16)],
        packets: vec![
            PacketData { stream_index: 0, size: 640 },
            PacketData { stream_index: 0, size: 640 },
            PacketData { stream_index: 0, size: 320 },
        ],
    }
}

#[test]
fn test_av_find_input_format() {
    let f = find_input_format("wav").ok_or_else(|| "no such input format".to_string()).unwrap();
    assert_eq!(f.name(), "wav");
    assert_eq!(f.long_name(), "WAV / WAVE (Waveform Audio)");
    for e in f.extensions() {
        assert_eq!(e, "wav");
    }
    for m in f.mime_types() {
        assert_eq!(m, "audio/x-wav");
    }
    assert!(find_input_format("no-such-demuxer").is_none());
}

#[test]
fn test_open_input_with_format() {
    let short_name = "s16le";
    let f = find_input_format(short_name).unwrap_or_else(|| panic!("no such input format: {}", short_name));
    let mut host = Host::new();
    let mut store = MediaStore::new();
    store.add(pcm_source("assets/16bit_c1.pcm", "s16le"));
    let c = open_with_format(&mut host, &store, "assets/16bit_c1.pcm", &f);

    assert!(c.is_ok());
    c.unwrap().close(&mut host);
}

#[test]
fn test_best_stream() {
    let short_name = "s16le";
    let f = find_input_format(short_name).unwrap_or_else(|| panic!("no such input format: {}", short_name));
    let mut host = Host::new();
    let mut store = MediaStore::new();
    store.add(pcm_source("assets/16bit_c1.pcm", "s16le"));
    let c = open_with_format(&mut host, &store, "assets/16bit_c1.pcm", &f);

    match c {
        Ok(v) => {
            {
                let streams = v.streams();
                let s = streams.best(Type::Audio).ok_or_else(|| "no best stream".to_string()).unwrap();
                assert_eq!(s.duration(), 32000);
                assert_eq!(s.index(), 0);
            }
            v.close(&mut host);
        }
        Err(_) => {}
    }
}

#[test]
fn test_open_missing_input_fails() {
    let mut host = Host::new();
    let store = MediaStore::new();
    match ffmpeg_di::format::input::open(&mut host, &store, "nothing.wav") {
        Err(Error::OpenInputFailed(code)) => assert_eq!(code, CODE_NOT_FOUND),
        _ => panic!("expected OpenInputFailed"),
    }
}

#[test]
fn test_open_with_wrong_format_fails() {
    let f = find_input_format("wav").unwrap();
    let mut host = Host::new();
    let mut store = MediaStore::new();
    store.add(pcm_source("a.pcm", "s16le"));
    match open_with_format(&mut host, &store, "a.pcm", &f) {
        Err(Error::OpenInputFailed(code)) => assert_eq!(code, CODE_INVALID),
        _ => panic!("expected OpenInputFailed"),
    }
}

#[test]
fn test_packet_iteration_reaches_end_of_stream() {
    let f = find_input_format("s16le").unwrap();
    let mut host = Host::new();
    let mut store = MediaStore::new();
    store.add(pcm_source("a.pcm", "s16le"));
    let c = open_with_format(&mut host, &store, "a.pcm", &f).unwrap();

    let mut it = c.packets();
    let mut sizes: Vec<i32> = Vec::new();
    while let Some(p) = it.next(&mut host) {
        sizes.push(p.size());
        assert_eq!(p.stream_index(), 0);
        p.close(&mut host);
    }
    assert_eq!(sizes, vec![640, 640, 320]);

    // A direct read on the exhausted input reports the distinguished
    // end-of-stream, not a generic failure.
    let mut c = it.into_inner();
    let mut p = Packet::empty(&mut host);
    match p.read(&mut c) {
        Err(Error::EndOfStream) => {}
        _ => panic!("expected EndOfStream"),
    }
    p.close(&mut host);
    c.close(&mut host);
}

#[test]
fn test_stream_setters_change_one_stream_only() {
    let f = find_input_format("s16le").unwrap();
    let mut host = Host::new();
    let mut store = MediaStore::new();
    store.add(pcm_source("a.pcm", "s16le"));
    let mut c = open_with_format(&mut host, &store, "a.pcm", &f).unwrap();

    let mut d = Dictionary::new();
    d.set("language", "eng").unwrap();
    c.context_mut().set_stream_time_base(0, Rational::new(1, 48000));
    c.context_mut().set_stream_frame_rate(0, Rational::new(30, 1));
    c.context_mut().set_stream_avg_frame_rate(0, Rational::new(25, 1));
    c.context_mut().set_stream_metadata(0, d);

    {
        let streams = c.streams();
        let s = streams.best(Type::Audio).unwrap();
        assert_eq!(s.time_base().num(), 1);
        assert_eq!(s.time_base().den(), 48000);
        assert_eq!(s.frame_rate().num(), 30);
        assert_eq!(s.avg_frame_rate().num(), 25);
        assert_eq!(s.metadata().get("language").unwrap(), "eng");
        // Everything else is untouched.
        assert_eq!(s.duration(), 32000);
        assert_eq!(s.id(), 0);
    }
    c.close(&mut host);
}
