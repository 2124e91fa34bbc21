use ffmpeg_di::codec::codec_id::{avcodec_get_name, CodecId};
use ffmpeg_di::codec::context::Context;
use ffmpeg_di::format::input::{find_input_format, open_with_format, MediaStore, PacketData, Source};
use ffmpeg_di::format::stream::StreamData;
use ffmpeg_di::host::Host;
use ffmpeg_di::util::channel_layout::ChannelLayout;
use ffmpeg_di::util::dict::Dictionary;
use ffmpeg_di::util::discard::Discard;
use ffmpeg_di::util::frame::Frame;
use ffmpeg_di::util::media::Type;
use ffmpeg_di::util::rational::Rational;
use ffmpeg_di::util::samplefmt::SampleFormat;

fn sixteen_bit_mono(path: &str) -> Source {
    Source {
        path: path.to_owned(),
        format: find_input_format("s16le").unwrap(),
        bit_rate: 256000,
        duration: 2000000,
        streams: vec![StreamData {
            id: 0,
            codec_id: CodecId::PCM_S16LE,
            time_base: Rational::new(1, 16000),
            frame_rate: Rational::new(0, 1),
            avg_frame_rate: Rational::new(0, 1),
            start_time: 0,
            duration: 32000,
            nb_frames: 0,
            disposition: 0,
            discard: Discard::Default,
            sample_rate: 16000,
            layout: ChannelLayout::default(1),
            format: SampleFormat::S16,
            metadata: Dictionary::new(),
            side_data: Vec::new(),
        }],
        packets: vec![
            PacketData { stream_index: 0, size: 640 },
            PacketData { stream_index: 0, size: 640 },
            PacketData { stream_index: 0, size: 320 },
        ],
    }
}

#[test]
pub fn test_generated_codec_context() {
    let short_name = "s16le";
    let f = find_input_format(short_name).unwrap_or_else(|| panic!("no such input format: {}", short_name));
    let mut host = Host::new();
    let mut store = MediaStore::new();
    store.add(sixteen_bit_mono("tests/assets/16bit_c1.pcm"));
    let c = open_with_format(&mut host, &store, "tests/assets/16bit_c1.pcm", &f).unwrap();
    let p = {
        let streams = c.streams();
        let s = streams.best(Type::Audio).unwrap();
        s.parameters(&mut host)
    };
    let i = p.codec_id();
    let name = avcodec_get_name(i).unwrap();
    assert_eq!(name, "pcm_s16le");

    let context = Context::parameters_to_context(&mut host, &p).unwrap();
    p.close(&mut host);

    let mut audio = match context.decoder().audio() {
        Ok(a) => a,
        Err((_, e)) => panic!("no audio decoder: {:?}", e),
    };
    audio.set_rate(16000);
    let rate = audio.rate();
    let channels = audio.channels();

    let mut it = c.packets();
    let mut frames: usize = 0;
    while let Some(pkt) = it.next(&mut host) {
        if pkt.stream_index() == 0 {
            audio.send_packet(&pkt).unwrap();

            let mut frame = Frame::empty(&mut host);
            audio.receive_frame(&mut frame).unwrap();
            frames += 1;
            frame.close(&mut host);
        }
        pkt.close(&mut host);
    }
    let c = it.into_inner();

    assert_eq!(rate, 16000);
    assert_eq!(channels, 1);
    assert_eq!(frames, 3);

    c.close(&mut host);
    audio.close(&mut host);
}

#[test]
fn test_context_carries_parameters() {
    let mut host = Host::new();
    let params = ffmpeg_di::codec::codec_par::Parameters::new(&mut host);
    assert_eq!(params.codec_id(), CodecId::NONE);
    let copy = params.duplicate(&mut host);
    let ctx = Context::parameters_to_context(&mut host, &copy).unwrap();
    assert_eq!(ctx.id(), CodecId::NONE);
    assert_eq!(ctx.sample_rate(), 0);
    params.close(&mut host);
    copy.close(&mut host);
    ctx.close(&mut host);
    // Three unique owners, three frees, each exactly once.
    assert_eq!(host.freed_entries().len(), 3);
}
