use ffmpeg_di::codec::codec_id::CodecId;
use ffmpeg_di::codec::context::Context;
use ffmpeg_di::error::{Error, CODE_EOF, CODE_INVALID};
use ffmpeg_di::format::packet::Packet;
use ffmpeg_di::host::Host;
use ffmpeg_di::util::frame::Frame;

#[test]
fn test_drain_yields_frames_then_drained() {
    let mut host = Host::new();
    let codec = ffmpeg_di::codec::find(CodecId::PCM_S16LE).unwrap();
    let ctx = Context::new_with_codec(&mut host, &codec);
    let mut dec = ctx.decoder();
    dec.open().unwrap();

    let p1 = Packet::new(&mut host, 640);
    dec.send_packet(&p1).unwrap();
    p1.close(&mut host);
    let p2 = Packet::new(&mut host, 320);
    dec.send_packet(&p2).unwrap();
    p2.close(&mut host);

    dec.send_eof().unwrap();

    let mut frame = Frame::empty(&mut host);
    let mut received: usize = 0;
    loop {
        match dec.receive_frame(&mut frame) {
            Ok(()) => received += 1,
            Err(Error::Drained) => break,
            Err(e) => panic!("draining must never give a generic error: {:?}", e),
        }
    }
    assert_eq!(received, 2);
    // Draining again still reports the distinguished signal.
    assert!(matches!(dec.receive_frame(&mut frame), Err(Error::Drained)));

    frame.close(&mut host);
    dec.close(&mut host);
}

#[test]
fn test_send_before_open_is_refused() {
    let mut host = Host::new();
    let ctx = Context::new(&mut host);
    let mut dec = ctx.decoder();
    let p = Packet::new(&mut host, 16);
    assert!(matches!(dec.send_packet(&p), Err(Error::DecoderNotOpen)));
    assert!(matches!(dec.send_eof(), Err(Error::DecoderNotOpen)));
    let mut frame = Frame::empty(&mut host);
    assert!(matches!(dec.receive_frame(&mut frame), Err(Error::DecoderNotOpen)));
    frame.close(&mut host);
    p.close(&mut host);
    dec.close(&mut host);
}

#[test]
fn test_open_without_codec_is_refused() {
    let mut host = Host::new();
    let ctx = Context::new(&mut host);
    let mut dec = ctx.decoder();
    match dec.open() {
        Err(Error::OpenCodecFailed(code)) => assert_eq!(code, CODE_INVALID),
        _ => panic!("expected OpenCodecFailed"),
    }
    dec.close(&mut host);
}

#[test]
fn test_receive_before_eof_reports_again() {
    let mut host = Host::new();
    let codec = ffmpeg_di::codec::find(CodecId::PCM_U8).unwrap();
    let ctx = Context::new_with_codec(&mut host, &codec);
    let mut dec = ctx.decoder();
    dec.open().unwrap();
    let mut frame = Frame::empty(&mut host);
    assert!(matches!(dec.receive_frame(&mut frame), Err(Error::Again)));
    frame.close(&mut host);
    dec.close(&mut host);
}

#[test]
fn test_send_after_eof_is_refused() {
    let mut host = Host::new();
    let codec = ffmpeg_di::codec::find(CodecId::PCM_U8).unwrap();
    let ctx = Context::new_with_codec(&mut host, &codec);
    let mut dec = ctx.decoder();
    dec.open().unwrap();
    dec.send_eof().unwrap();
    let p = Packet::new(&mut host, 16);
    match dec.send_packet(&p) {
        Err(Error::SendPacketFailed(code)) => assert_eq!(code, CODE_EOF),
        _ => panic!("expected SendPacketFailed"),
    }
    match dec.send_eof() {
        Err(Error::SendPacketFailed(code)) => assert_eq!(code, CODE_EOF),
        _ => panic!("expected SendPacketFailed"),
    }
    p.close(&mut host);
    dec.close(&mut host);
}

#[test]
fn test_audio_on_missing_codec_hands_the_decoder_back() {
    let mut host = Host::new();
    let ctx = Context::new(&mut host);
    let dec = ctx.decoder();
    match dec.audio() {
        Err((dec, Error::DecoderNotFound)) => {
            dec.close(&mut host);
        }
        _ => panic!("expected DecoderNotFound"),
    }
    assert_eq!(host.freed_entries().len(), 1);
}
