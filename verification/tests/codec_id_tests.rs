use ffmpeg_di::codec::codec_id::{avcodec_get_name, CodecId};
use ffmpeg_di::error::Error;
use ffmpeg_di::util::media::Type;

#[test]
pub fn test_avcodec_get_name() {
    let name = avcodec_get_name(CodecId::PCM_S16BE);
    assert_eq!(name.unwrap(), "pcm_s16be");
}

#[test]
fn test_codec_id_code_round_trip() {
    let ids = [
        CodecId::NONE,
        CodecId::PCM_S16LE,
        CodecId::PCM_S16BE,
        CodecId::PCM_U8,
        CodecId::PCM_MULAW,
        CodecId::PCM_ALAW,
        CodecId::PCM_ZORK,
        CodecId::PCM_DVD,
        CodecId::PCM_BLURAY,
        CodecId::S302M,
        CodecId::PCM_S16BE_PLANAR,
        CodecId::PCM_S64LE,
        CodecId::PCM_S64BE,
    ];
    for id in ids {
        assert_eq!(CodecId::from_code(id.code()), Ok(id));
    }
}

#[test]
fn test_codec_id_exact_codes() {
    assert_eq!(CodecId::NONE.code(), 0);
    assert_eq!(CodecId::PCM_S16LE.code(), 65536);
    assert_eq!(CodecId::PCM_S64BE.code(), 65568);
}

#[test]
fn test_unsupported_codec_code_is_refused() {
    match CodecId::from_code(12345) {
        Err(Error::UnsupportedCodec(c)) => assert_eq!(c, 12345),
        _ => panic!("expected UnsupportedCodec"),
    }
}

#[test]
fn test_codec_id_medium() {
    assert_eq!(CodecId::NONE.medium(), Type::Unknown);
    assert_eq!(CodecId::PCM_S16LE.medium(), Type::Audio);
    assert_eq!(CodecId::PCM_F64BE.medium(), Type::Audio);
}

#[test]
fn test_codec_lookup() {
    let codec = ffmpeg_di::codec::find(CodecId::PCM_S16LE).expect("decoder missing");
    assert!(codec.is_decoder());
    assert!(!codec.is_encoder());
    assert_eq!(codec.name(), "pcm_s16le");
    assert_eq!(codec.medium(), Type::Audio);
    assert_eq!(codec.id(), CodecId::PCM_S16LE);
    assert_eq!(codec.capabilities().bits(), 0);
    assert!(ffmpeg_di::codec::find(CodecId::NONE).is_none());
}

#[test]
fn test_codec_audio_conversion() {
    let codec = ffmpeg_di::codec::find(CodecId::PCM_U8).unwrap();
    let audio = codec.audio().expect("pcm_u8 is audio");
    assert!(audio.sample_rates().is_none());
    assert!(audio.formats().is_none());
    assert!(audio.channel_layouts().is_none());
}
