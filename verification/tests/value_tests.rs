use ffmpeg_di::codec::capabilities::{Capabilities, Capability, CAPABILITY_MASK};
use ffmpeg_di::error::Error;
use ffmpeg_di::format::disposition::{Disposition, DispositionFlag, DISPOSITION_MASK};
use ffmpeg_di::util::dict::{DictIter, Dictionary};
use ffmpeg_di::util::discard::Discard;
use ffmpeg_di::util::media::Type;
use ffmpeg_di::util::rational::Rational;
use ffmpeg_di::util::samplefmt::SampleFormat;
use ffmpeg_di::codec::codec::Codec;
use ffmpeg_di::codec::codec_id::CodecId;
use ffmpeg_di::util::side_data::{FrameSideData, FrameSideDataType};

#[test]
fn test_media_type_codes_round_trip() {
    let kinds = [
        Type::Unknown,
        Type::Video,
        Type::Audio,
        Type::Data,
        Type::Subtitle,
        Type::Attachment,
    ];
    for k in kinds {
        assert_eq!(Type::from_code(k.code()), k);
    }
    assert_eq!(Type::Audio.code(), 1);
    assert_eq!(Type::from_code(99), Type::Unknown);
}

#[test]
fn test_discard_codes_round_trip() {
    let policies = [
        Discard::Nothing,
        Discard::Default,
        Discard::NonReference,
        Discard::Bidirectional,
        Discard::NonIntra,
        Discard::NonKey,
        Discard::All,
    ];
    for p in policies {
        assert_eq!(Discard::from_code(p.code()), p);
    }
    assert_eq!(Discard::Nothing.code(), -16);
    assert_eq!(Discard::from_code(5), Discard::Default);
}

#[test]
fn test_sample_format_codes_round_trip() {
    let formats = [
        SampleFormat::NONE,
        SampleFormat::U8,
        SampleFormat::S16,
        SampleFormat::S32,
        SampleFormat::S64,
        SampleFormat::FLT,
        SampleFormat::DBL,
        SampleFormat::U8P,
        SampleFormat::S16P,
        SampleFormat::S32P,
        SampleFormat::S64P,
        SampleFormat::FLTP,
        SampleFormat::DBLP,
    ];
    for f in formats {
        assert_eq!(SampleFormat::from_code(f.code()), f);
    }
    assert_eq!(SampleFormat::S16.code(), 1);
    assert_eq!(SampleFormat::from_code(200), SampleFormat::NONE);
}

#[test]
fn test_sample_format_names_round_trip() {
    let formats = [
        SampleFormat::U8,
        SampleFormat::S16,
        SampleFormat::S32,
        SampleFormat::S64,
        SampleFormat::FLT,
        SampleFormat::DBL,
        SampleFormat::U8P,
        SampleFormat::S16P,
        SampleFormat::S32P,
        SampleFormat::S64P,
        SampleFormat::FLTP,
        SampleFormat::DBLP,
    ];
    for f in formats {
        assert_eq!(SampleFormat::from_name(f.name()), f);
    }
    assert_eq!(SampleFormat::S16P.name(), "s16p");
    assert_eq!(SampleFormat::from_name("no such format"), SampleFormat::NONE);
    assert_eq!(SampleFormat::NONE.name(), "");
}

#[test]
fn test_sample_format_planar_packed() {
    assert!(SampleFormat::S16P.is_planar());
    assert!(SampleFormat::S16.is_packed());
    assert_eq!(SampleFormat::S16P.packed(), SampleFormat::S16);
    assert_eq!(SampleFormat::S16.planar(), SampleFormat::S16P);
    assert_eq!(SampleFormat::FLTP.packed(), SampleFormat::FLT);
    assert_eq!(SampleFormat::NONE.packed(), SampleFormat::NONE);
    assert_eq!(SampleFormat::U8.bytes(), 1);
    assert_eq!(SampleFormat::S16.bytes(), 2);
    assert_eq!(SampleFormat::S32P.bytes(), 4);
    assert_eq!(SampleFormat::DBLP.bytes(), 8);
    assert_eq!(SampleFormat::NONE.bytes(), 0);
}

#[test]
fn test_rational_reduce_exact() {
    let r = Rational::new(4, 6).reduce().unwrap();
    assert_eq!(r.num(), 2);
    assert_eq!(r.den(), 3);

    let r = Rational::new(-4, 6).reduce().unwrap();
    assert_eq!(r.num(), -2);
    assert_eq!(r.den(), 3);

    let r = Rational::new(4, -6).reduce().unwrap();
    assert_eq!(r.num(), 2);
    assert_eq!(r.den(), -3);

    let r = Rational::new(0, 0).reduce().unwrap();
    assert_eq!(r.num(), 0);
    assert_eq!(r.den(), 0);

    let r = Rational::new(i32::MIN, 2).reduce().unwrap();
    assert_eq!(r.num(), -1073741824);
    assert_eq!(r.den(), 1);
}

#[test]
fn test_rational_reduce_inexact() {
    // The most negative numerator cannot be reduced when it shares no
    // factor with the denominator: its magnitude is one past the
    // 32-bit maximum.
    assert!(matches!(
        Rational::new(i32::MIN, 3).reduce(),
        Err(Error::InexactRational)
    ));
}

#[test]
fn test_dictionary_set_get_replace() {
    let mut d = Dictionary::new();
    d.set("artist", "someone").unwrap();
    d.set("title", "a song").unwrap();
    assert_eq!(d.get("artist").unwrap(), "someone");
    assert_eq!(d.get("title").unwrap(), "a song");
    assert!(d.get("album").is_none());

    d.set("artist", "someone else").unwrap();
    assert_eq!(d.get("artist").unwrap(), "someone else");
    assert_eq!(d.get("title").unwrap(), "a song");
}

#[test]
fn test_dictionary_iter_yields_entries_in_order() {
    let mut d = Dictionary::new();
    d.set("a", "1").unwrap();
    d.set("b", "2").unwrap();
    d.set("a", "3").unwrap();
    let mut it = d.iter();
    let (k, v) = it.next().unwrap();
    assert_eq!(k, "a");
    assert_eq!(v, "3");
    let (k, v) = it.next().unwrap();
    assert_eq!(k, "b");
    assert_eq!(v, "2");
    assert!(it.next().is_none());
}

#[test]
fn test_dictionary_from_pairs_last_value_wins() {
    let pairs = vec![
        ("k".to_owned(), "old".to_owned()),
        ("other".to_owned(), "x".to_owned()),
        ("k".to_owned(), "new".to_owned()),
    ];
    let d = Dictionary::from_pairs(&pairs);
    assert_eq!(d.get("k").unwrap(), "new");
    assert_eq!(d.get("other").unwrap(), "x");
}

#[test]
fn test_dictionary_duplicate_and_raw_iter() {
    let mut d = Dictionary::new();
    d.set("x", "1").unwrap();
    let d2 = d.duplicate();
    assert_eq!(d2.get("x").unwrap(), "1");

    let entries = vec![("k".to_owned(), "v".to_owned())];
    let mut it = DictIter::new(&entries);
    let (k, v) = it.next().unwrap();
    assert_eq!(k, "k");
    assert_eq!(v, "v");
    assert!(it.next().is_none());
}

#[test]
fn test_capability_bits() {
    let c = Capabilities::from_bits_truncate(u32::MAX);
    assert_eq!(c.bits(), CAPABILITY_MASK);
    assert!(c.contains(Capability::Delay));
    assert!(c.contains(Capability::VariableFrameSize));
    let none = Capabilities::empty();
    assert!(!none.contains(Capability::Delay));
    assert_eq!(Capability::Delay.mask(), 0x20);
}

#[test]
fn test_disposition_bits() {
    let d = Disposition::from_bits_truncate(-1);
    assert_eq!(d.bits(), DISPOSITION_MASK);
    assert!(d.contains(DispositionFlag::Default));
    assert!(d.contains(DispositionFlag::Metadata));
    let d = Disposition::from_bits_truncate(0x3);
    assert!(d.contains(DispositionFlag::Default));
    assert!(d.contains(DispositionFlag::Dub));
    assert!(!d.contains(DispositionFlag::Forced));
    assert_eq!(Disposition::empty().bits(), 0);
}

#[test]
fn test_not_audio_is_refused() {
    let codec = Codec::for_id(CodecId::NONE);
    assert!(matches!(codec.audio(), Err(Error::NotAudio)));
}

#[test]
fn test_side_data_round_trip() {
    let kinds = [
        FrameSideDataType::PANSCAN,
        FrameSideDataType::REPLAYGAIN,
        FrameSideDataType::SKIP_SAMPLES,
        FrameSideDataType::AMBIENT_VIEWING_ENVIRONMENT,
    ];
    for k in kinds {
        assert_eq!(FrameSideDataType::from_code(k.code()), Some(k));
    }
    assert_eq!(FrameSideDataType::from_code(-3), None);
    assert_eq!(FrameSideDataType::SKIP_SAMPLES.name(), "skip_samples");

    let sd = FrameSideData::new(FrameSideDataType::REPLAYGAIN, vec![1, 2, 3], Dictionary::new());
    assert_eq!(sd.kind(), FrameSideDataType::REPLAYGAIN);
    assert_eq!(sd.data().len(), 3);
}
