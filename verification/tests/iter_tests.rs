use ffmpeg_di::codec::audio::{ChannelLayoutIter, FormatIter, RateIter};
use ffmpeg_di::util::channel_layout::ChannelLayout;
use ffmpeg_di::util::samplefmt::SampleFormat;

#[test]
fn test_rate_iter_stops_at_sentinel() {
    let arr = vec![3, 7, 11, 0];
    let mut it = RateIter::new(&arr);
    assert_eq!(it.next(), Some(3));
    assert_eq!(it.next(), Some(7));
    assert_eq!(it.next(), Some(11));
    assert_eq!(it.next(), None);
    // The cursor stays put at the sentinel; the iterator never reads
    // past it.
    assert_eq!(it.next(), None);
}

#[test]
fn test_rate_iter_on_immediate_sentinel_is_empty() {
    let arr = vec![0];
    let mut it = RateIter::new(&arr);
    assert_eq!(it.next(), None);
}

#[test]
fn test_rate_iter_stops_at_first_sentinel_only() {
    let arr = vec![8000, 0, 44100, 0];
    let mut it = RateIter::new(&arr);
    assert_eq!(it.next(), Some(8000));
    assert_eq!(it.next(), None);
    assert_eq!(it.next(), None);
}

#[test]
fn test_format_iter_decodes_until_none_code() {
    let arr = vec![1, 6, -1, 3];
    let mut it = FormatIter::new(&arr);
    assert_eq!(it.next(), Some(SampleFormat::S16));
    assert_eq!(it.next(), Some(SampleFormat::S16P));
    assert_eq!(it.next(), None);
    assert_eq!(it.next(), None);
}

#[test]
fn test_channel_layout_iter_stops_at_zero_layout() {
    let arr = vec![
        ChannelLayout::default(1),
        ChannelLayout::default(2),
        ChannelLayout::default(0),
        ChannelLayout::default(6),
    ];
    let mut it = ChannelLayoutIter::new(&arr);
    assert_eq!(it.next().map(|l| l.nb_channels()), Some(1));
    assert_eq!(it.next().map(|l| l.nb_channels()), Some(2));
    assert!(it.next().is_none());
    assert!(it.next().is_none());
}

#[test]
fn test_fresh_iterators_restart_from_the_head() {
    let arr = vec![5, 9, 0];
    let mut it = RateIter::new(&arr);
    assert_eq!(it.next(), Some(5));
    // The first iterator is not restartable, but a fresh one derived
    // from the same array starts over.
    let mut again = RateIter::new(&arr);
    assert_eq!(again.next(), Some(5));
    assert_eq!(it.next(), Some(9));
}
