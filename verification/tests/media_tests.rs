use video_pipeline::media::{Demuxer, Format, MediaSource, MediaType};

fn sample_source() -> MediaSource {
    MediaSource::new(
        Format::new(String::from("matroska")),
        vec![
            MediaType::Audio,
            MediaType::Video,
            MediaType::Subtitle,
            MediaType::Video,
            MediaType::Unknown(-100),
        ],
    )
}

#[test]
fn format_name_round_trips() {
    let source = sample_source();
    assert_eq!(source.format().name(), "matroska");
}

#[test]
fn streams_are_indexed_in_container_order() {
    let source = sample_source();
    let streams = source.all_streams();
    assert_eq!(streams.len(), 5);
    for (i, s) in streams.iter().enumerate() {
        assert_eq!(s.index(), i);
    }
    assert_eq!(streams[1].media_type(), MediaType::Video);
    assert_eq!(streams[4].media_type(), MediaType::Unknown(-100));
}

#[test]
fn stream_lookup_by_index() {
    let source = sample_source();
    let s = source.stream(2).expect("stream 2 exists");
    assert_eq!(s.index(), 2);
    assert_eq!(s.media_type(), MediaType::Subtitle);
    assert!(source.stream(5).is_none());
}

#[test]
fn best_stream_picks_first_match() {
    let source = sample_source();
    let best = source.best_stream(MediaType::Video).expect("video exists");
    assert_eq!(best.index(), 1);
    assert_eq!(best.media_type(), MediaType::Video);
}

#[test]
fn best_stream_not_found_is_none() {
    // The stream-not-found error condition: no stream of the type.
    let source = sample_source();
    assert!(source.best_stream(MediaType::Attachment).is_none());
    assert!(source.best_stream(MediaType::Data).is_none());
}

#[test]
fn demuxer_hands_out_stream_handles() {
    let source = sample_source();
    let demuxer = Demuxer::new(source);
    let s = demuxer.stream(3).expect("stream 3 exists");
    assert_eq!(s.index(), 3);
    assert_eq!(s.media_type(), MediaType::Video);
    assert!(demuxer.stream(7).is_none());
}
