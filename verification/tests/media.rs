use uptitle::media::{
    best_audio_stream, listing_url, youtube_video_exists, SourceError, StreamInfo, StreamKind,
    TARGET_SAMPLE_RATE,
};

fn audio(sample_rate: u64, bitrate: u64) -> StreamInfo {
    StreamInfo {
        kind: StreamKind::Audio { sample_rate },
        bitrate,
        url: format!("https://example.invalid/{}/{}", sample_rate, bitrate),
        duration_ms: Some(1000),
    }
}

fn video(bitrate: u64) -> StreamInfo {
    StreamInfo {
        kind: StreamKind::Video,
        bitrate,
        url: format!("https://example.invalid/video/{}", bitrate),
        duration_ms: Some(1000),
    }
}

#[test]
fn target_sample_rate_is_48_khz() {
    assert_eq!(TARGET_SAMPLE_RATE, 48000);
}

#[test]
fn selects_lowest_bitrate_at_target_rate() {
    let streams = vec![audio(44100, 128), audio(48000, 160), audio(48000, 96)];
    let best = best_audio_stream(&streams);
    assert_eq!(best, Some(2));
    let chosen = &streams[best.unwrap()];
    assert_eq!(chosen.kind, StreamKind::Audio { sample_rate: 48000 });
    assert_eq!(chosen.bitrate, 96);
}

#[test]
fn no_stream_at_all_gives_none() {
    assert_eq!(best_audio_stream(&Vec::new()), None);
}

#[test]
fn no_stream_at_target_rate_gives_none() {
    let streams = vec![audio(44100, 128), audio(22050, 32), video(10)];
    assert_eq!(best_audio_stream(&streams), None);
}

#[test]
fn video_streams_are_never_taken() {
    let streams = vec![video(1), audio(48000, 500), video(2)];
    assert_eq!(best_audio_stream(&streams), Some(1));
}

#[test]
fn first_of_equal_bitrates_is_taken() {
    let streams = vec![audio(48000, 96), audio(48000, 128), audio(48000, 96)];
    assert_eq!(best_audio_stream(&streams), Some(0));
    let streams = vec![audio(48000, 128), audio(48000, 96), audio(48000, 96)];
    assert_eq!(best_audio_stream(&streams), Some(1));
}

#[test]
fn lower_bitrate_at_another_rate_does_not_win() {
    let streams = vec![audio(44100, 1), audio(48000, 160)];
    assert_eq!(best_audio_stream(&streams), Some(1));
}

#[test]
fn single_suitable_stream_is_taken() {
    assert_eq!(best_audio_stream(&vec![audio(48000, 7)]), Some(0));
}

#[test]
fn suitable_tells_kind_and_rate() {
    assert!(audio(48000, 1).suitable());
    assert!(!audio(44100, 1).suitable());
    assert!(!video(1).suitable());
}

#[test]
fn listing_url_names_video_and_key() {
    assert_eq!(
        listing_url("abc123", "KEY"),
        "https://www.googleapis.com/youtube/v3/videos?part=id&id=abc123&key=KEY"
    );
    assert_eq!(
        listing_url("", ""),
        "https://www.googleapis.com/youtube/v3/videos?part=id&id=&key="
    );
}

#[test]
fn video_exists_when_the_listing_holds_an_item() {
    assert_eq!(youtube_video_exists(Some(1)), Ok(true));
    assert_eq!(youtube_video_exists(Some(u32::MAX)), Ok(true));
    assert_eq!(youtube_video_exists(Some(0)), Ok(false));
}

#[test]
fn video_lookup_fails_without_a_listing() {
    assert_eq!(youtube_video_exists(None), Err(SourceError::UpstreamUnavailable));
}
