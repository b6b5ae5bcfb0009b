use uptitle::events::{SubtitleEvent, SubtitleEventType};
use uptitle::gateway::{Query, Reply, Step};
use uptitle::media::{StreamInfo, StreamKind};
use uptitle::pipeline::{
    artifact_path, decoder_args, download_youtube_audio, get_waveform, stored_millis,
    transcoded, waveform_ready, waveformer_args, Download, GetWaveform, PipelineError,
};
use uptitle::status::Status;

fn audio(sample_rate: u64, bitrate: u64, duration_ms: Option<u128>) -> StreamInfo {
    StreamInfo {
        kind: StreamKind::Audio { sample_rate },
        bitrate,
        url: format!("https://media.invalid/{}/{}", sample_rate, bitrate),
        duration_ms,
    }
}

fn strings(items: &[&str]) -> Vec<String> {
    items.iter().map(|item| item.to_string()).collect()
}

fn requested() -> Download {
    Download::Requested { video: "abc123".to_string() }
}

fn resolving() -> Download {
    Download::Resolving { video: "abc123".to_string() }
}

fn transcoding() -> Download {
    Download::Transcoding {
        video: "abc123".to_string(),
        duration: 61000,
        artifact: "/tmp/uptitle-abc123.dat".to_string(),
    }
}

fn storing() -> Download {
    Download::Storing { artifact: "/tmp/uptitle-abc123.dat".to_string() }
}

#[test]
fn artifact_path_is_named_after_the_video() {
    assert_eq!(artifact_path("abc123"), "/tmp/uptitle-abc123.dat");
    assert_eq!(artifact_path(""), "/tmp/uptitle-.dat");
}

#[test]
fn decoder_reads_the_stream_and_writes_wav() {
    assert_eq!(
        decoder_args("https://media.invalid/a"),
        strings(&["-i", "https://media.invalid/a", "-f", "wav", "-"])
    );
}

#[test]
fn waveformer_writes_8_bit_at_400_per_second() {
    assert_eq!(
        waveformer_args("/tmp/uptitle-abc123.dat"),
        strings(&[
            "--input-format",
            "wav",
            "-o",
            "/tmp/uptitle-abc123.dat",
            "-b",
            "8",
            "--pixels-per-second",
            "400",
        ])
    );
}

#[test]
fn stored_millis_keeps_what_fits() {
    assert_eq!(stored_millis(1), Some(1));
    assert_eq!(stored_millis(61000), Some(61000));
    assert_eq!(stored_millis(2147483647), Some(i32::MAX));
}

#[test]
fn stored_millis_has_nothing_for_what_cannot_be_stored() {
    assert_eq!(stored_millis(0), None);
    assert_eq!(stored_millis(2147483648), None);
    assert_eq!(stored_millis(4294967297), None);
    assert_eq!(stored_millis(u128::MAX), None);
}

#[test]
fn transcoded_takes_the_file_of_a_run_that_went_well() {
    assert_eq!(transcoded(Some(0), Some(0), Some(vec![1, 2, 3])), Some(vec![1, 2, 3]));
}

#[test]
fn transcoded_refuses_a_process_that_failed() {
    assert_eq!(transcoded(Some(1), Some(0), Some(vec![1])), None);
    assert_eq!(transcoded(Some(0), Some(2), Some(vec![1])), None);
    assert_eq!(transcoded(Some(0), Some(-1), Some(vec![1])), None);
    assert_eq!(transcoded(None, Some(0), Some(vec![1])), None);
    assert_eq!(transcoded(Some(0), None, Some(vec![1])), None);
}

#[test]
fn transcoded_refuses_a_file_that_is_missing_or_empty() {
    assert_eq!(transcoded(Some(0), Some(0), None), None);
    assert_eq!(transcoded(Some(0), Some(0), Some(Vec::new())), None);
}

#[test]
fn run_starts_by_resolving_streams() {
    assert_eq!(
        download_youtube_audio(requested(), None),
        Step::Ask(resolving(), Query::Streams { identifier: "abc123".to_string() })
    );
    assert_eq!(
        download_youtube_audio(requested(), Some(Reply::Failed)),
        Step::Ask(resolving(), Query::Streams { identifier: "abc123".to_string() })
    );
}

#[test]
fn run_transcodes_the_best_stream() {
    let streams = vec![
        audio(44100, 128, Some(61000)),
        audio(48000, 160, Some(61000)),
        audio(48000, 96, Some(61000)),
    ];
    assert_eq!(
        download_youtube_audio(resolving(), Some(Reply::Streams(streams))),
        Step::Ask(
            transcoding(),
            Query::Transcode {
                decoder: strings(&["-i", "https://media.invalid/48000/96", "-f", "wav", "-"]),
                waveformer: strings(&[
                    "--input-format",
                    "wav",
                    "-o",
                    "/tmp/uptitle-abc123.dat",
                    "-b",
                    "8",
                    "--pixels-per-second",
                    "400",
                ]),
                artifact: "/tmp/uptitle-abc123.dat".to_string(),
            }
        )
    );
}

#[test]
fn run_without_suitable_stream_fails() {
    let streams = vec![audio(44100, 128, Some(61000))];
    assert_eq!(
        download_youtube_audio(resolving(), Some(Reply::Streams(streams))),
        Step::Done(Err(PipelineError::NoSuitableStream))
    );
    assert_eq!(
        download_youtube_audio(resolving(), Some(Reply::Streams(Vec::new()))),
        Step::Done(Err(PipelineError::NoSuitableStream))
    );
}

#[test]
fn run_without_streams_fails() {
    assert_eq!(
        download_youtube_audio(resolving(), Some(Reply::Failed)),
        Step::Done(Err(PipelineError::UpstreamUnavailable))
    );
    assert_eq!(
        download_youtube_audio(resolving(), None),
        Step::Done(Err(PipelineError::UpstreamUnavailable))
    );
}

#[test]
fn run_fails_where_the_best_stream_has_no_duration() {
    let streams = vec![audio(48000, 160, Some(61000)), audio(48000, 96, None)];
    assert_eq!(
        download_youtube_audio(resolving(), Some(Reply::Streams(streams))),
        Step::Done(Err(PipelineError::UpstreamUnavailable))
    );
}

#[test]
fn run_fails_where_the_duration_cannot_be_stored() {
    for millis in [0, 2147483648, u128::MAX] {
        assert_eq!(
            download_youtube_audio(
                resolving(),
                Some(Reply::Streams(vec![audio(48000, 96, Some(millis))]))
            ),
            Step::Done(Err(PipelineError::UpstreamUnavailable))
        );
    }
}

fn went_well(bytes: Vec<u8>) -> Reply {
    Reply::Transcoded { decoder: Some(0), waveformer: Some(0), artifact: Some(bytes) }
}

fn removal() -> Query {
    Query::RemoveArtifact { path: "/tmp/uptitle-abc123.dat".to_string() }
}

#[test]
fn run_stores_the_waveform() {
    assert_eq!(
        download_youtube_audio(transcoding(), Some(went_well(vec![1, 2, 3]))),
        Step::Ask(
            storing(),
            Query::StoreWaveform {
                identifier: "abc123".to_string(),
                waveform: vec![1, 2, 3],
                duration: 61000,
            }
        )
    );
}

#[test]
fn run_removes_the_artifact_where_the_transcoder_fails() {
    let failed = Step::Ask(Download::Failing { error: PipelineError::TranscodeFailure }, removal());
    assert_eq!(download_youtube_audio(transcoding(), Some(Reply::Failed)), failed);
    assert_eq!(download_youtube_audio(transcoding(), None), failed);
    assert_eq!(
        download_youtube_audio(
            transcoding(),
            Some(Reply::Transcoded { decoder: Some(1), waveformer: Some(0), artifact: Some(vec![1]) })
        ),
        failed
    );
    assert_eq!(
        download_youtube_audio(
            transcoding(),
            Some(Reply::Transcoded { decoder: Some(0), waveformer: None, artifact: Some(vec![1]) })
        ),
        failed
    );
    assert_eq!(
        download_youtube_audio(
            transcoding(),
            Some(Reply::Transcoded { decoder: Some(0), waveformer: Some(0), artifact: None })
        ),
        failed
    );
    assert_eq!(download_youtube_audio(transcoding(), Some(went_well(Vec::new()))), failed);
}

#[test]
fn run_removes_the_artifact_once_stored() {
    assert_eq!(
        download_youtube_audio(storing(), Some(Reply::Affected(1))),
        Step::Ask(Download::Cleaning, removal())
    );
    assert_eq!(
        download_youtube_audio(storing(), Some(Reply::Affected(2))),
        Step::Ask(Download::Cleaning, removal())
    );
}

#[test]
fn run_removes_the_artifact_where_the_store_fails() {
    let failed =
        Step::Ask(Download::Failing { error: PipelineError::PersistenceFailure }, removal());
    assert_eq!(download_youtube_audio(storing(), Some(Reply::Failed)), failed);
    assert_eq!(download_youtube_audio(storing(), None), failed);
}

#[test]
fn run_fails_where_the_store_took_the_waveform_for_no_video() {
    assert_eq!(
        download_youtube_audio(storing(), Some(Reply::Affected(0))),
        Step::Ask(Download::Failing { error: PipelineError::PersistenceFailure }, removal())
    );
}

#[test]
fn run_that_failed_ends_with_its_error_however_the_removal_went() {
    for error in [PipelineError::TranscodeFailure, PipelineError::PersistenceFailure] {
        for reply in [Some(Reply::Removed), Some(Reply::Failed), None] {
            assert_eq!(
                download_youtube_audio(Download::Failing { error }, reply),
                Step::Done(Err(error))
            );
        }
    }
}

#[test]
fn run_that_stored_the_waveform_ends_well_however_the_removal_went() {
    for reply in [Some(Reply::Removed), Some(Reply::Failed), None] {
        assert_eq!(download_youtube_audio(Download::Cleaning, reply), Step::Done(Ok(())));
    }
}

fn run_against(answer: impl Fn(&Query) -> Reply) -> (Vec<Query>, Result<(), PipelineError>) {
    let mut asked = Vec::new();
    let mut step = download_youtube_audio(requested(), None);
    loop {
        match step {
            Step::Ask(state, query) => {
                let reply = answer(&query);
                asked.push(query);
                step = download_youtube_audio(state, Some(reply));
            }
            Step::Done(outcome) => return (asked, outcome),
        }
    }
}

#[test]
fn run_asks_each_question_once_and_in_order() {
    let (asked, outcome) = run_against(|query| match query {
        Query::Streams { .. } => Reply::Streams(vec![audio(48000, 96, Some(5))]),
        Query::Transcode { .. } => went_well(vec![9, 9]),
        Query::StoreWaveform { .. } => Reply::Affected(1),
        Query::RemoveArtifact { .. } => Reply::Removed,
        _ => Reply::Failed,
    });
    assert_eq!(outcome, Ok(()));
    assert_eq!(asked.len(), 4);
    assert!(matches!(asked[0], Query::Streams { .. }));
    assert!(matches!(asked[1], Query::Transcode { .. }));
    assert_eq!(
        asked[2],
        Query::StoreWaveform { identifier: "abc123".to_string(), waveform: vec![9, 9], duration: 5 }
    );
    assert_eq!(asked[3], removal());
}

#[test]
fn failed_transcoding_leaves_no_artifact_and_stores_nothing() {
    let (asked, outcome) = run_against(|query| match query {
        Query::Streams { .. } => Reply::Streams(vec![audio(48000, 96, Some(5))]),
        Query::Transcode { .. } => {
            Reply::Transcoded { decoder: Some(1), waveformer: Some(0), artifact: Some(vec![7]) }
        }
        Query::RemoveArtifact { .. } => Reply::Removed,
        _ => Reply::Failed,
    });
    assert_eq!(outcome, Err(PipelineError::TranscodeFailure));
    assert_eq!(asked.len(), 3);
    assert_eq!(asked[2], removal());
    assert!(!asked.iter().any(|query| matches!(query, Query::StoreWaveform { .. })));
}

#[test]
fn failed_store_leaves_no_artifact() {
    let (asked, outcome) = run_against(|query| match query {
        Query::Streams { .. } => Reply::Streams(vec![audio(48000, 96, Some(5))]),
        Query::Transcode { .. } => went_well(vec![9]),
        Query::RemoveArtifact { .. } => Reply::Removed,
        _ => Reply::Failed,
    });
    assert_eq!(outcome, Err(PipelineError::PersistenceFailure));
    assert_eq!(asked.len(), 4);
    assert_eq!(asked[3], removal());
}

#[test]
fn failed_resolution_asks_nothing_more() {
    let (asked, outcome) = run_against(|_| Reply::Failed);
    assert_eq!(outcome, Err(PipelineError::UpstreamUnavailable));
    assert_eq!(asked.len(), 1);
}

#[test]
fn waveform_ready_is_told_only_of_a_run_that_ended_well() {
    assert_eq!(
        waveform_ready(12, &Ok(())),
        Some(SubtitleEvent { info: SubtitleEventType::WaveformReady, project: 12 })
    );
    for error in [
        PipelineError::UpstreamUnavailable,
        PipelineError::NoSuitableStream,
        PipelineError::TranscodeFailure,
        PipelineError::PersistenceFailure,
    ] {
        assert_eq!(waveform_ready(12, &Err(error)), None);
    }
}

#[test]
fn waveform_is_handed_out_once_it_is_there() {
    assert_eq!(
        get_waveform(GetWaveform::Requested { youtube_id: "abc123".to_string() }, None),
        Step::Ask(GetWaveform::Finding, Query::WaveformOf { identifier: "abc123".to_string() })
    );
    assert_eq!(
        get_waveform(GetWaveform::Finding, Some(Reply::Waveform(Some(vec![4, 5])))),
        Step::Done(Ok(vec![4, 5]))
    );
    assert_eq!(
        get_waveform(GetWaveform::Finding, Some(Reply::Waveform(Some(Vec::new())))),
        Step::Done(Ok(Vec::new()))
    );
}

#[test]
fn waveform_that_is_not_there_yet_is_not_found() {
    assert_eq!(
        get_waveform(GetWaveform::Finding, Some(Reply::Waveform(None))),
        Step::Done(Err(Status::NotFound))
    );
}

#[test]
fn waveform_lookup_that_fails_is_an_internal_error() {
    assert_eq!(
        get_waveform(GetWaveform::Finding, Some(Reply::Failed)),
        Step::Done(Err(Status::InternalServerError))
    );
    assert_eq!(get_waveform(GetWaveform::Finding, None), Step::Done(Err(Status::InternalServerError)));
}
