//! The ingestion of a video's sound: resolve the best stream, transcode it into a waveform,
//! store waveform and duration, and remove the temporary file.
//!
//! The run is a flow of four questions. A question that fails ends the run for good: nothing
//! is retried, and the video keeps neither duration nor waveform. The temporary file is
//! removed however the run ends.

use vstd::prelude::*;
use crate::events::{SubtitleEvent, SubtitleEventType, SubtitleEventTypeView, SubtitleEventView};
use crate::gateway::{Query, QueryView, Reply, ReplyView, Step, StepView};
use crate::media::{best_audio_stream, spec_best_audio_stream};
use crate::status::Status;

verus! {

/// Why a run ended without a waveform.
#[derive(Clone, Copy, Debug, PartialEq, Eq)]
pub enum PipelineError {
    /// The media source did not answer, or gave no duration that can be stored.
    UpstreamUnavailable,
    /// No stream is audio-only at the target sample rate.
    NoSuitableStream,
    /// A process of the transcoder failed, or no waveform came out of it.
    TranscodeFailure,
    /// The store did not take the waveform, or took it for no video.
    PersistenceFailure,
}

impl DeepView for PipelineError {
    type V = PipelineError;

    open spec fn deep_view(&self) -> PipelineError {
        *self
    }
}

impl View for PipelineError {
    type V = PipelineError;

    open spec fn view(&self) -> PipelineError {
        *self
    }
}

/// How far the ingestion of one video has come.
#[derive(Debug, PartialEq, Eq)]
pub enum Download {
    /// Nothing has been asked yet.
    Requested { video: String },
    /// The streams of the video are being resolved.
    Resolving { video: String },
    /// The transcoder runs; `duration` is the chosen stream's, in milliseconds.
    Transcoding { video: String, duration: i32, artifact: String },
    /// The store is taking the waveform.
    Storing { artifact: String },
    /// The store has taken the waveform, and the temporary file is being removed.
    Cleaning,
    /// The run has failed with `error`, and the temporary file is being removed.
    Failing { error: PipelineError },
}

/// What a [`Download`] is to a contract.
pub enum DownloadView {
    Requested { video: Seq<char> },
    Resolving { video: Seq<char> },
    Transcoding { video: Seq<char>, duration: i32, artifact: Seq<char> },
    Storing { artifact: Seq<char> },
    Cleaning,
    Failing { error: PipelineError },
}

impl DeepView for Download {
    type V = DownloadView;

    open spec fn deep_view(&self) -> DownloadView {
        match self {
            Download::Requested { video } => DownloadView::Requested { video: video@ },
            Download::Resolving { video } => DownloadView::Resolving { video: video@ },
            Download::Transcoding { video, duration, artifact } => DownloadView::Transcoding {
                video: video@,
                duration: *duration,
                artifact: artifact@,
            },
            Download::Storing { artifact } => DownloadView::Storing { artifact: artifact@ },
            Download::Cleaning => DownloadView::Cleaning,
            Download::Failing { error } => DownloadView::Failing { error: *error },
        }
    }
}

impl View for Download {
    type V = DownloadView;

    open spec fn view(&self) -> DownloadView {
        self.deep_view()
    }
}

/// Where the waveform of a video is written before it is stored.
pub open spec fn spec_artifact_path(video: Seq<char>) -> Seq<char> {
    "/tmp/uptitle-"@ + video + ".dat"@
}

/// The arguments of the decoder: read `url`, write uncompressed sound to the output stream.
pub open spec fn spec_decoder_args(url: Seq<char>) -> Seq<Seq<char>> {
    seq!["-i"@, url, "-f"@, "wav"@, "-"@]
}

/// The arguments of the waveform generator: read uncompressed sound from the input stream,
/// write 8-bit samples, 400 of them for each second, to `artifact`.
pub open spec fn spec_waveformer_args(artifact: Seq<char>) -> Seq<Seq<char>> {
    seq![
        "--input-format"@,
        "wav"@,
        "-o"@,
        artifact,
        "-b"@,
        "8"@,
        "--pixels-per-second"@,
        "400"@,
    ]
}

/// A duration in milliseconds as the store holds it. A stream that lasts no time at all,
/// or longer than the store's 32 bits can say, has no duration that can be stored.
pub open spec fn spec_stored_millis(millis: u128) -> Option<i32> {
    if 0 < millis <= i32::MAX {
        Some(millis as i32)
    } else {
        None
    }
}

/// The waveform that a run of the transcoder has made: what the file holds, where both
/// processes have exited with the code 0 and the file holds anything at all.
pub open spec fn spec_transcoded(
    decoder: Option<i32>,
    waveformer: Option<i32>,
    artifact: Option<Seq<u8>>,
) -> Option<Seq<u8>> {
    match artifact {
        Some(waveform) => if decoder == Some(0i32) && waveformer == Some(0i32) && waveform.len()
            > 0 {
            Some(waveform)
        } else {
            None
        },
        None => None,
    }
}

/// The step of a run that has failed with `error` once `artifact` may have been written:
/// the file is removed before the run ends.
pub open spec fn spec_fail_and_clean(error: PipelineError, artifact: Seq<char>) -> StepView<
    DownloadView,
    (),
    PipelineError,
> {
    StepView::Ask(DownloadView::Failing { error }, QueryView::RemoveArtifact { path: artifact })
}

/// The step that [`download_youtube_audio`] takes.
pub open spec fn spec_download_youtube_audio(
    state: DownloadView,
    reply: Option<ReplyView>,
) -> StepView<DownloadView, (), PipelineError> {
    match state {
        DownloadView::Requested { video } => StepView::Ask(
            DownloadView::Resolving { video },
            QueryView::Streams { identifier: video },
        ),
        DownloadView::Resolving { video } => match reply {
            Some(ReplyView::Streams(streams)) => match spec_best_audio_stream(streams) {
                Some(at) => match streams[at].duration_ms {
                    Some(millis) => match spec_stored_millis(millis) {
                        Some(duration) => StepView::Ask(
                            DownloadView::Transcoding {
                                video,
                                duration,
                                artifact: spec_artifact_path(video),
                            },
                            QueryView::Transcode {
                                decoder: spec_decoder_args(streams[at].url),
                                waveformer: spec_waveformer_args(spec_artifact_path(video)),
                                artifact: spec_artifact_path(video),
                            },
                        ),
                        None => StepView::Done(Err(PipelineError::UpstreamUnavailable)),
                    },
                    None => StepView::Done(Err(PipelineError::UpstreamUnavailable)),
                },
                None => StepView::Done(Err(PipelineError::NoSuitableStream)),
            },
            _ => StepView::Done(Err(PipelineError::UpstreamUnavailable)),
        },
        DownloadView::Transcoding { video, duration, artifact } => match reply {
            Some(ReplyView::Transcoded { decoder, waveformer, artifact: written }) => match spec_transcoded(
                decoder,
                waveformer,
                written,
            ) {
                Some(waveform) => StepView::Ask(
                    DownloadView::Storing { artifact },
                    QueryView::StoreWaveform { identifier: video, waveform, duration },
                ),
                None => spec_fail_and_clean(PipelineError::TranscodeFailure, artifact),
            },
            _ => spec_fail_and_clean(PipelineError::TranscodeFailure, artifact),
        },
        DownloadView::Storing { artifact } => match reply {
            Some(ReplyView::Affected(rows)) => if rows > 0 {
                StepView::Ask(DownloadView::Cleaning, QueryView::RemoveArtifact { path: artifact })
            } else {
                spec_fail_and_clean(PipelineError::PersistenceFailure, artifact)
            },
            _ => spec_fail_and_clean(PipelineError::PersistenceFailure, artifact),
        },
        DownloadView::Cleaning => StepView::Done(Ok(())),
        DownloadView::Failing { error } => StepView::Done(Err(error)),
    }
}

/// Where the waveform of a video is written before it is stored.
pub fn artifact_path(video: &str) -> (path: String)
    ensures
        path@ == spec_artifact_path(video@),
{
    let mut path = String::from_str("/tmp/uptitle-");
    path.append(video);
    path.append(".dat");
    path
}

/// The arguments to run the decoder with.
pub fn decoder_args(url: &str) -> (args: Vec<String>)
    ensures
        args.deep_view() == spec_decoder_args(url@),
{
    let mut args: Vec<String> = Vec::new();
    args.push(String::from_str("-i"));
    args.push(String::from_str(url));
    args.push(String::from_str("-f"));
    args.push(String::from_str("wav"));
    args.push(String::from_str("-"));
    assert(args.deep_view() =~= spec_decoder_args(url@));
    args
}

/// The arguments to run the waveform generator with.
pub fn waveformer_args(artifact: &str) -> (args: Vec<String>)
    ensures
        args.deep_view() == spec_waveformer_args(artifact@),
{
    let mut args: Vec<String> = Vec::new();
    args.push(String::from_str("--input-format"));
    args.push(String::from_str("wav"));
    args.push(String::from_str("-o"));
    args.push(String::from_str(artifact));
    args.push(String::from_str("-b"));
    args.push(String::from_str("8"));
    args.push(String::from_str("--pixels-per-second"));
    args.push(String::from_str("400"));
    assert(args.deep_view() =~= spec_waveformer_args(artifact@));
    args
}

/// A duration in milliseconds as the store holds it: the same number, where it is more
/// than zero and fits the store's 32 bits, and none otherwise.
pub fn stored_millis(millis: u128) -> (stored: Option<i32>)
    ensures
        stored == spec_stored_millis(millis),
        stored matches Some(duration) ==> duration == millis && duration > 0,
{
    if 0 < millis && millis <= 2147483647 {
        Some(millis as i32)
    } else {
        None
    }
}

/// The waveform that a run of the transcoder has made, given the exit code of each of the
/// two processes (none for one that did not run, or did not exit by itself) and what the
/// file holds (none where it could not be read). A process that exited with another code
/// than 0 has failed, and a file that holds nothing is no waveform.
pub fn transcoded(decoder: Option<i32>, waveformer: Option<i32>, artifact: Option<Vec<u8>>) -> (waveform:
    Option<Vec<u8>>)
    ensures
        match waveform {
            Some(bytes) => spec_transcoded(
                decoder,
                waveformer,
                match artifact {
                    Some(written) => Some(written@),
                    None => None,
                },
            ) == Some(bytes@) && bytes@.len() > 0,
            None => spec_transcoded(
                decoder,
                waveformer,
                match artifact {
                    Some(written) => Some(written@),
                    None => None,
                },
            ) is None,
        },
{
    let decoded = match decoder {
        Some(code) => code == 0,
        None => false,
    };
    let drawn = match waveformer {
        Some(code) => code == 0,
        None => false,
    };
    match artifact {
        Some(bytes) => if decoded && drawn && bytes.len() > 0 {
            Some(bytes)
        } else {
            None
        },
        None => None,
    }
}

/// Takes the ingestion of one video one step further.
///
/// The run starts in [`Download::Requested`], where no reply is looked at. In every other
/// state the reply is the answer to the question that the step before has asked.
///
/// The run fails where no stream is suitable, where the best stream has no duration that
/// can be stored, where the transcoder fails or leaves no waveform, and where the store
/// takes the waveform for no video. Once the transcoder has been started, the temporary
/// file is removed before the run ends, whether it ends well or not; how the removal goes
/// changes nothing in how the run ends.
pub fn download_youtube_audio(state: Download, reply: Option<Reply>) -> (step: Step<
    Download,
    (),
    PipelineError,
>)
    ensures
        step@ == spec_download_youtube_audio(state@, reply.deep_view()),
{
    match state {
        Download::Requested { video } => {
            let identifier = video.clone();
            Step::Ask(Download::Resolving { video }, Query::Streams { identifier })
        },
        Download::Resolving { video } => match reply {
            Some(Reply::Streams(streams)) => match best_audio_stream(&streams) {
                Some(at) => {
                    assert(streams.deep_view()[at as int] == streams[at as int]@);
                    match streams[at].duration_ms {
                        Some(millis) => match stored_millis(millis) {
                            Some(duration) => {
                                let artifact = artifact_path(video.as_str());
                                let decoder = decoder_args(streams[at].url.as_str());
                                let waveformer = waveformer_args(artifact.as_str());
                                Step::Ask(
                                    Download::Transcoding {
                                        video,
                                        duration,
                                        artifact: artifact.clone(),
                                    },
                                    Query::Transcode { decoder, waveformer, artifact },
                                )
                            },
                            None => Step::Done(Err(PipelineError::UpstreamUnavailable)),
                        },
                        None => Step::Done(Err(PipelineError::UpstreamUnavailable)),
                    }
                },
                None => Step::Done(Err(PipelineError::NoSuitableStream)),
            },
            _ => Step::Done(Err(PipelineError::UpstreamUnavailable)),
        },
        Download::Transcoding { video, duration, artifact } => match reply {
            Some(Reply::Transcoded { decoder, waveformer, artifact: written }) => match transcoded(
                decoder,
                waveformer,
                written,
            ) {
                Some(waveform) => Step::Ask(
                    Download::Storing { artifact },
                    Query::StoreWaveform { identifier: video, waveform, duration },
                ),
                None => fail_and_clean(PipelineError::TranscodeFailure, artifact),
            },
            _ => fail_and_clean(PipelineError::TranscodeFailure, artifact),
        },
        Download::Storing { artifact } => match reply {
            Some(Reply::Affected(rows)) => if rows > 0 {
                Step::Ask(Download::Cleaning, Query::RemoveArtifact { path: artifact })
            } else {
                fail_and_clean(PipelineError::PersistenceFailure, artifact)
            },
            _ => fail_and_clean(PipelineError::PersistenceFailure, artifact),
        },
        Download::Cleaning => Step::Done(Ok(())),
        Download::Failing { error } => Step::Done(Err(error)),
    }
}

/// Asks for the removal of the temporary file on the way to the end of a run that has
/// failed.
fn fail_and_clean(error: PipelineError, artifact: String) -> (step: Step<
    Download,
    (),
    PipelineError,
>)
    ensures
        step@ == spec_fail_and_clean(error, artifact@),
{
    Step::Ask(Download::Failing { error }, Query::RemoveArtifact { path: artifact })
}

/// What the bus is told when a run is over: that the waveform is ready, if the run
/// succeeded, and nothing if it failed.
pub fn waveform_ready(project: i32, outcome: &Result<(), PipelineError>) -> (event: Option<
    SubtitleEvent,
>)
    ensures
        event.deep_view() == (match outcome {
            Ok(_) => Some(
                SubtitleEventView { info: SubtitleEventTypeView::WaveformReady, project },
            ),
            Err(_) => None,
        }),
{
    match outcome {
        Ok(_) => Some(SubtitleEvent { info: SubtitleEventType::WaveformReady, project }),
        Err(_) => None,
    }
}

/// A run ends well exactly when the store has taken the waveform: it ends well only from
/// the removal that follows the store's answer, and that removal is asked only when the
/// store has said that it stored the waveform for a video. Each state is come to only from
/// the one before it, so the run has then resolved the streams and transcoded as well.
pub proof fn lemma_run_ends_well_only_after_every_step(state: DownloadView, reply: Option<ReplyView>)
    ensures
        spec_download_youtube_audio(state, reply) matches StepView::Done(Ok(_)) <==> state
            is Cleaning,
        spec_download_youtube_audio(state, reply) matches StepView::Ask(next, _) ==> match next {
            DownloadView::Requested { .. } => false,
            DownloadView::Resolving { .. } => state is Requested,
            DownloadView::Transcoding { .. } => state is Resolving && reply matches Some(
                ReplyView::Streams(_),
            ),
            DownloadView::Storing { .. } => state is Transcoding && reply matches Some(
                ReplyView::Transcoded { .. },
            ),
            DownloadView::Cleaning => {
                &&& state is Storing
                &&& reply matches Some(ReplyView::Affected(rows))
                &&& rows > 0
            },
            DownloadView::Failing { .. } => state is Transcoding || state is Storing,
        },
{
}

/// A question that fails, or is not answered, ends the run with an error, and nothing is
/// asked again. Before the transcoder has been started the run ends at once. After that
/// the one thing still asked is the removal of the temporary file, and whatever comes of
/// it, the run then ends with the error of the question that failed.
pub proof fn lemma_run_ends_on_a_failure(state: DownloadView, removal: Option<ReplyView>)
    ensures
        state is Resolving ==> {
            &&& spec_download_youtube_audio(state, Some(ReplyView::Failed)) == StepView::<
                DownloadView,
                (),
                PipelineError,
            >::Done(Err(PipelineError::UpstreamUnavailable))
            &&& spec_download_youtube_audio(state, None) == StepView::<
                DownloadView,
                (),
                PipelineError,
            >::Done(Err(PipelineError::UpstreamUnavailable))
        },
        state matches DownloadView::Transcoding { artifact, .. } ==> {
            &&& spec_download_youtube_audio(state, Some(ReplyView::Failed)) == spec_fail_and_clean(
                PipelineError::TranscodeFailure,
                artifact,
            )
            &&& spec_download_youtube_audio(state, None) == spec_fail_and_clean(
                PipelineError::TranscodeFailure,
                artifact,
            )
        },
        state matches DownloadView::Storing { artifact } ==> {
            &&& spec_download_youtube_audio(state, Some(ReplyView::Failed)) == spec_fail_and_clean(
                PipelineError::PersistenceFailure,
                artifact,
            )
            &&& spec_download_youtube_audio(state, Some(ReplyView::Affected(0)))
                == spec_fail_and_clean(PipelineError::PersistenceFailure, artifact)
            &&& spec_download_youtube_audio(state, None) == spec_fail_and_clean(
                PipelineError::PersistenceFailure,
                artifact,
            )
        },
        state matches DownloadView::Failing { error } ==> spec_download_youtube_audio(
            state,
            removal,
        ) == StepView::<DownloadView, (), PipelineError>::Done(Err(error)),
{
}

/// No run ends while the temporary file may be there: once the transcoder has been asked
/// to write it, every step either goes on with the run or asks for the removal of that
/// file, and the run ends only with the step that takes the reply to the removal.
pub proof fn lemma_run_removes_the_artifact_on_every_path(
    state: DownloadView,
    reply: Option<ReplyView>,
)
    ensures
        state matches DownloadView::Transcoding { artifact, .. } ==> (spec_download_youtube_audio(
            state,
            reply,
        ) matches StepView::Ask(next, asked) && match next {
            DownloadView::Storing { artifact: kept } => kept == artifact,
            DownloadView::Failing { .. } => asked == (QueryView::RemoveArtifact {
                path: artifact,
            }),
            _ => false,
        }),
        state matches DownloadView::Storing { artifact } ==> (spec_download_youtube_audio(
            state,
            reply,
        ) matches StepView::Ask(next, asked) && (next is Cleaning || next is Failing) && asked
            == (QueryView::RemoveArtifact { path: artifact })),
        spec_download_youtube_audio(state, reply) is Done ==> !(state is Transcoding) && !(state
            is Storing),
{
}

/// What a run does where every question is answered: the decoder reads the best stream,
/// the waveform generator writes to the video's temporary file, the store is handed the
/// waveform as it was read from that file, for the video that the run was started for and
/// with the duration of the stream that was chosen, and the file that is removed in the end
/// is the one that was written. What is stored is a waveform that holds something and a
/// duration above zero. Where the streams hold none that is suitable, or the best of them
/// has no duration that can be stored, the run ends before anything is transcoded.
pub proof fn lemma_run_stores_what_the_transcoder_gave(
    video: Seq<char>,
    streams: Seq<crate::media::StreamInfoView>,
    written: Seq<u8>,
    affected: usize,
    removal: Option<ReplyView>,
)
    requires
        written.len() > 0,
        affected > 0,
    ensures
        match spec_download_youtube_audio(
            DownloadView::Resolving { video },
            Some(ReplyView::Streams(streams)),
        ) {
            StepView::Ask(transcoding, QueryView::Transcode { decoder, waveformer, artifact }) => {
                &&& spec_best_audio_stream(streams) matches Some(at)
                &&& crate::media::is_best_audio_stream(streams, at)
                &&& streams[at].duration_ms matches Some(millis)
                &&& decoder == spec_decoder_args(streams[at].url)
                &&& waveformer == spec_waveformer_args(artifact)
                &&& artifact == spec_artifact_path(video)
                &&& spec_download_youtube_audio(
                    transcoding,
                    Some(
                        ReplyView::Transcoded {
                            decoder: Some(0i32),
                            waveformer: Some(0i32),
                            artifact: Some(written),
                        },
                    ),
                ) matches StepView::Ask(
                    storing,
                    QueryView::StoreWaveform { identifier, waveform: stored, duration },
                )
                &&& identifier == video
                &&& stored == written
                &&& duration == millis
                &&& duration > 0
                &&& spec_download_youtube_audio(storing, Some(ReplyView::Affected(affected)))
                    matches StepView::Ask(cleaning, QueryView::RemoveArtifact { path })
                &&& path == artifact
                &&& spec_download_youtube_audio(cleaning, removal) == StepView::<
                    DownloadView,
                    (),
                    PipelineError,
                >::Done(Ok(()))
            },
            StepView::Ask(_, _) => false,
            StepView::Done(Ok(_)) => false,
            StepView::Done(Err(error)) => {
                ||| error == PipelineError::NoSuitableStream && forall|j: int|
                    0 <= j < streams.len() ==> !(#[trigger] streams[j]).suitable()
                ||| {
                    &&& error == PipelineError::UpstreamUnavailable
                    &&& spec_best_audio_stream(streams) matches Some(at)
                    &&& match streams[at].duration_ms {
                        Some(millis) => millis == 0 || millis > i32::MAX,
                        None => true,
                    }
                }
            },
        },
{
    crate::media::lemma_best_audio_stream_exists(streams);
}

/// How far a request for a video's waveform has come.
#[derive(Debug, PartialEq, Eq)]
pub enum GetWaveform {
    /// Nothing has been asked yet.
    Requested { youtube_id: String },
    /// The store is looking for the waveform.
    Finding,
}

/// What a [`GetWaveform`] is to a contract.
pub enum GetWaveformView {
    Requested { youtube_id: Seq<char> },
    Finding,
}

impl DeepView for GetWaveform {
    type V = GetWaveformView;

    open spec fn deep_view(&self) -> GetWaveformView {
        match self {
            GetWaveform::Requested { youtube_id } => GetWaveformView::Requested {
                youtube_id: youtube_id@,
            },
            GetWaveform::Finding => GetWaveformView::Finding,
        }
    }
}

impl View for GetWaveform {
    type V = GetWaveformView;

    open spec fn view(&self) -> GetWaveformView {
        self.deep_view()
    }
}

/// The step that [`get_waveform`] takes.
pub open spec fn spec_get_waveform(state: GetWaveformView, reply: Option<ReplyView>) -> StepView<
    GetWaveformView,
    Seq<u8>,
    Status,
> {
    match state {
        GetWaveformView::Requested { youtube_id } => StepView::Ask(
            GetWaveformView::Finding,
            QueryView::WaveformOf { identifier: youtube_id },
        ),
        GetWaveformView::Finding => match reply {
            Some(ReplyView::Waveform(Some(waveform))) => StepView::Done(Ok(waveform)),
            Some(ReplyView::Waveform(None)) => StepView::Done(Err(Status::NotFound)),
            _ => StepView::Done(Err(Status::InternalServerError)),
        },
    }
}

/// Hands out the waveform of a video. A video whose ingestion has not come to an end, or
/// has failed, has none, and is answered as not found.
pub fn get_waveform(state: GetWaveform, reply: Option<Reply>) -> (step: Step<
    GetWaveform,
    Vec<u8>,
    Status,
>)
    ensures
        step@ == spec_get_waveform(state@, reply.deep_view()),
{
    match state {
        GetWaveform::Requested { youtube_id } => Step::Ask(
            GetWaveform::Finding,
            Query::WaveformOf { identifier: youtube_id },
        ),
        GetWaveform::Finding => match reply {
            Some(Reply::Waveform(Some(waveform))) => Step::Done(Ok(waveform)),
            Some(Reply::Waveform(None)) => Step::Done(Err(Status::NotFound)),
            _ => Step::Done(Err(Status::InternalServerError)),
        },
    }
}

} // verus!
