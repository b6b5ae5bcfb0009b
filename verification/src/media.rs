//! The external media source: which of a video's streams is taken, and what is asked of the
//! source and of the transcoder.

use vstd::prelude::*;

verus! {

/// The sample rate that a stream must have to be taken.
pub const TARGET_SAMPLE_RATE: u64 = 48000;

/// Whether a stream carries sound alone, and at which sample rate.
#[derive(Clone, Copy, Debug, PartialEq, Eq)]
pub enum StreamKind {
    Audio { sample_rate: u64 },
    Video,
}

/// One variant of a video that the media source offers.
#[derive(Clone, Debug, PartialEq, Eq)]
pub struct StreamInfo {
    pub kind: StreamKind,
    pub bitrate: u64,
    pub url: String,
    /// How long the stream plays, in milliseconds, where the source says so.
    pub duration_ms: Option<u128>,
}

/// What a [`StreamInfo`] is to a contract.
pub struct StreamInfoView {
    pub kind: StreamKind,
    pub bitrate: u64,
    pub url: Seq<char>,
    pub duration_ms: Option<u128>,
}

impl DeepView for StreamInfo {
    type V = StreamInfoView;

    open spec fn deep_view(&self) -> StreamInfoView {
        StreamInfoView {
            kind: self.kind,
            bitrate: self.bitrate,
            url: self.url@,
            duration_ms: self.duration_ms,
        }
    }
}

impl View for StreamInfo {
    type V = StreamInfoView;

    open spec fn view(&self) -> StreamInfoView {
        self.deep_view()
    }
}

impl StreamInfoView {
    /// An audio-only stream at the target sample rate.
    pub open spec fn suitable(self) -> bool {
        self.kind == (StreamKind::Audio { sample_rate: TARGET_SAMPLE_RATE })
    }
}

impl StreamInfo {
    /// Whether this is an audio-only stream at the target sample rate.
    pub fn suitable(&self) -> (yes: bool)
        ensures
            yes == self@.suitable(),
    {
        match self.kind {
            StreamKind::Audio { sample_rate } => sample_rate == TARGET_SAMPLE_RATE,
            StreamKind::Video => false,
        }
    }
}

/// The stream at `at` is suitable, no suitable stream has a lower bitrate, and of the
/// suitable streams with that bitrate it comes first.
pub open spec fn is_best_audio_stream(streams: Seq<StreamInfoView>, at: int) -> bool {
    &&& 0 <= at < streams.len()
    &&& streams[at].suitable()
    &&& forall|j: int|
        0 <= j < at && (#[trigger] streams[j]).suitable() ==> streams[j].bitrate
            > streams[at].bitrate
    &&& forall|j: int|
        at < j < streams.len() && (#[trigger] streams[j]).suitable() ==> streams[j].bitrate
            >= streams[at].bitrate
}

/// Where the best audio stream stands among `streams`, if one of them is suitable.
pub open spec fn spec_best_audio_stream(streams: Seq<StreamInfoView>) -> Option<int> {
    if exists|at: int| is_best_audio_stream(streams, at) {
        Some(choose|at: int| is_best_audio_stream(streams, at))
    } else {
        None
    }
}

/// No two places hold the best audio stream.
pub proof fn lemma_best_audio_stream_is_unique(streams: Seq<StreamInfoView>, a: int, b: int)
    requires
        is_best_audio_stream(streams, a),
        is_best_audio_stream(streams, b),
    ensures
        a == b,
{
    if a < b {
        assert(streams[a].suitable());
    } else if b < a {
        assert(streams[b].suitable());
    }
}

/// A best audio stream is found exactly where some stream is suitable.
pub proof fn lemma_best_audio_stream_exists(streams: Seq<StreamInfoView>)
    ensures
        spec_best_audio_stream(streams) is Some <==> exists|j: int|
            0 <= j < streams.len() && (#[trigger] streams[j]).suitable(),
        spec_best_audio_stream(streams) matches Some(at) ==> is_best_audio_stream(streams, at),
{
    lemma_best_among(streams, streams.len() as int);
    assert(streams.take(streams.len() as int) =~= streams);
    match spec_best_among(streams, streams.len() as int) {
        Some(at) => {
            assert(is_best_audio_stream(streams, at));
            let chosen = choose|at: int| is_best_audio_stream(streams, at);
            assert(streams[chosen].suitable());
        },
        None => {
            assert forall|at: int| !is_best_audio_stream(streams, at) by {
                if 0 <= at < streams.len() {
                    assert(!streams[at].suitable());
                }
            }
        },
    }
}

/// What the best among the first `upto` streams is, by a walk from the first to the last:
/// a stream takes the place of the best so far where it is suitable and has a lower bitrate.
pub open spec fn spec_best_among(streams: Seq<StreamInfoView>, upto: int) -> Option<int>
    decreases upto,
{
    if upto <= 0 {
        None
    } else {
        let last = upto - 1;
        match spec_best_among(streams, last) {
            Some(at) => if streams[last].suitable() && streams[last].bitrate
                < streams[at].bitrate {
                Some(last)
            } else {
                Some(at)
            },
            None => if streams[last].suitable() {
                Some(last)
            } else {
                None
            },
        }
    }
}

/// The walk finds the best audio stream among the first `upto`, read as a list of its
/// own, and finds none exactly where none of them is suitable.
proof fn lemma_best_among(streams: Seq<StreamInfoView>, upto: int)
    requires
        0 <= upto <= streams.len(),
    ensures
        spec_best_among(streams, upto) matches Some(at) ==> is_best_audio_stream(
            streams.take(upto),
            at,
        ),
        spec_best_among(streams, upto) is None ==> forall|j: int|
            0 <= j < upto ==> !(#[trigger] streams[j]).suitable(),
    decreases upto,
{
    if upto > 0 {
        let last = upto - 1;
        lemma_best_among(streams, last);
        let head = streams.take(upto);
        let shorter = streams.take(last);
        assert forall|j: int| 0 <= j < last implies shorter[j] == head[j] by {}
        match spec_best_among(streams, upto) {
            Some(at) => {
                assert forall|j: int| 0 <= j < at && (#[trigger] head[j]).suitable() implies head[j].bitrate
                    > head[at].bitrate by {
                    assert(shorter[j] == streams[j]);
                }
                assert forall|j: int| at < j < upto && (#[trigger] head[j]).suitable() implies head[j].bitrate
                    >= head[at].bitrate by {
                    if j < last {
                        assert(shorter[j] == streams[j]);
                    }
                }
            },
            None => {},
        }
    }
}

/// Picks the stream to take: of the audio-only streams at the target sample rate the one
/// with the lowest bitrate, and of several such the first. `None` is returned exactly when
/// no stream is suitable.
pub fn best_audio_stream(streams: &Vec<StreamInfo>) -> (best: Option<usize>)
    ensures
        best matches Some(at) ==> is_best_audio_stream(streams.deep_view(), at as int),
        best is None <==> forall|j: int|
            0 <= j < streams.len() ==> !(#[trigger] streams.deep_view()[j]).suitable(),
        match best {
            Some(at) => spec_best_audio_stream(streams.deep_view()) == Some(at as int),
            None => spec_best_audio_stream(streams.deep_view()) is None,
        },
{
    let ghost all = streams.deep_view();
    let mut best: Option<usize> = None;
    let mut i: usize = 0;
    while i < streams.len()
        invariant
            i <= streams.len(),
            all == streams.deep_view(),
            all.len() == streams.len(),
            match best {
                Some(at) => spec_best_among(all, i as int) == Some(at as int) && at < i,
                None => spec_best_among(all, i as int) is None,
            },
        decreases streams.len() - i,
    {
        assert(all[i as int] == streams[i as int].deep_view());
        if streams[i].suitable() {
            match best {
                Some(at) => {
                    assert(all[at as int] == streams[at as int].deep_view());
                    if streams[i].bitrate < streams[at].bitrate {
                        best = Some(i);
                    }
                },
                None => {
                    best = Some(i);
                },
            }
        }
        i = i + 1;
    }
    proof {
        lemma_best_among(all, i as int);
        assert(all.take(i as int) =~= all);
        match best {
            Some(at) => {
                let chosen = choose|at: int| is_best_audio_stream(all, at);
                lemma_best_audio_stream_is_unique(all, at as int, chosen);
            },
            None => {
                assert forall|at: int| !is_best_audio_stream(all, at) by {
                    if 0 <= at < all.len() {
                        assert(!all[at].suitable());
                    }
                }
            },
        }
    }
    best
}

/// Why the media source could not say whether it has a video.
#[derive(Clone, Copy, Debug, PartialEq, Eq)]
pub enum SourceError {
    /// The source could not be reached, or its answer could not be read.
    UpstreamUnavailable,
}

/// The address under which the media source lists the video `video` for the holder of
/// `api_key`.
pub open spec fn spec_listing_url(video: Seq<char>, api_key: Seq<char>) -> Seq<char> {
    "https://www.googleapis.com/youtube/v3/videos?part=id&id="@ + video + "&key="@ + api_key
}

/// The address under which the media source lists the video `video` for the holder of
/// `api_key`.
pub fn listing_url(video: &str, api_key: &str) -> (url: String)
    ensures
        url@ == spec_listing_url(video@, api_key@),
{
    let mut url = String::from_str("https://www.googleapis.com/youtube/v3/videos?part=id&id=");
    url.append(video);
    url.append("&key=");
    url.append(api_key);
    url
}

/// Whether the media source has the video, given how many items its listing holds; `None`
/// stands for a listing that could not be had.
pub fn youtube_video_exists(listing: Option<u32>) -> (exists: Result<bool, SourceError>)
    ensures
        exists == (match listing {
            Some(total_results) => Ok::<bool, SourceError>(total_results > 0),
            None => Err(SourceError::UpstreamUnavailable),
        }),
{
    match listing {
        Some(total_results) => Ok(total_results > 0),
        None => Err(SourceError::UpstreamUnavailable),
    }
}

} // verus!
