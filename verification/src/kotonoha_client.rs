//! The dialogue client: recorded audio in, synthesised audio out.
//!
//! One exchange is four requests, each built from the answer to the one
//! before: the audio is transcribed, the transcription is answered by the
//! dialogue engine, the answer is turned into an audio query by the speech
//! synthesiser, and the query, with its speed overridden, is synthesised.
//!
//! The client sends nothing itself. It says which request is due and is told
//! what came back.

use vstd::prelude::*;
use crate::document::{
    object_members, object_text, patch_audio_query, string_text, synthesis_body, with_fixed_speed,
    SPEED_SCALE, SPEED_SCALE_MEMBER,
};
use crate::text::{decimal, push_decimal};

verus! {

/// What the transcription service answers.
#[derive(Debug, PartialEq, Eq)]
pub struct TranscribeOutput {
    pub text: String,
}

/// What the dialogue engine is asked.
#[derive(Debug, PartialEq, Eq)]
pub struct ThinkInput {
    pub text: String,
}

/// What the dialogue engine answers.
#[derive(Debug, PartialEq, Eq)]
pub struct ThinkOutput {
    pub output: String,
}

/// The parameters of a request for an audio query.
#[derive(Debug, PartialEq, Eq)]
pub struct AudioQueryInput {
    pub text: String,
    pub speaker: String,
}

/// The parameters of a synthesis request.
#[derive(Debug, PartialEq, Eq)]
pub struct SynthesisQuery {
    pub speaker: String,
}

/// A text to synthesise.
#[derive(Debug, PartialEq, Eq)]
pub struct SynthesisInput {
    pub text: String,
}

impl View for TranscribeOutput {
    type V = Seq<char>;

    open spec fn view(&self) -> Seq<char> {
        self.text@
    }
}

impl View for ThinkInput {
    type V = Seq<char>;

    open spec fn view(&self) -> Seq<char> {
        self.text@
    }
}

impl View for ThinkOutput {
    type V = Seq<char>;

    open spec fn view(&self) -> Seq<char> {
        self.output@
    }
}

/// [`AudioQueryInput`] with its texts as sequences of characters.
pub struct AudioQueryInputView {
    pub text: Seq<char>,
    pub speaker: Seq<char>,
}

impl View for AudioQueryInput {
    type V = AudioQueryInputView;

    open spec fn view(&self) -> AudioQueryInputView {
        AudioQueryInputView { text: self.text@, speaker: self.speaker@ }
    }
}

impl View for SynthesisQuery {
    type V = Seq<char>;

    open spec fn view(&self) -> Seq<char> {
        self.speaker@
    }
}

impl View for SynthesisInput {
    type V = Seq<char>;

    open spec fn view(&self) -> Seq<char> {
        self.text@
    }
}

/// The port on which the speech synthesiser listens.
pub const SYNTHESIS_PORT: u16 = 50021;

/// The voice that speaks the answers.
pub const SPEAKER: &'static str = "3";

/// The content type of the requests that carry JSON.
pub const JSON_CONTENT_TYPE: &'static str = "application/json";

/// The four steps of an exchange.
#[derive(Debug, PartialEq, Eq, Clone, Copy)]
pub enum Stage {
    Transcribing,
    Thinking,
    Querying,
    Synthesizing,
}

/// A request that is due. All of them are sent with POST.
#[derive(Debug, PartialEq, Eq)]
pub enum Request {
    /// The recorded audio as the body.
    Transcribe { url: String, audio: Vec<u8> },
    /// The input as a JSON body.
    Think { url: String, input: ThinkInput },
    /// The input as query parameters, no body.
    AudioQuery { url: String, query: AudioQueryInput },
    /// The voice as query parameters, `body` as a JSON body.
    Synthesis { url: String, voice: SynthesisQuery, body: String },
}

/// [`Request`] with its texts and bytes as sequences.
pub enum RequestView {
    Transcribe { url: Seq<char>, audio: Seq<u8> },
    Think { url: Seq<char>, text: Seq<char> },
    AudioQuery { url: Seq<char>, text: Seq<char>, speaker: Seq<char> },
    Synthesis { url: Seq<char>, speaker: Seq<char>, body: Seq<char> },
}

impl View for Request {
    type V = RequestView;

    open spec fn view(&self) -> RequestView {
        match self {
            Request::Transcribe { url, audio } => RequestView::Transcribe {
                url: url@,
                audio: audio@,
            },
            Request::Think { url, input } => RequestView::Think { url: url@, text: input@ },
            Request::AudioQuery { url, query } => RequestView::AudioQuery {
                url: url@,
                text: query.text@,
                speaker: query.speaker@,
            },
            Request::Synthesis { url, voice, body } => RequestView::Synthesis {
                url: url@,
                speaker: voice@,
                body: body@,
            },
        }
    }
}

/// What came back for a request.
#[derive(Debug, PartialEq, Eq)]
pub enum Reply {
    /// The transcription service answered.
    Transcribed(TranscribeOutput),
    /// The dialogue engine answered.
    Thought(ThinkOutput),
    /// The synthesiser answered an audio query; the body as text.
    AudioQueried(String),
    /// The synthesiser sent audio.
    Synthesized(Vec<u8>),
    /// The request could not be sent, or what came back could not be read.
    Failed,
}

/// [`Reply`] with its texts and bytes as sequences.
pub enum ReplyView {
    Transcribed(Seq<char>),
    Thought(Seq<char>),
    AudioQueried(Seq<char>),
    Synthesized(Seq<u8>),
    Failed,
}

impl View for Reply {
    type V = ReplyView;

    open spec fn view(&self) -> ReplyView {
        match self {
            Reply::Transcribed(output) => ReplyView::Transcribed(output@),
            Reply::Thought(output) => ReplyView::Thought(output@),
            Reply::AudioQueried(body) => ReplyView::AudioQueried(body@),
            Reply::Synthesized(audio) => ReplyView::Synthesized(audio@),
            Reply::Failed => ReplyView::Failed,
        }
    }
}

/// Why an exchange ended without audio.
#[derive(Debug, PartialEq, Eq, Clone, Copy)]
pub enum AskError {
    /// The request of this stage failed.
    Failed(Stage),
    /// The reply is not one that this stage waits for.
    Unexpected(Stage),
    /// The synthesiser answered the audio query with something that is no
    /// JSON object.
    MalformedAudioQuery,
}

/// Where an exchange stands.
#[derive(Debug, PartialEq, Eq)]
pub enum Progress {
    /// The request is due; its reply belongs to the stage.
    Send(Stage, Request),
    /// The exchange is over; this is the synthesised audio.
    Done(Vec<u8>),
    /// The exchange is over and there is no audio.
    Failed(AskError),
}

/// [`Progress`] with its texts and bytes as sequences.
pub enum ProgressView {
    Send(Stage, RequestView),
    Done(Seq<u8>),
    Failed(AskError),
}

impl View for Progress {
    type V = ProgressView;

    open spec fn view(&self) -> ProgressView {
        match self {
            Progress::Send(stage, request) => ProgressView::Send(*stage, request@),
            Progress::Done(audio) => ProgressView::Done(audio@),
            Progress::Failed(error) => ProgressView::Failed(*error),
        }
    }
}

/// Where the dialogue backend is.
pub struct Endpoint {
    pub host: Seq<char>,
    pub port: u16,
}

/// `http://host:port`.
pub open spec fn origin(host: Seq<char>, port: u16) -> Seq<char> {
    "http://"@ + host + ":"@ + decimal(port as nat)
}

pub open spec fn transcribe_url(backend: Endpoint) -> Seq<char> {
    origin(backend.host, backend.port) + "/transcribe"@
}

pub open spec fn talk_url(backend: Endpoint) -> Seq<char> {
    origin(backend.host, backend.port) + "/talk"@
}

/// The synthesiser runs on the backend's host, on its own port.
pub open spec fn audio_query_url(backend: Endpoint) -> Seq<char> {
    origin(backend.host, SYNTHESIS_PORT) + "/audio_query"@
}

pub open spec fn synthesis_url(backend: Endpoint) -> Seq<char> {
    origin(backend.host, SYNTHESIS_PORT) + "/synthesis"@
}

/// The request that transcribes `audio`.
pub open spec fn transcribe_request(backend: Endpoint, audio: Seq<u8>) -> RequestView {
    RequestView::Transcribe { url: transcribe_url(backend), audio }
}

/// The request that asks the dialogue engine about `text`.
pub open spec fn think_request(backend: Endpoint, text: Seq<char>) -> RequestView {
    RequestView::Think { url: talk_url(backend), text }
}

/// The request for the audio query of `text`.
pub open spec fn audio_query_request(backend: Endpoint, text: Seq<char>) -> RequestView {
    RequestView::AudioQuery { url: audio_query_url(backend), text, speaker: SPEAKER@ }
}

/// The request that synthesises `body`.
pub open spec fn synthesis_request(backend: Endpoint, body: Seq<char>) -> RequestView {
    RequestView::Synthesis { url: synthesis_url(backend), speaker: SPEAKER@, body }
}

/// How an exchange about `audio` starts.
pub open spec fn first_step(backend: Endpoint, audio: Seq<u8>) -> ProgressView {
    ProgressView::Send(Stage::Transcribing, transcribe_request(backend, audio))
}

/// How an exchange goes on when `reply` arrives at `stage`.
pub open spec fn next_step(backend: Endpoint, stage: Stage, reply: ReplyView) -> ProgressView {
    match (stage, reply) {
        (_, ReplyView::Failed) => ProgressView::Failed(AskError::Failed(stage)),
        (Stage::Transcribing, ReplyView::Transcribed(text)) => ProgressView::Send(
            Stage::Thinking,
            think_request(backend, text),
        ),
        (Stage::Thinking, ReplyView::Thought(output)) => ProgressView::Send(
            Stage::Querying,
            audio_query_request(backend, output),
        ),
        (Stage::Querying, ReplyView::AudioQueried(query)) => match synthesis_body(query) {
            Some(body) => ProgressView::Send(Stage::Synthesizing, synthesis_request(backend, body)),
            None => ProgressView::Failed(AskError::MalformedAudioQuery),
        },
        (Stage::Synthesizing, ReplyView::Synthesized(audio)) => ProgressView::Done(audio),
        _ => ProgressView::Failed(AskError::Unexpected(stage)),
    }
}

/// A dialogue client: audio in, audio out, by way of requests that someone
/// else sends.
pub trait KotonohaClient {
    /// Starts an exchange about the recorded audio.
    fn ask(&self, wav: Vec<u8>) -> Progress;

    /// Goes on with an exchange: `reply` is what came back for the request
    /// that was due at `stage`.
    fn resume(&self, stage: Stage, reply: Reply) -> Progress;
}

/// The client of the dialogue backend.
#[derive(Debug)]
pub struct KotonohaClientImpl {
    host: String,
    port: u16,
}

impl View for KotonohaClientImpl {
    type V = Endpoint;

    closed spec fn view(&self) -> Endpoint {
        Endpoint { host: self.host@, port: self.port }
    }
}

impl KotonohaClientImpl {
    pub fn new(host: String, port: u16) -> (client: Self)
        ensures
            client@ == (Endpoint { host: host@, port }),
    {
        KotonohaClientImpl { host, port }
    }

    /// `http://host:port` for this backend's host.
    fn origin(&self, port: u16) -> (url: String)
        ensures
            url@ == origin(self@.host, port),
    {
        let mut url = "http://".to_owned();
        url.append(self.host.as_str());
        url.append(":");
        push_decimal(&mut url, port);
        url
    }

    /// The request that transcribes the recorded audio.
    pub fn transcribe(&self, wav: Vec<u8>) -> (request: Request)
        ensures
            request@ == transcribe_request(self@, wav@),
    {
        let mut url = self.origin(self.port);
        url.append("/transcribe");
        Request::Transcribe { url, audio: wav }
    }

    /// The request that asks the dialogue engine about `text`.
    pub fn think(&self, text: String) -> (request: Request)
        ensures
            request@ == think_request(self@, text@),
    {
        let mut url = self.origin(self.port);
        url.append("/talk");
        Request::Think { url, input: ThinkInput { text } }
    }

    /// The request for the audio query of `text`, in the fixed voice.
    pub fn audio_query(&self, text: String) -> (request: Request)
        ensures
            request@ == audio_query_request(self@, text@),
    {
        let mut url = self.origin(SYNTHESIS_PORT);
        url.append("/audio_query");
        Request::AudioQuery { url, query: AudioQueryInput { text, speaker: SPEAKER.to_owned() } }
    }

    /// The request that synthesises the audio query `query`, which is the
    /// body of the synthesiser's answer: the same document, its speed
    /// overridden, in the fixed voice.
    pub fn synthesize(&self, query: &str) -> (request: Result<Request, AskError>)
        ensures
            match synthesis_body(query@) {
                Some(body) => request matches Ok(r) && r@ == synthesis_request(self@, body),
                None => request == Err::<Request, AskError>(AskError::MalformedAudioQuery),
            },
    {
        match patch_audio_query(query) {
            Ok(body) => {
                let mut url = self.origin(SYNTHESIS_PORT);
                url.append("/synthesis");
                Ok(
                    Request::Synthesis {
                        url,
                        voice: SynthesisQuery { speaker: SPEAKER.to_owned() },
                        body,
                    },
                )
            },
            Err(_) => Err(AskError::MalformedAudioQuery),
        }
    }
}

impl KotonohaClient for KotonohaClientImpl {
    fn ask(&self, wav: Vec<u8>) -> (progress: Progress)
        ensures
            progress@ == first_step(self@, wav@),
    {
        Progress::Send(Stage::Transcribing, self.transcribe(wav))
    }

    fn resume(&self, stage: Stage, reply: Reply) -> (progress: Progress)
        ensures
            progress@ == next_step(self@, stage, reply@),
    {
        match reply {
            Reply::Failed => Progress::Failed(AskError::Failed(stage)),
            Reply::Transcribed(output) => match stage {
                Stage::Transcribing => Progress::Send(Stage::Thinking, self.think(output.text)),
                _ => Progress::Failed(AskError::Unexpected(stage)),
            },
            Reply::Thought(output) => match stage {
                Stage::Thinking => Progress::Send(Stage::Querying, self.audio_query(output.output)),
                _ => Progress::Failed(AskError::Unexpected(stage)),
            },
            Reply::AudioQueried(query) => match stage {
                Stage::Querying => match self.synthesize(query.as_str()) {
                    Ok(request) => Progress::Send(Stage::Synthesizing, request),
                    Err(error) => Progress::Failed(error),
                },
                _ => Progress::Failed(AskError::Unexpected(stage)),
            },
            Reply::Synthesized(audio) => match stage {
                Stage::Synthesizing => Progress::Done(audio),
                _ => Progress::Failed(AskError::Unexpected(stage)),
            },
        }
    }
}

/// What an exchange comes to: the requests that were due, in order, and
/// where the exchange stood in the end.
pub struct Course {
    pub sent: Seq<RequestView>,
    pub end: ProgressView,
}

/// The course of an exchange that stands at `progress` when the replies
/// arrive one after another. Each reply answers the request that was due; a
/// reply that arrives once the exchange is over is not looked at.
pub open spec fn course(backend: Endpoint, progress: ProgressView, replies: Seq<ReplyView>) -> Course
    decreases replies.len(),
{
    match progress {
        ProgressView::Send(stage, request) => if replies.len() == 0 {
            Course { sent: seq![request], end: progress }
        } else {
            let rest = course(backend, next_step(backend, stage, replies[0]), replies.drop_first());
            Course { sent: seq![request] + rest.sent, end: rest.end }
        },
        _ => Course { sent: Seq::empty(), end: progress },
    }
}

/// An exchange transcribes, then thinks, then synthesises, and each step is
/// fed by the one before and by nothing else: the recorded audio is
/// transcribed, the transcription is what the dialogue engine is asked, its
/// answer is what the audio query is made for, the audio query with its speed
/// overridden is what is synthesised, and the synthesised audio is the
/// result.
pub proof fn law_ask_runs_in_order(
    backend: Endpoint,
    wav: Seq<u8>,
    transcription: Seq<char>,
    answer: Seq<char>,
    query: Seq<char>,
    audio: Seq<u8>,
)
    requires
        synthesis_body(query) is Some,
    ensures
        course(
            backend,
            first_step(backend, wav),
            seq![
                ReplyView::Transcribed(transcription),
                ReplyView::Thought(answer),
                ReplyView::AudioQueried(query),
                ReplyView::Synthesized(audio),
            ],
        ) == (Course {
            sent: seq![
                transcribe_request(backend, wav),
                think_request(backend, transcription),
                audio_query_request(backend, answer),
                synthesis_request(backend, synthesis_body(query)->0),
            ],
            end: ProgressView::Done(audio),
        }),
{
    let replies = seq![
        ReplyView::Transcribed(transcription),
        ReplyView::Thought(answer),
        ReplyView::AudioQueried(query),
        ReplyView::Synthesized(audio),
    ];
    let after_first = replies.drop_first();
    let after_second = after_first.drop_first();
    let after_third = after_second.drop_first();
    let after_fourth = after_third.drop_first();
    let begun = first_step(backend, wav);
    let transcribed = next_step(backend, Stage::Transcribing, replies[0]);
    let thought = next_step(backend, Stage::Thinking, after_first[0]);
    let queried = next_step(backend, Stage::Querying, after_second[0]);
    let synthesized = next_step(backend, Stage::Synthesizing, after_third[0]);
    assert(after_fourth.len() == 0);
    assert(course(backend, synthesized, after_fourth).sent =~= Seq::<RequestView>::empty());
    assert(course(backend, queried, after_third).sent =~= seq![
        synthesis_request(backend, synthesis_body(query)->0),
    ]);
    assert(course(backend, thought, after_second).sent =~= seq![
        audio_query_request(backend, answer),
        synthesis_request(backend, synthesis_body(query)->0),
    ]);
    assert(course(backend, transcribed, after_first).sent =~= seq![
        think_request(backend, transcription),
        audio_query_request(backend, answer),
        synthesis_request(backend, synthesis_body(query)->0),
    ]);
    assert(course(backend, begun, replies).sent =~= seq![
        transcribe_request(backend, wav),
        think_request(backend, transcription),
        audio_query_request(backend, answer),
        synthesis_request(backend, synthesis_body(query)->0),
    ]);
}

/// The first failure ends an exchange: no request follows the one that
/// failed, and the exchange ends without audio, whatever arrives later.
pub proof fn law_first_failure_ends_the_exchange(
    backend: Endpoint,
    stage: Stage,
    request: RequestView,
    later: Seq<ReplyView>,
)
    ensures
        course(
            backend,
            ProgressView::Send(stage, request),
            seq![ReplyView::Failed] + later,
        ) == (Course {
            sent: seq![request],
            end: ProgressView::Failed(AskError::Failed(stage)),
        }),
{
    let replies = seq![ReplyView::Failed] + later;
    assert(replies[0] == ReplyView::Failed);
    let failed = next_step(backend, stage, replies[0]);
    assert(course(backend, failed, replies.drop_first()).sent =~= Seq::<RequestView>::empty());
    assert(course(backend, ProgressView::Send(stage, request), replies).sent =~= seq![request]);
}

/// What is synthesised has the fixed speed, whatever speed the audio query
/// came with and whether or not it named one, and is otherwise the audio
/// query as it came.
pub proof fn law_speed_is_overridden(backend: Endpoint, query: Seq<char>)
    requires
        object_members(query) is Some,
    ensures
        next_step(backend, Stage::Querying, ReplyView::AudioQueried(query)) == ProgressView::Send(
            Stage::Synthesizing,
            synthesis_request(backend, object_text(with_fixed_speed(object_members(query)->0))),
        ),
        with_fixed_speed(object_members(query)->0)[SPEED_SCALE_MEMBER@] == string_text(
            SPEED_SCALE@,
        ),
        forall|name: Seq<char>|
            name != SPEED_SCALE_MEMBER@ ==> (#[trigger] with_fixed_speed(
                object_members(query)->0,
            ).contains_key(name) <==> (object_members(query)->0).contains_key(name)),
        forall|name: Seq<char>|
            name != SPEED_SCALE_MEMBER@ && (object_members(query)->0).contains_key(name)
                ==> #[trigger] with_fixed_speed(object_members(query)->0)[name] == (object_members(
                query,
            )->0)[name],
{
}

} // verus!
