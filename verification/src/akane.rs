//! The assistant itself: what it does next, given what just happened.
//!
//! The assistant connects to the recogniser and reads its transcript chunk by
//! chunk. When the wake phrase is heard it records an utterance, loads the
//! recording, asks the dialogue client about it, plays the answer and keeps
//! it as the last response; then it listens again. Whatever fails, fails the
//! assistant: it halts and does nothing more. A read that brings no bytes is
//! such a failure: the recogniser has closed the stream.
//!
//! Nothing here waits for anything. The caller carries out each command and
//! reports what came of it.

use vstd::prelude::*;
use crate::config::AkaneConfig;
use crate::kotonoha_client::{Endpoint, KotonohaClientImpl};
use crate::text::{decimal, push_decimal};
use crate::transcript::{
    first_capture, hear, heard_in, pattern_compiles, Heard, HeardView, PatternRefused, WORD_GROUP,
    WORD_PATTERN,
};
use vstd::utf8::{decode_utf8, valid_utf8};

verus! {

/// The program that records an utterance.
pub const RECORDER: &'static str = "adinrec";

/// The file that the recorder writes and the assistant loads.
pub const RECORDING_PATH: &'static str = "out.wav";

/// The program that plays audio from its standard input.
pub const PLAYER: &'static str = "aplay";

/// The sound device that the player is told to use.
pub const PLAYER_DEVICE: &'static str = "plughw:2,0";

/// The file that holds the last response.
pub const LAST_RESPONSE_PATH: &'static str = "prev.wav";

/// What the assistant is waiting for.
#[derive(Debug, PartialEq, Eq)]
pub enum Phase {
    /// The connection to the recogniser.
    Connecting,
    /// The next chunk of the transcript.
    Listening,
    /// The recorder to finish.
    Recording,
    /// The recording to be loaded.
    Loading,
    /// The dialogue client's answer.
    Asking,
    /// The player to take the answer, which is held here.
    Playing(Vec<u8>),
    /// The answer to be stored.
    Saving,
    /// Nothing: the assistant has halted.
    Halted,
}

/// [`Phase`] with its bytes as a sequence.
pub enum PhaseView {
    Connecting,
    Listening,
    Recording,
    Loading,
    Asking,
    Playing(Seq<u8>),
    Saving,
    Halted,
}

impl View for Phase {
    type V = PhaseView;

    open spec fn view(&self) -> PhaseView {
        match self {
            Phase::Connecting => PhaseView::Connecting,
            Phase::Listening => PhaseView::Listening,
            Phase::Recording => PhaseView::Recording,
            Phase::Loading => PhaseView::Loading,
            Phase::Asking => PhaseView::Asking,
            Phase::Playing(audio) => PhaseView::Playing(audio@),
            Phase::Saving => PhaseView::Saving,
            Phase::Halted => PhaseView::Halted,
        }
    }
}

/// What came of a command.
#[derive(Debug, PartialEq, Eq)]
pub enum Event {
    /// The recogniser is connected.
    Connected,
    /// A chunk was read, and this is what it amounts to.
    Heard(Heard),
    /// The recorder has finished.
    Recorded,
    /// The recording was loaded.
    Loaded(Vec<u8>),
    /// The dialogue client answered with audio.
    Answered(Vec<u8>),
    /// The player has taken the audio.
    Played,
    /// The audio was stored.
    Saved,
    /// The command failed.
    Failed,
}

/// [`Event`] with its texts and bytes as sequences.
pub enum EventView {
    Connected,
    Heard(HeardView),
    Recorded,
    Loaded(Seq<u8>),
    Answered(Seq<u8>),
    Played,
    Saved,
    Failed,
}

impl View for Event {
    type V = EventView;

    open spec fn view(&self) -> EventView {
        match self {
            Event::Connected => EventView::Connected,
            Event::Heard(heard) => EventView::Heard(heard@),
            Event::Recorded => EventView::Recorded,
            Event::Loaded(audio) => EventView::Loaded(audio@),
            Event::Answered(audio) => EventView::Answered(audio@),
            Event::Played => EventView::Played,
            Event::Saved => EventView::Saved,
            Event::Failed => EventView::Failed,
        }
    }
}

/// Why the assistant halted.
#[derive(Debug, PartialEq, Eq, Clone, Copy)]
pub enum Fault {
    /// A command failed.
    CommandFailed,
    /// An event arrived that the assistant was not waiting for.
    OutOfTurn,
}

/// What the caller is to do next.
#[derive(Debug, PartialEq, Eq)]
pub enum Command {
    /// Connect to the recogniser at this address.
    Connect(String),
    /// Read the next chunk of the transcript.
    Read,
    /// Run [`RECORDER`] with [`RECORDING_PATH`] and wait for it.
    Record,
    /// Load [`RECORDING_PATH`].
    Load,
    /// Ask the dialogue client about this audio.
    Ask(Vec<u8>),
    /// Run [`PLAYER`] with [`player_arguments`] and give it this audio.
    Play(Vec<u8>),
    /// Write this audio to [`LAST_RESPONSE_PATH`], replacing what was there.
    Save(Vec<u8>),
    /// Stop.
    Halt(Fault),
}

/// [`Command`] with its texts and bytes as sequences.
pub enum CommandView {
    Connect(Seq<char>),
    Read,
    Record,
    Load,
    Ask(Seq<u8>),
    Play(Seq<u8>),
    Save(Seq<u8>),
    Halt(Fault),
}

impl View for Command {
    type V = CommandView;

    open spec fn view(&self) -> CommandView {
        match self {
            Command::Connect(address) => CommandView::Connect(address@),
            Command::Read => CommandView::Read,
            Command::Record => CommandView::Record,
            Command::Load => CommandView::Load,
            Command::Ask(audio) => CommandView::Ask(audio@),
            Command::Play(audio) => CommandView::Play(audio@),
            Command::Save(audio) => CommandView::Save(audio@),
            Command::Halt(fault) => CommandView::Halt(*fault),
        }
    }
}

/// `host:port`.
pub open spec fn address(host: Seq<char>, port: u16) -> Seq<char> {
    host + ":"@ + decimal(port as nat)
}

/// The phase that follows and the command that is due when `event` arrives
/// in `phase`.
pub open spec fn step_spec(phase: PhaseView, event: EventView) -> (PhaseView, CommandView) {
    match (phase, event) {
        (PhaseView::Halted, _) => (PhaseView::Halted, CommandView::Halt(Fault::OutOfTurn)),
        (_, EventView::Failed) => (PhaseView::Halted, CommandView::Halt(Fault::CommandFailed)),
        (PhaseView::Connecting, EventView::Connected) => (PhaseView::Listening, CommandView::Read),
        (PhaseView::Listening, EventView::Heard(HeardView::Wake(_))) => (
            PhaseView::Recording,
            CommandView::Record,
        ),
        (PhaseView::Listening, EventView::Heard(_)) => (PhaseView::Listening, CommandView::Read),
        (PhaseView::Recording, EventView::Recorded) => (PhaseView::Loading, CommandView::Load),
        (PhaseView::Loading, EventView::Loaded(audio)) => (
            PhaseView::Asking,
            CommandView::Ask(audio),
        ),
        (PhaseView::Asking, EventView::Answered(audio)) => (
            PhaseView::Playing(audio),
            CommandView::Play(audio),
        ),
        (PhaseView::Playing(audio), EventView::Played) => (
            PhaseView::Saving,
            CommandView::Save(audio),
        ),
        (PhaseView::Saving, EventView::Saved) => (PhaseView::Listening, CommandView::Read),
        _ => (PhaseView::Halted, CommandView::Halt(Fault::OutOfTurn)),
    }
}

/// What a read of the transcript comes to. A read that brings no bytes means
/// that the recogniser has closed the stream, and that is a failure; any
/// other read brings a chunk, which is heard.
pub open spec fn read_event(chunk: Seq<u8>, pattern: Seq<char>, wake: Seq<char>) -> EventView {
    if chunk.len() == 0 {
        EventView::Failed
    } else {
        EventView::Heard(heard_in(chunk, pattern, wake))
    }
}

/// Turns what a read of the transcript brought into the event that the
/// assistant is told of.
///
/// The only error is the expression compiler refusing [`WORD_PATTERN`]; it
/// is looked at only for a chunk that holds bytes and decodes.
pub fn after_read(chunk: Vec<u8>, wake: &str) -> (event: Result<Event, PatternRefused>)
    ensures
        event is Err <==> chunk@.len() > 0 && valid_utf8(chunk@) && !pattern_compiles(
            WORD_PATTERN@,
        ),
        event matches Ok(e) ==> e@ == read_event(chunk@, WORD_PATTERN@, wake@),
        chunk@.len() == 0 ==> (event matches Ok(e) && e@ == EventView::Failed),
{
    if chunk.len() == 0 {
        Ok(Event::Failed)
    } else {
        match hear(chunk, wake) {
            Ok(heard) => Ok(Event::Heard(heard)),
            Err(refused) => Err(refused),
        }
    }
}

/// The arguments of the recorder: the file to write.
pub fn recorder_arguments() -> (arguments: Vec<&'static str>)
    ensures
        arguments@.len() == 1,
        arguments@[0]@ == RECORDING_PATH@,
{
    let mut arguments: Vec<&'static str> = Vec::new();
    arguments.push(RECORDING_PATH);
    arguments
}

/// The arguments of the player: the device, and `-` for the standard input.
pub fn player_arguments() -> (arguments: Vec<&'static str>)
    ensures
        arguments@.len() == 3,
        arguments@[0]@ == "-D"@,
        arguments@[1]@ == PLAYER_DEVICE@,
        arguments@[2]@ == "-"@,
{
    let mut arguments: Vec<&'static str> = Vec::new();
    arguments.push("-D");
    arguments.push(PLAYER_DEVICE);
    arguments.push("-");
    arguments
}

/// The assistant: its settings and its dialogue client.
pub struct Akane {
    config: AkaneConfig,
    kotonoha_client: KotonohaClientImpl,
}

impl Akane {
    /// The settings that the assistant was made with.
    pub closed spec fn settings(&self) -> AkaneConfig {
        self.config
    }

    /// Where the assistant's dialogue client sends its requests.
    pub closed spec fn backend(&self) -> Endpoint {
        self.kotonoha_client@
    }

    /// An assistant with these settings, whose dialogue client talks to the
    /// backend that the settings name.
    pub fn new(config: AkaneConfig) -> (akane: Self)
        ensures
            akane.settings() == config,
            akane.backend() == (Endpoint {
                host: config.kotonoha_host@,
                port: config.kotonoha_port,
            }),
    {
        let kotonoha = KotonohaClientImpl::new(config.kotonoha_host.clone(), config.kotonoha_port);
        Akane { config, kotonoha_client: kotonoha }
    }

    /// The assistant's dialogue client.
    pub fn kotonoha_client(&self) -> (client: &KotonohaClientImpl)
        ensures
            client@ == self.backend(),
    {
        &self.kotonoha_client
    }

    /// How the assistant begins: by connecting to the recogniser.
    pub fn start(&self) -> (begun: (Phase, Command))
        ensures
            begun.0@ == PhaseView::Connecting,
            begun.1@ == CommandView::Connect(
                address(self.settings().julius_host@, self.settings().julius_port),
            ),
    {
        let mut address = self.config.julius_host.clone();
        address.append(":");
        push_decimal(&mut address, self.config.julius_port);
        (Phase::Connecting, Command::Connect(address))
    }

    /// What the assistant does when `event` arrives in `phase`.
    pub fn step(&self, phase: Phase, event: Event) -> (next: (Phase, Command))
        ensures
            (next.0@, next.1@) == step_spec(phase@, event@),
    {
        match phase {
            Phase::Halted => (Phase::Halted, Command::Halt(Fault::OutOfTurn)),
            Phase::Connecting => match event {
                Event::Failed => (Phase::Halted, Command::Halt(Fault::CommandFailed)),
                Event::Connected => (Phase::Listening, Command::Read),
                _ => (Phase::Halted, Command::Halt(Fault::OutOfTurn)),
            },
            Phase::Listening => match event {
                Event::Failed => (Phase::Halted, Command::Halt(Fault::CommandFailed)),
                Event::Heard(Heard::Wake(_)) => (Phase::Recording, Command::Record),
                Event::Heard(_) => (Phase::Listening, Command::Read),
                _ => (Phase::Halted, Command::Halt(Fault::OutOfTurn)),
            },
            Phase::Recording => match event {
                Event::Failed => (Phase::Halted, Command::Halt(Fault::CommandFailed)),
                Event::Recorded => (Phase::Loading, Command::Load),
                _ => (Phase::Halted, Command::Halt(Fault::OutOfTurn)),
            },
            Phase::Loading => match event {
                Event::Failed => (Phase::Halted, Command::Halt(Fault::CommandFailed)),
                Event::Loaded(audio) => (Phase::Asking, Command::Ask(audio)),
                _ => (Phase::Halted, Command::Halt(Fault::OutOfTurn)),
            },
            Phase::Asking => match event {
                Event::Failed => (Phase::Halted, Command::Halt(Fault::CommandFailed)),
                Event::Answered(audio) => {
                    let kept = audio.clone();
                    assert(kept@ =~= audio@);
                    (Phase::Playing(kept), Command::Play(audio))
                },
                _ => (Phase::Halted, Command::Halt(Fault::OutOfTurn)),
            },
            Phase::Playing(audio) => match event {
                Event::Failed => (Phase::Halted, Command::Halt(Fault::CommandFailed)),
                Event::Played => (Phase::Saving, Command::Save(audio)),
                _ => (Phase::Halted, Command::Halt(Fault::OutOfTurn)),
            },
            Phase::Saving => match event {
                Event::Failed => (Phase::Halted, Command::Halt(Fault::CommandFailed)),
                Event::Saved => (Phase::Listening, Command::Read),
                _ => (Phase::Halted, Command::Halt(Fault::OutOfTurn)),
            },
        }
    }
}

/// A chunk in which no word is found, whether it is text or not, leaves the
/// assistant listening: it reads on and records nothing.
pub proof fn law_unmatched_chunk_keeps_listening(
    chunk: Seq<u8>,
    pattern: Seq<char>,
    wake: Seq<char>,
)
    requires
        chunk.len() > 0,
        !(valid_utf8(chunk) && first_capture(pattern, decode_utf8(chunk), WORD_GROUP as nat)
            is Some),
    ensures
        step_spec(PhaseView::Listening, read_event(chunk, pattern, wake)) == (
            PhaseView::Listening,
            CommandView::Read,
        ),
{
}

/// A chunk whose word is the wake phrase makes the assistant record, once:
/// the one command that follows is the recording, and while the recording is
/// awaited no event brings another.
pub proof fn law_wake_phrase_records_once(chunk: Seq<u8>, pattern: Seq<char>, wake: Seq<char>)
    requires
        chunk.len() > 0,
        valid_utf8(chunk),
        first_capture(pattern, decode_utf8(chunk), WORD_GROUP as nat) == Some(wake),
    ensures
        step_spec(PhaseView::Listening, read_event(chunk, pattern, wake)) == (
            PhaseView::Recording,
            CommandView::Record,
        ),
        forall|event: EventView| !(#[trigger] step_spec(PhaseView::Recording, event).1 is Record),
{
}

/// A chunk whose word is not the wake phrase leaves the assistant listening.
pub proof fn law_other_word_keeps_listening(
    chunk: Seq<u8>,
    pattern: Seq<char>,
    wake: Seq<char>,
    word: Seq<char>,
)
    requires
        chunk.len() > 0,
        valid_utf8(chunk),
        first_capture(pattern, decode_utf8(chunk), WORD_GROUP as nat) == Some(word),
        word != wake,
    ensures
        step_spec(PhaseView::Listening, read_event(chunk, pattern, wake)) == (
            PhaseView::Listening,
            CommandView::Read,
        ),
{
}

/// The assistant records only when it is listening and hears the wake
/// phrase.
pub proof fn law_records_only_on_wake(phase: PhaseView, event: EventView)
    requires
        step_spec(phase, event).1 is Record,
    ensures
        phase is Listening,
        event matches EventView::Heard(HeardView::Wake(_)),
{
}

/// A chunk that cannot be decoded does not stop the assistant: it reads on,
/// and what is read next is treated as any read is.
pub proof fn law_undecodable_chunk_is_skipped(
    chunk: Seq<u8>,
    next: Seq<u8>,
    pattern: Seq<char>,
    wake: Seq<char>,
)
    requires
        !valid_utf8(chunk),
    ensures
        step_spec(PhaseView::Listening, read_event(chunk, pattern, wake)) == (
            PhaseView::Listening,
            CommandView::Read,
        ),
        step_spec(
            step_spec(PhaseView::Listening, read_event(chunk, pattern, wake)).0,
            read_event(next, pattern, wake),
        ) == step_spec(PhaseView::Listening, read_event(next, pattern, wake)),
{
    assert(chunk.len() > 0) by {
        if chunk.len() == 0 {
            assert(chunk =~= Seq::<u8>::empty());
            assert(valid_utf8(Seq::<u8>::empty()));
        }
    }
}

/// A closed stream is fatal: when a read brings no bytes the assistant halts
/// and does not read again.
pub proof fn law_closed_stream_halts(pattern: Seq<char>, wake: Seq<char>, later: EventView)
    ensures
        step_spec(PhaseView::Listening, read_event(Seq::<u8>::empty(), pattern, wake)) == (
            PhaseView::Halted,
            CommandView::Halt(Fault::CommandFailed),
        ),
        !(step_spec(PhaseView::Halted, later).1 is Read),
{
}

/// A failure halts the assistant, whatever it was waiting for, and a halted
/// assistant stays halted: every later event is answered with a halt.
pub proof fn law_failure_halts(phase: PhaseView, later: EventView)
    ensures
        step_spec(phase, EventView::Failed).0 is Halted,
        step_spec(phase, EventView::Failed).1 is Halt,
        step_spec(PhaseView::Halted, later) == (
            PhaseView::Halted,
            CommandView::Halt(Fault::OutOfTurn),
        ),
{
}

/// Nothing is played but the audio that the dialogue client has just
/// answered with.
pub proof fn law_plays_only_the_answer(phase: PhaseView, event: EventView, audio: Seq<u8>)
    requires
        step_spec(phase, event).1 == CommandView::Play(audio),
    ensures
        phase is Asking,
        event == EventView::Answered(audio),
{
}

/// What is stored as the last response is what the dialogue client answered
/// with and what was played: an answer is played, then stored, then the
/// assistant listens again, and nothing else is ever stored.
pub proof fn law_last_response_is_the_answer(audio: Seq<u8>, phase: PhaseView, event: EventView)
    ensures
        step_spec(PhaseView::Asking, EventView::Answered(audio)) == (
            PhaseView::Playing(audio),
            CommandView::Play(audio),
        ),
        step_spec(PhaseView::Playing(audio), EventView::Played) == (
            PhaseView::Saving,
            CommandView::Save(audio),
        ),
        step_spec(PhaseView::Saving, EventView::Saved) == (PhaseView::Listening, CommandView::Read),
        step_spec(phase, event).1 == CommandView::Save(audio) ==> phase == PhaseView::Playing(audio)
            && event is Played,
        step_spec(phase, event).0 == PhaseView::Playing(audio) ==> phase is Asking && event
            == EventView::Answered(audio),
{
}

} // verus!
