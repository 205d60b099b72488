use akane::kotonoha_client::{
    AskError, AudioQueryInput, KotonohaClient, KotonohaClientImpl, Progress, Reply, Request,
    Stage, SynthesisInput, SynthesisQuery, ThinkInput, ThinkOutput, TranscribeOutput,
    JSON_CONTENT_TYPE, SPEAKER, SYNTHESIS_PORT,
};

fn client() -> KotonohaClientImpl {
    KotonohaClientImpl::new("kotonoha.local".to_string(), 8000)
}

#[test]
fn fixed_values_of_the_synthesiser() {
    assert_eq!(SYNTHESIS_PORT, 50021);
    assert_eq!(SPEAKER, "3");
    assert_eq!(JSON_CONTENT_TYPE, "application/json");
}

#[test]
fn transcribe_request_carries_the_audio() {
    assert_eq!(
        client().transcribe(vec![1, 2, 3]),
        Request::Transcribe {
            url: "http://kotonoha.local:8000/transcribe".to_string(),
            audio: vec![1, 2, 3],
        }
    );
}

#[test]
fn think_request_carries_the_text() {
    assert_eq!(
        client().think("hello".to_string()),
        Request::Think {
            url: "http://kotonoha.local:8000/talk".to_string(),
            input: ThinkInput { text: "hello".to_string() },
        }
    );
}

#[test]
fn audio_query_goes_to_the_synthesiser_port() {
    assert_eq!(
        client().audio_query("hi there".to_string()),
        Request::AudioQuery {
            url: "http://kotonoha.local:50021/audio_query".to_string(),
            query: AudioQueryInput { text: "hi there".to_string(), speaker: "3".to_string() },
        }
    );
}

#[test]
fn synthesis_overrides_the_speed() {
    assert_eq!(
        client().synthesize("{\"speedScale\":1.0,\"pitchScale\":0.0}"),
        Ok(Request::Synthesis {
            url: "http://kotonoha.local:50021/synthesis".to_string(),
            voice: SynthesisQuery { speaker: "3".to_string() },
            body: "{\"pitchScale\":0.0,\"speedScale\":\"1.3\"}".to_string(),
        })
    );
}

#[test]
fn synthesis_of_a_malformed_query_fails() {
    assert_eq!(client().synthesize("[]"), Err(AskError::MalformedAudioQuery));
    assert_eq!(client().synthesize("not json"), Err(AskError::MalformedAudioQuery));
}

#[test]
fn urls_for_other_hosts_and_ports() {
    let local = KotonohaClientImpl::new("127.0.0.1".to_string(), 0);
    assert_eq!(
        local.transcribe(Vec::new()),
        Request::Transcribe { url: "http://127.0.0.1:0/transcribe".to_string(), audio: Vec::new() }
    );
    let far = KotonohaClientImpl::new(String::new(), 65535);
    assert_eq!(
        far.think(String::new()),
        Request::Think { url: "http://:65535/talk".to_string(), input: ThinkInput { text: String::new() } }
    );
}

#[test]
fn ask_calls_transcribe_then_think_then_synthesize() {
    let client = client();
    let first = client.ask(vec![0x01, 0x02]);
    assert_eq!(first, Progress::Send(Stage::Transcribing, client.transcribe(vec![0x01, 0x02])));

    let second =
        client.resume(Stage::Transcribing, Reply::Transcribed(TranscribeOutput { text: "hello".to_string() }));
    assert_eq!(
        second,
        Progress::Send(
            Stage::Thinking,
            Request::Think {
                url: "http://kotonoha.local:8000/talk".to_string(),
                input: ThinkInput { text: "hello".to_string() },
            }
        )
    );

    let third = client.resume(Stage::Thinking, Reply::Thought(ThinkOutput { output: "hi there".to_string() }));
    assert_eq!(
        third,
        Progress::Send(
            Stage::Querying,
            Request::AudioQuery {
                url: "http://kotonoha.local:50021/audio_query".to_string(),
                query: AudioQueryInput { text: "hi there".to_string(), speaker: "3".to_string() },
            }
        )
    );

    let fourth =
        client.resume(Stage::Querying, Reply::AudioQueried("{\"speedScale\":1.0,\"kana\":\"x\"}".to_string()));
    assert_eq!(
        fourth,
        Progress::Send(
            Stage::Synthesizing,
            Request::Synthesis {
                url: "http://kotonoha.local:50021/synthesis".to_string(),
                voice: SynthesisQuery { speaker: "3".to_string() },
                body: "{\"kana\":\"x\",\"speedScale\":\"1.3\"}".to_string(),
            }
        )
    );

    let last = client.resume(Stage::Synthesizing, Reply::Synthesized(vec![9, 8, 7]));
    assert_eq!(last, Progress::Done(vec![9, 8, 7]));
}

#[test]
fn a_failure_ends_the_exchange_at_every_stage() {
    let client = client();
    for stage in [Stage::Transcribing, Stage::Thinking, Stage::Querying, Stage::Synthesizing] {
        assert_eq!(client.resume(stage, Reply::Failed), Progress::Failed(AskError::Failed(stage)));
    }
}

#[test]
fn a_malformed_audio_query_ends_the_exchange() {
    assert_eq!(
        client().resume(Stage::Querying, Reply::AudioQueried("null".to_string())),
        Progress::Failed(AskError::MalformedAudioQuery)
    );
}

#[test]
fn a_reply_out_of_turn_ends_the_exchange() {
    let client = client();
    assert_eq!(
        client.resume(Stage::Transcribing, Reply::Synthesized(vec![1])),
        Progress::Failed(AskError::Unexpected(Stage::Transcribing))
    );
    assert_eq!(
        client.resume(Stage::Thinking, Reply::Transcribed(TranscribeOutput { text: "t".to_string() })),
        Progress::Failed(AskError::Unexpected(Stage::Thinking))
    );
    assert_eq!(
        client.resume(Stage::Querying, Reply::Thought(ThinkOutput { output: "o".to_string() })),
        Progress::Failed(AskError::Unexpected(Stage::Querying))
    );
    assert_eq!(
        client.resume(Stage::Synthesizing, Reply::AudioQueried("{}".to_string())),
        Progress::Failed(AskError::Unexpected(Stage::Synthesizing))
    );
}

#[test]
fn empty_audio_and_empty_texts_pass_through() {
    let client = client();
    assert_eq!(
        client.ask(Vec::new()),
        Progress::Send(
            Stage::Transcribing,
            Request::Transcribe { url: "http://kotonoha.local:8000/transcribe".to_string(), audio: Vec::new() }
        )
    );
    assert_eq!(client.resume(Stage::Synthesizing, Reply::Synthesized(Vec::new())), Progress::Done(Vec::new()));
}

struct Echo;

impl KotonohaClient for Echo {
    fn ask(&self, wav: Vec<u8>) -> Progress {
        Progress::Done(wav)
    }

    fn resume(&self, stage: Stage, _reply: Reply) -> Progress {
        Progress::Failed(AskError::Unexpected(stage))
    }
}

fn answer_of(client: &dyn KotonohaClient, wav: Vec<u8>) -> Progress {
    client.ask(wav)
}

#[test]
fn a_client_can_be_substituted() {
    assert_eq!(answer_of(&Echo, vec![4, 5]), Progress::Done(vec![4, 5]));
    assert_eq!(
        Echo.resume(Stage::Thinking, Reply::Failed),
        Progress::Failed(AskError::Unexpected(Stage::Thinking))
    );
    assert!(matches!(answer_of(&client(), vec![4, 5]), Progress::Send(Stage::Transcribing, _)));
}

#[test]
fn synthesis_input_holds_a_text() {
    let input = SynthesisInput { text: "hi".to_string() };
    assert_eq!(input.text, "hi");
    assert_eq!(input, SynthesisInput { text: "hi".to_string() });
}
