use snippet::provider::ollama::{OllamaAssistantMessage, OllamaChatChunk};
use snippet::provider::stream::{ChatStream, StreamAction, StreamInput};
use snippet::provider::ProviderError;
use snippet::selection::starts_capture;

fn chunk(content: Option<&str>, done: bool) -> OllamaChatChunk {
    OllamaChatChunk {
        message: Some(OllamaAssistantMessage {
            content: content.map(str::to_owned),
        }),
        done,
        error: None,
    }
}

fn line(text: &str) -> StreamInput {
    StreamInput::Line(Some(text.to_owned()))
}

#[test]
fn hands_on_each_delta_and_finishes_after_the_last_chunk() {
    let mut stream = ChatStream::new();
    assert_eq!(stream.step(line("   ")), StreamAction::ReadLine);
    assert_eq!(stream.step(line("{first}")), StreamAction::Decode("{first}".into()));
    assert_eq!(
        stream.step(StreamInput::Decoded(chunk(Some("Hel"), false))),
        StreamAction::Deliver("Hel".into())
    );
    assert_eq!(stream.step(StreamInput::Delivered), StreamAction::ReadLine);
    assert_eq!(stream.step(line("{empty}")), StreamAction::Decode("{empty}".into()));
    assert_eq!(stream.step(StreamInput::Decoded(chunk(Some(""), false))), StreamAction::ReadLine);
    assert_eq!(stream.step(line("{last}")), StreamAction::Decode("{last}".into()));
    assert_eq!(
        stream.step(StreamInput::Decoded(chunk(Some("lo"), true))),
        StreamAction::Deliver("lo".into())
    );
    assert!(stream.accepts(&StreamInput::Delivered));
    assert!(!stream.accepts(&line("more")));
    assert_eq!(stream.step(StreamInput::Delivered), StreamAction::Finish(Ok(())));
    assert!(!stream.accepts(&line("more")));
}

#[test]
fn a_done_chunk_without_text_finishes_at_once() {
    let mut stream = ChatStream::new();
    stream.step(line("{}"));
    assert_eq!(stream.step(StreamInput::Decoded(chunk(None, true))), StreamAction::Finish(Ok(())));
}

#[test]
fn a_reply_that_ends_early_is_invalid() {
    let mut stream = ChatStream::new();
    assert_eq!(
        stream.step(StreamInput::Line(None)),
        StreamAction::Finish(Err(ProviderError::InvalidResponse(
            "Ollama ended the response before marking it complete.".into()
        )))
    );
}

#[test]
fn reports_stream_failures() {
    let mut stream = ChatStream::new();
    stream.step(line("{}"));
    let failing = OllamaChatChunk { message: None, done: false, error: Some("model missing".into()) };
    assert_eq!(
        stream.step(StreamInput::Decoded(failing)),
        StreamAction::Finish(Err(ProviderError::RequestFailed("model missing".into())))
    );

    let mut stream = ChatStream::new();
    stream.step(line("not json"));
    assert_eq!(
        stream.step(StreamInput::Undecodable("expected value".into())),
        StreamAction::Finish(Err(ProviderError::InvalidResponse("expected value".into())))
    );

    let mut stream = ChatStream::new();
    assert_eq!(
        stream.step(StreamInput::ReadFailed("reset".into())),
        StreamAction::Finish(Err(ProviderError::InvalidResponse("reset".into())))
    );
}

#[test]
fn cancellation_and_a_gone_receiver_cancel_the_stream() {
    let mut stream = ChatStream::new();
    assert_eq!(stream.step(StreamInput::Cancelled), StreamAction::Finish(Err(ProviderError::Cancelled)));

    let mut stream = ChatStream::new();
    stream.step(line("{}"));
    stream.step(StreamInput::Decoded(chunk(Some("x"), true)));
    assert_eq!(
        stream.step(StreamInput::ReceiverGone),
        StreamAction::Finish(Err(ProviderError::Cancelled))
    );
}

#[test]
fn only_the_release_of_the_trigger_starts_a_capture() {
    assert!(starts_capture(true, true, false));
    assert!(!starts_capture(true, false, false));
    assert!(!starts_capture(false, true, false));
    assert!(!starts_capture(true, true, true));
}
