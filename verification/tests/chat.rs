use screen_context::capture::{CaptureAction, CaptureEvent, CapturePass};
use screen_context::chat::{
    answer_of, authorization, build_request, default_model, default_request, endpoint,
    interpret_reply, ApiError, ChatResponse, Choice, ReplyMessage, DEFAULT_TEMPERATURE_PERMILLE,
};
use screen_context::command::{parse_command, unknown_command_notice, Command};
use screen_context::evidence::EvidenceMode;
use screen_context::listing::parse_listing;
use screen_context::prompt::{assemble, assemble_visual, ContentPart};

fn choice(content: &str) -> Choice {
    Choice { message: ReplyMessage { role: "assistant".to_string(), content: content.to_string() } }
}

#[test]
fn plain_question_is_sent_alone_with_the_defaults() {
    assert_eq!(parse_command("gpt"), Command::Gpt);
    assert!(!Command::Gpt.captures_windows());
    let request = default_request(assemble_visual("hello", &Vec::new()));
    assert_eq!(request.model, "gpt-4-vision-preview");
    assert_eq!(request.temperature_permille, 700);
    assert_eq!(request.messages.len(), 1);
    assert_eq!(request.messages[0].role, "user");
    assert_eq!(request.messages[0].content.len(), 1);
    match &request.messages[0].content[0] {
        ContentPart::Text(t) => assert_eq!(t, "hello"),
        ContentPart::ImageRef(_) => panic!("an image part"),
    }
}

#[test]
fn windows_command_without_windows_sends_the_instruction_only() {
    assert_eq!(parse_command("win"), Command::Win);
    assert!(Command::Win.captures_windows());
    let pass = CapturePass::new(parse_listing(""));
    assert_eq!(pass.next_action(), CaptureAction::Finish);
    let evidence = pass.into_evidence();
    assert!(evidence.is_empty());
    let m = assemble("what now?", &evidence, EvidenceMode::Visual);
    assert_eq!(m.content.len(), 1);
    match &m.content[0] {
        ContentPart::Text(t) => assert_eq!(t, "what now?"),
        ContentPart::ImageRef(_) => panic!("an image part"),
    }
}

#[test]
fn listing_to_request_keeps_the_order_of_the_windows() {
    let listing = "0x1 0 1 a.A one\nbad\n0x2 0 2 b.B two\n0x3 0 3 c.C three\n";
    let mut pass = CapturePass::new(parse_listing(listing));
    let mut dumped: Vec<String> = Vec::new();
    loop {
        match pass.next_action() {
            CaptureAction::Dump(i) => {
                dumped.push(pass.windows[i].id.clone());
                pass.handle(CaptureEvent::dump_ended(true));
            }
            CaptureAction::Convert(i) => pass.handle(CaptureEvent::conversion_ended(i != 1)),
            CaptureAction::Extract(i) => {
                let bytes = pass.windows[i].id.clone().into_bytes();
                pass.handle(CaptureEvent::image_read(Some(bytes)));
            }
            CaptureAction::Finish => break,
            CaptureAction::Abort(e) => panic!("given up: {:?}", e),
        }
    }
    assert_eq!(dumped, vec!["0x1", "0x2", "0x3"]);
    let request = default_request(assemble("q", &pass.into_evidence(), EvidenceMode::Visual));
    let parts = &request.messages[0].content;
    assert_eq!(parts.len(), 3);
    match (&parts[1], &parts[2]) {
        (ContentPart::ImageRef(a), ContentPart::ImageRef(b)) => {
            assert_eq!(a, "data:image/jpeg;base64,MHgx");
            assert_eq!(b, "data:image/jpeg;base64,MHgz");
        }
        _ => panic!("two image parts expected"),
    }
}

#[test]
fn request_holds_what_it_was_built_from() {
    let request = build_request(assemble_visual("q", &Vec::new()), "some-model".to_string(), 250);
    assert_eq!(request.model, "some-model");
    assert_eq!(request.temperature_permille, 250);
    assert_eq!(request.messages.len(), 1);
    assert_eq!(DEFAULT_TEMPERATURE_PERMILLE, 700);
    assert_eq!(default_model(), "gpt-4-vision-preview");
}

#[test]
fn endpoint_and_authorization() {
    assert_eq!(endpoint(), "https://api.openai.com/v1/chat/completions");
    assert_eq!(authorization("SECRET-REDACTED"), "Bearer SECRET-REDACTED");
}

#[test]
fn answer_is_the_content_of_the_first_choice() {
    let response = ChatResponse { choices: vec![choice("first"), choice("second")] };
    assert_eq!(answer_of(&response).unwrap(), "first");
    assert_eq!(interpret_reply("{...}", Some(response)).unwrap(), "first");
}

#[test]
fn reply_without_a_choice_is_an_error() {
    let response = ChatResponse { choices: Vec::new() };
    match interpret_reply("{\"choices\":[]}", Some(response)) {
        Err(ApiError::NoChoice) => {}
        other => panic!("unexpected: {:?}", other),
    }
    assert_eq!(ApiError::NoChoice.message(), "the reply holds no choice");
}

#[test]
fn malformed_reply_is_quoted_in_the_error() {
    let body = "<html>502 Bad Gateway</html>";
    assert!(serde_json::from_str::<serde_json::Value>(body).is_err());
    match interpret_reply(body, None) {
        Err(e) => {
            assert!(matches!(&e, ApiError::Malformed(b) if b == body));
            assert!(e.message().contains(body));
            assert_eq!(
                e.message(),
                "the reply is not a chat response: <html>502 Bad Gateway</html>"
            );
        }
        Ok(answer) => panic!("unexpected answer: {}", answer),
    }
}

#[test]
fn unknown_command_sends_nothing() {
    assert_eq!(parse_command("help"), Command::Unknown);
    assert_eq!(parse_command(""), Command::Unknown);
    assert_eq!(parse_command("GPT"), Command::Unknown);
    assert_eq!(parse_command("gpt "), Command::Unknown);
    assert!(!Command::Unknown.sends_request());
    assert!(!Command::Unknown.captures_windows());
    assert!(Command::Gpt.sends_request());
    assert!(Command::Win.sends_request());
    assert_eq!(unknown_command_notice(), "unknown command");
}
