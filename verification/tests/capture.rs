use screen_context::capture::{CaptureAction, CaptureError, CaptureEvent, CapturePass, Phase};
use screen_context::evidence::EvidenceItem;
use screen_context::listing::WindowRecord;

fn windows(ids: &[&str]) -> Vec<WindowRecord> {
    ids.iter().map(|id| WindowRecord { id: id.to_string() }).collect()
}

fn image(payload: &str) -> CaptureEvent {
    CaptureEvent::Extracted(EvidenceItem::Image(payload.to_string()))
}

fn payloads(evidence: &[EvidenceItem]) -> Vec<String> {
    evidence
        .iter()
        .map(|e| match e {
            EvidenceItem::Image(p) => p.clone(),
            EvidenceItem::Text(t) => t.clone(),
        })
        .collect()
}

#[test]
fn pass_over_no_window_is_finished_at_once() {
    let pass = CapturePass::new(Vec::new());
    assert_eq!(pass.next_action(), CaptureAction::Finish);
    assert!(pass.current_window().is_none());
    assert!(pass.into_evidence().is_empty());
}

#[test]
fn pass_walks_each_window_through_its_three_steps() {
    let mut pass = CapturePass::new(windows(&["0x1", "0x2"]));
    assert_eq!(pass.next_action(), CaptureAction::Dump(0));
    assert_eq!(pass.current_window().unwrap().id, "0x1");
    pass.handle(CaptureEvent::Dumped);
    assert_eq!(pass.next_action(), CaptureAction::Convert(0));
    pass.handle(CaptureEvent::Converted);
    assert_eq!(pass.next_action(), CaptureAction::Extract(0));
    pass.handle(image("AAAA"));
    assert_eq!(pass.next_action(), CaptureAction::Dump(1));
    assert_eq!(pass.current_window().unwrap().id, "0x2");
    pass.handle(CaptureEvent::Dumped);
    pass.handle(CaptureEvent::Converted);
    pass.handle(image("BBBB"));
    assert_eq!(pass.next_action(), CaptureAction::Finish);
    assert_eq!(pass.phase, Phase::Finished);
    assert_eq!(payloads(&pass.into_evidence()), vec!["AAAA", "BBBB"]);
}

#[test]
fn failed_dump_gives_the_pass_up() {
    let mut pass = CapturePass::new(windows(&["0x1", "0x2", "0x3"]));
    pass.handle(CaptureEvent::Dumped);
    pass.handle(CaptureEvent::Converted);
    pass.handle(image("AAAA"));
    pass.handle(CaptureEvent::DumpFailed);
    assert_eq!(pass.next_action(), CaptureAction::Abort(CaptureError::DumpFailed));
    assert_eq!(pass.position, 1);
    assert!(pass.current_window().is_none());
    pass.handle(CaptureEvent::Dumped);
    pass.handle(image("CCCC"));
    assert_eq!(pass.next_action(), CaptureAction::Abort(CaptureError::DumpFailed));
    assert_eq!(pass.position, 1);
    assert_eq!(payloads(&pass.evidence), vec!["AAAA"]);
}

#[test]
fn failed_conversion_leaves_only_that_window_out() {
    let mut pass = CapturePass::new(windows(&["0x1", "0x2", "0x3"]));
    pass.handle(CaptureEvent::Dumped);
    pass.handle(CaptureEvent::Converted);
    pass.handle(image("first"));
    pass.handle(CaptureEvent::Dumped);
    pass.handle(CaptureEvent::ConversionFailed);
    assert_eq!(pass.next_action(), CaptureAction::Dump(2));
    pass.handle(CaptureEvent::Dumped);
    pass.handle(CaptureEvent::Converted);
    pass.handle(image("third"));
    assert_eq!(pass.next_action(), CaptureAction::Finish);
    let evidence = pass.into_evidence();
    assert_eq!(evidence.len(), 2);
    assert_eq!(payloads(&evidence), vec!["first", "third"]);
}

#[test]
fn rejected_text_leaves_the_window_out() {
    let mut pass = CapturePass::new(windows(&["0x1", "0x2"]));
    pass.handle(CaptureEvent::dump_ended(true));
    pass.handle(CaptureEvent::conversion_ended(true));
    pass.handle(CaptureEvent::text_recognised("too short".to_string()));
    assert_eq!(pass.next_action(), CaptureAction::Dump(1));
    pass.handle(CaptureEvent::dump_ended(true));
    pass.handle(CaptureEvent::conversion_ended(true));
    pass.handle(CaptureEvent::text_recognised("this text is long enough to keep".to_string()));
    assert_eq!(pass.next_action(), CaptureAction::Finish);
    assert_eq!(payloads(&pass.into_evidence()), vec!["this text is long enough to keep"]);
}

#[test]
fn unreadable_image_gives_the_pass_up() {
    let mut pass = CapturePass::new(windows(&["0x1", "0x2"]));
    pass.handle(CaptureEvent::dump_ended(true));
    pass.handle(CaptureEvent::conversion_ended(true));
    pass.handle(CaptureEvent::image_read(None));
    assert_eq!(pass.next_action(), CaptureAction::Abort(CaptureError::ImageUnreadable));
    assert!(pass.into_evidence().is_empty());
}

#[test]
fn image_that_was_read_becomes_encoded_evidence() {
    let mut pass = CapturePass::new(windows(&["0x1"]));
    pass.handle(CaptureEvent::dump_ended(true));
    pass.handle(CaptureEvent::conversion_ended(true));
    pass.handle(CaptureEvent::image_read(Some(b"hello".to_vec())));
    assert_eq!(pass.next_action(), CaptureAction::Finish);
    assert_eq!(payloads(&pass.into_evidence()), vec!["aGVsbG8="]);
}

#[test]
fn events_of_failed_steps() {
    assert!(matches!(CaptureEvent::dump_ended(false), CaptureEvent::DumpFailed));
    assert!(matches!(CaptureEvent::dump_ended(true), CaptureEvent::Dumped));
    assert!(matches!(CaptureEvent::conversion_ended(false), CaptureEvent::ConversionFailed));
    assert!(matches!(CaptureEvent::conversion_ended(true), CaptureEvent::Converted));
}

#[test]
fn event_out_of_turn_gives_the_pass_up() {
    let mut pass = CapturePass::new(windows(&["0x1"]));
    pass.handle(CaptureEvent::Converted);
    assert_eq!(pass.next_action(), CaptureAction::Abort(CaptureError::OutOfTurn));
    let mut pass = CapturePass::new(windows(&["0x1"]));
    pass.handle(CaptureEvent::Dumped);
    pass.handle(image("AAAA"));
    assert_eq!(pass.phase, Phase::Aborted(CaptureError::OutOfTurn));
    assert!(pass.evidence.is_empty());
}

#[test]
fn finished_pass_takes_no_further_step() {
    let mut pass = CapturePass::new(windows(&["0x1"]));
    pass.handle(CaptureEvent::Dumped);
    pass.handle(CaptureEvent::ConversionFailed);
    assert_eq!(pass.phase, Phase::Finished);
    pass.handle(CaptureEvent::DumpFailed);
    pass.handle(image("AAAA"));
    assert_eq!(pass.phase, Phase::Finished);
    assert_eq!(pass.position, 1);
    assert!(pass.evidence.is_empty());
}
