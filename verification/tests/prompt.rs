use screen_context::evidence::{EvidenceItem, EvidenceMode};
use screen_context::prompt::{assemble, assemble_text, assemble_visual, data_url, ContentPart};

fn text_of(part: &ContentPart) -> &str {
    match part {
        ContentPart::Text(t) => t,
        ContentPart::ImageRef(_) => panic!("an image part"),
    }
}

fn url_of(part: &ContentPart) -> &str {
    match part {
        ContentPart::ImageRef(u) => u,
        ContentPart::Text(_) => panic!("a text part"),
    }
}

const PREAMBLE: &str = "These are OCR strings from the windows currently open on my computer: ";

#[test]
fn instruction_alone_gives_one_text_part() {
    let m = assemble_visual("hello", &Vec::new());
    assert_eq!(m.role, "user");
    assert_eq!(m.content.len(), 1);
    assert_eq!(text_of(&m.content[0]), "hello");
}

#[test]
fn visual_message_has_one_part_more_than_images() {
    let evidence = vec![
        EvidenceItem::Image("AAAA".to_string()),
        EvidenceItem::Image("BBBB".to_string()),
        EvidenceItem::Image("CCCC".to_string()),
    ];
    let m = assemble_visual("what is on screen?", &evidence);
    assert_eq!(m.role, "user");
    assert_eq!(m.content.len(), 4);
    assert_eq!(text_of(&m.content[0]), "what is on screen?");
    assert_eq!(url_of(&m.content[1]), "data:image/jpeg;base64,AAAA");
    assert_eq!(url_of(&m.content[2]), "data:image/jpeg;base64,BBBB");
    assert_eq!(url_of(&m.content[3]), "data:image/jpeg;base64,CCCC");
}

#[test]
fn visual_message_gives_text_items_no_part() {
    let evidence = vec![
        EvidenceItem::Image("AAAA".to_string()),
        EvidenceItem::Text("recognised".to_string()),
        EvidenceItem::Image("BBBB".to_string()),
    ];
    let m = assemble_visual("q", &evidence);
    assert_eq!(m.content.len(), 3);
    assert_eq!(text_of(&m.content[0]), "q");
    assert_eq!(url_of(&m.content[1]), "data:image/jpeg;base64,AAAA");
    assert_eq!(url_of(&m.content[2]), "data:image/jpeg;base64,BBBB");
}

#[test]
fn data_url_labels_the_payload_as_jpeg() {
    assert_eq!(data_url("aGVsbG8="), "data:image/jpeg;base64,aGVsbG8=");
    assert_eq!(data_url(""), "data:image/jpeg;base64,");
}

#[test]
fn text_message_joins_the_texts_with_single_spaces() {
    let evidence = vec![
        EvidenceItem::Text("first window".to_string()),
        EvidenceItem::Text("second".to_string()),
        EvidenceItem::Text("third window".to_string()),
    ];
    let m = assemble_text("summarise", &evidence);
    assert_eq!(m.role, "user");
    assert_eq!(m.content.len(), 1);
    assert_eq!(
        text_of(&m.content[0]),
        format!("{}first window second third window\nsummarise", PREAMBLE)
    );
}

#[test]
fn text_message_of_one_text_has_no_separator() {
    let evidence = vec![EvidenceItem::Text("only".to_string())];
    let m = assemble_text("q", &evidence);
    assert_eq!(text_of(&m.content[0]), format!("{}only\nq", PREAMBLE));
}

#[test]
fn text_message_without_evidence_keeps_the_preamble() {
    let m = assemble_text("hello", &Vec::new());
    assert_eq!(m.content.len(), 1);
    assert_eq!(text_of(&m.content[0]), format!("{}\nhello", PREAMBLE));
}

#[test]
fn text_message_passes_over_images() {
    let evidence = vec![
        EvidenceItem::Image("AAAA".to_string()),
        EvidenceItem::Text("a".to_string()),
        EvidenceItem::Image("BBBB".to_string()),
        EvidenceItem::Text("b".to_string()),
    ];
    let m = assemble_text("q", &evidence);
    assert_eq!(m.content.len(), 1);
    assert_eq!(text_of(&m.content[0]), format!("{}a b\nq", PREAMBLE));
}

#[test]
fn assemble_follows_the_mode() {
    let evidence = vec![
        EvidenceItem::Image("AAAA".to_string()),
        EvidenceItem::Text("seen".to_string()),
    ];
    let v = assemble("q", &evidence, EvidenceMode::Visual);
    assert_eq!(v.content.len(), 2);
    assert_eq!(url_of(&v.content[1]), "data:image/jpeg;base64,AAAA");
    let t = assemble("q", &evidence, EvidenceMode::Text);
    assert_eq!(t.content.len(), 1);
    assert_eq!(text_of(&t.content[0]), format!("{}seen\nq", PREAMBLE));
}
