//! Assembling the chat message: the user's instruction and the evidence.

use vstd::prelude::*;
use crate::evidence::{evidence_models, EvidenceItem, EvidenceMode, EvidenceModel};

verus! {

/// One typed fragment of a message's content.
#[derive(Debug)]
pub enum ContentPart {
    /// Plain text.
    Text(String),
    /// A reference to an image, by URL.
    ImageRef(String),
}

/// A content part as a plain value.
pub enum PartModel {
    Text(Seq<char>),
    ImageRef(Seq<char>),
}

impl View for ContentPart {
    type V = PartModel;

    open spec fn view(&self) -> PartModel {
        match self {
            ContentPart::Text(t) => PartModel::Text(t@),
            ContentPart::ImageRef(u) => PartModel::ImageRef(u@),
        }
    }
}

/// A chat message: who speaks, and the parts of what is said, in order.
#[derive(Debug)]
pub struct ChatMessage {
    pub role: String,
    pub content: Vec<ContentPart>,
}

/// A chat message as a plain value.
pub struct MessageModel {
    pub role: Seq<char>,
    pub content: Seq<PartModel>,
}

impl View for ChatMessage {
    type V = MessageModel;

    open spec fn view(&self) -> MessageModel {
        MessageModel {
            role: self.role@,
            content: self.content@.map_values(|p: ContentPart| p@),
        }
    }
}

/// The role of every message that is assembled here.
pub open spec fn user_role() -> Seq<char> {
    "user"@
}

/// The data URL that embeds an encoded image. The media type is the one
/// that the endpoint is sent for every image, whatever the file holds.
pub open spec fn data_url_text(payload: Seq<char>) -> Seq<char> {
    "data:image/jpeg;base64,"@ + payload
}

/// The image parts of the visual message: one for each image among
/// `evidence`, in the same order. Text items give no part.
pub open spec fn image_parts(evidence: Seq<EvidenceModel>) -> Seq<PartModel>
    decreases evidence.len(),
{
    if evidence.len() == 0 {
        Seq::empty()
    } else {
        let before = image_parts(evidence.drop_last());
        match evidence.last() {
            EvidenceModel::Image(payload) => before.push(PartModel::ImageRef(data_url_text(payload))),
            EvidenceModel::Text(_) => before,
        }
    }
}

/// The message of the visual policy: the instruction as the only text
/// part, then the image parts.
pub open spec fn visual_message(instruction: Seq<char>, evidence: Seq<EvidenceModel>)
    -> MessageModel {
    MessageModel {
        role: user_role(),
        content: seq![PartModel::Text(instruction)] + image_parts(evidence),
    }
}

/// The recognised texts among `evidence`, in the same order. Images give
/// none.
pub open spec fn recognised_texts(evidence: Seq<EvidenceModel>) -> Seq<Seq<char>>
    decreases evidence.len(),
{
    if evidence.len() == 0 {
        Seq::empty()
    } else {
        let before = recognised_texts(evidence.drop_last());
        match evidence.last() {
            EvidenceModel::Text(t) => before.push(t),
            EvidenceModel::Image(_) => before,
        }
    }
}

/// `texts` joined by single spaces.
pub open spec fn joined(texts: Seq<Seq<char>>) -> Seq<char>
    decreases texts.len(),
{
    if texts.len() == 0 {
        Seq::empty()
    } else if texts.len() == 1 {
        texts[0]
    } else {
        joined(texts.drop_last()) + " "@ + texts.last()
    }
}

/// The sentence that introduces the recognised texts.
pub open spec fn preamble() -> Seq<char> {
    "These are OCR strings from the windows currently open on my computer: "@
}

/// The text of the text policy: the preamble, the recognised texts joined
/// by spaces, a line feed, and the instruction. The preamble stands even
/// where no text was recognised.
pub open spec fn prefaced_instruction(instruction: Seq<char>, evidence: Seq<EvidenceModel>) -> Seq<
    char,
> {
    preamble() + joined(recognised_texts(evidence)) + "\n"@ + instruction
}

/// The message of the text policy: one text part and nothing else.
pub open spec fn text_message(instruction: Seq<char>, evidence: Seq<EvidenceModel>)
    -> MessageModel {
    MessageModel {
        role: user_role(),
        content: seq![PartModel::Text(prefaced_instruction(instruction, evidence))],
    }
}

/// The message that `mode` asks for.
pub open spec fn assembled(instruction: Seq<char>, evidence: Seq<EvidenceModel>, mode: EvidenceMode)
    -> MessageModel {
    match mode {
        EvidenceMode::Visual => visual_message(instruction, evidence),
        EvidenceMode::Text => text_message(instruction, evidence),
    }
}

/// Embeds an encoded image in a data URL.
pub fn data_url(payload: &str) -> (url: String)
    ensures
        url@ == data_url_text(payload@),
{
    let mut url = String::from_str("data:image/jpeg;base64,");
    url.append(payload);
    url
}

/// Assembles the message of the visual policy: the instruction first, then
/// one image part for each image among the evidence, in order.
pub fn assemble_visual(instruction: &str, evidence: &Vec<EvidenceItem>) -> (message: ChatMessage)
    ensures
        message@ == visual_message(instruction@, evidence_models(evidence@)),
{
    let ghost models = evidence_models(evidence@);
    let mut content: Vec<ContentPart> = Vec::new();
    content.push(ContentPart::Text(String::from_str(instruction)));
    assert(content@.map_values(|p: ContentPart| p@) =~= seq![PartModel::Text(instruction@)]
        + image_parts(models.take(0)));
    let mut i: usize = 0;
    while i < evidence.len()
        invariant
            i <= evidence.len(),
            models == evidence_models(evidence@),
            content@.map_values(|p: ContentPart| p@) == seq![PartModel::Text(instruction@)]
                + image_parts(models.take(i as int)),
        decreases evidence.len() - i,
    {
        let ghost parts = content@.map_values(|p: ContentPart| p@);
        proof {
            assert(models.take(i + 1).drop_last() =~= models.take(i as int));
            assert(models.take(i + 1).last() == evidence@[i as int]@);
        }
        match &evidence[i] {
            EvidenceItem::Image(payload) => {
                let url = data_url(payload.as_str());
                content.push(ContentPart::ImageRef(url));
                assert(content@.map_values(|p: ContentPart| p@) =~= parts.push(
                    PartModel::ImageRef(data_url_text(payload@)),
                ));
                assert(parts.push(PartModel::ImageRef(data_url_text(payload@))) =~= seq![
                    PartModel::Text(instruction@),
                ] + image_parts(models.take(i + 1)));
            },
            EvidenceItem::Text(_) => {},
        }
        i = i + 1;
    }
    assert(models.take(evidence.len() as int) =~= models);
    ChatMessage { role: String::from_str("user"), content }
}

/// Assembles the message of the text policy: a single text part that holds
/// the preamble, the recognised texts in order, and the instruction.
pub fn assemble_text(instruction: &str, evidence: &Vec<EvidenceItem>) -> (message: ChatMessage)
    ensures
        message@ == text_message(instruction@, evidence_models(evidence@)),
{
    let ghost models = evidence_models(evidence@);
    let mut text = String::from_str(
        "These are OCR strings from the windows currently open on my computer: ",
    );
    let mut none_yet: bool = true;
    let mut i: usize = 0;
    assert(text@ =~= preamble() + joined(recognised_texts(models.take(0))));
    while i < evidence.len()
        invariant
            i <= evidence.len(),
            models == evidence_models(evidence@),
            none_yet == (recognised_texts(models.take(i as int)).len() == 0),
            text@ == preamble() + joined(recognised_texts(models.take(i as int))),
        decreases evidence.len() - i,
    {
        let ghost texts = recognised_texts(models.take(i as int));
        proof {
            assert(models.take(i + 1).drop_last() =~= models.take(i as int));
            assert(models.take(i + 1).last() == evidence@[i as int]@);
        }
        match &evidence[i] {
            EvidenceItem::Text(t) => {
                proof {
                    assert(texts.push(t@).drop_last() =~= texts);
                    assert(texts.push(t@).last() == t@);
                }
                if !none_yet {
                    text.append(" ");
                    text.append(t.as_str());
                    assert(text@ =~= preamble() + joined(texts.push(t@)));
                } else {
                    text.append(t.as_str());
                    assert(texts =~= Seq::<Seq<char>>::empty());
                    assert(text@ =~= preamble() + joined(texts.push(t@)));
                }
                none_yet = false;
            },
            EvidenceItem::Image(_) => {},
        }
        i = i + 1;
    }
    assert(models.take(evidence.len() as int) =~= models);
    text.append("\n");
    text.append(instruction);
    let mut content: Vec<ContentPart> = Vec::new();
    content.push(ContentPart::Text(text));
    assert(content@.map_values(|p: ContentPart| p@) =~= seq![
        PartModel::Text(prefaced_instruction(instruction@, models)),
    ]);
    ChatMessage { role: String::from_str("user"), content }
}

/// Assembles the message that `mode` asks for.
pub fn assemble(instruction: &str, evidence: &Vec<EvidenceItem>, mode: EvidenceMode) -> (message:
    ChatMessage)
    ensures
        message@ == assembled(instruction@, evidence_models(evidence@), mode),
{
    match mode {
        EvidenceMode::Visual => assemble_visual(instruction, evidence),
        EvidenceMode::Text => assemble_text(instruction, evidence),
    }
}

/// Whether every item of `evidence` is an image.
pub open spec fn all_images(evidence: Seq<EvidenceModel>) -> bool {
    forall|i: int| 0 <= i < evidence.len() ==> (#[trigger] evidence[i]) is Image
}

/// The payload of an image item.
pub open spec fn payload_of(item: EvidenceModel) -> Seq<char> {
    match item {
        EvidenceModel::Image(p) => p,
        EvidenceModel::Text(t) => t,
    }
}

/// Images give one part each, in their order.
pub proof fn lemma_image_parts_of_images(evidence: Seq<EvidenceModel>)
    requires
        all_images(evidence),
    ensures
        image_parts(evidence).len() == evidence.len(),
        forall|i: int|
            0 <= i < evidence.len() ==> #[trigger] image_parts(evidence)[i] == PartModel::ImageRef(
                data_url_text(payload_of(evidence[i])),
            ),
    decreases evidence.len(),
{
    if evidence.len() > 0 {
        let front = evidence.drop_last();
        assert forall|i: int| 0 <= i < front.len() implies (#[trigger] front[i]) is Image by {
            assert(front[i] == evidence[i]);
        }
        lemma_image_parts_of_images(front);
        assert(evidence.last() == evidence[evidence.len() - 1]);
    }
}

/// No policy gives more image parts than there is evidence.
pub proof fn lemma_image_parts_bounded(evidence: Seq<EvidenceModel>)
    ensures
        image_parts(evidence).len() <= evidence.len(),
    decreases evidence.len(),
{
    if evidence.len() > 0 {
        lemma_image_parts_bounded(evidence.drop_last());
    }
}

/// The visual message of an instruction and `n` images has `n + 1` parts:
/// the instruction first, then the images as data URLs in their order.
pub proof fn lemma_visual_message_parts(instruction: Seq<char>, evidence: Seq<EvidenceModel>)
    requires
        all_images(evidence),
    ensures
        visual_message(instruction, evidence).content.len() == evidence.len() + 1,
        visual_message(instruction, evidence).content[0] == PartModel::Text(instruction),
        forall|i: int|
            0 <= i < evidence.len() ==> #[trigger] visual_message(instruction, evidence).content[i
                + 1] == PartModel::ImageRef(data_url_text(payload_of(evidence[i]))),
{
    lemma_image_parts_of_images(evidence);
}

/// Whatever the evidence, the visual message starts with the instruction,
/// and holds no other text part and no more parts than one for each item.
pub proof fn lemma_visual_message_starts_with_instruction(
    instruction: Seq<char>,
    evidence: Seq<EvidenceModel>,
)
    ensures
        1 <= visual_message(instruction, evidence).content.len() <= evidence.len() + 1,
        visual_message(instruction, evidence).content[0] == PartModel::Text(instruction),
{
    lemma_image_parts_bounded(evidence);
}

/// With no evidence the visual message is the instruction alone, and the
/// text message is the preamble, a line feed and the instruction.
pub proof fn lemma_messages_without_evidence(instruction: Seq<char>)
    ensures
        visual_message(instruction, Seq::empty()).content == seq![PartModel::Text(instruction)],
        text_message(instruction, Seq::empty()).content == seq![
            PartModel::Text(preamble() + "\n"@ + instruction),
        ],
{
    let none = Seq::<EvidenceModel>::empty();
    assert(visual_message(instruction, none).content =~= seq![PartModel::Text(instruction)]);
    assert(preamble() + joined(recognised_texts(none)) =~= preamble());
}

} // verus!
