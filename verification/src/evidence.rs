//! Evidence: what one captured window contributes to the prompt.

use vstd::prelude::*;
use crate::encoding::{base64_bytes, base64_decode, base64_encode, base64_text};

verus! {

/// Recognised text of at most this many characters is taken for noise.
pub const NOISE_LIMIT: usize = 20;

/// The two forms of evidence that a pipeline can gather.
#[derive(Clone, Copy, Debug, PartialEq, Eq, Structural)]
pub enum EvidenceMode {
    /// Each window is sent as an encoded image.
    Visual,
    /// Each window is sent as the text recognised in its image.
    Text,
}

/// One unit of captured-window information.
#[derive(Debug)]
pub enum EvidenceItem {
    /// Text recognised in the window's image.
    Text(String),
    /// The window's image file, in base64.
    Image(String),
}

/// An evidence item as a plain value.
pub enum EvidenceModel {
    Text(Seq<char>),
    Image(Seq<char>),
}

impl View for EvidenceItem {
    type V = EvidenceModel;

    open spec fn view(&self) -> EvidenceModel {
        match self {
            EvidenceItem::Text(t) => EvidenceModel::Text(t@),
            EvidenceItem::Image(p) => EvidenceModel::Image(p@),
        }
    }
}

/// The items of `evidence` as plain values, in order.
pub open spec fn evidence_models(evidence: Seq<EvidenceItem>) -> Seq<EvidenceModel> {
    evidence.map_values(|e: EvidenceItem| e@)
}

/// What is kept of recognised text: nothing where it is noise, else the text
/// as it is.
pub open spec fn retained_text(text: Seq<char>) -> Option<EvidenceModel> {
    if text.len() <= NOISE_LIMIT as nat {
        None
    } else {
        Some(EvidenceModel::Text(text))
    }
}

/// Filters recognised text. Text of at most twenty characters is dropped;
/// longer text is kept verbatim.
pub fn retain_ocr_text(text: String) -> (r: Option<EvidenceItem>)
    ensures
        r.is_some() <==> text@.len() > NOISE_LIMIT as nat,
        match r {
            Some(item) => retained_text(text@) == Some(item@),
            None => retained_text(text@) is None,
        },
{
    if text.as_str().unicode_len() > NOISE_LIMIT {
        Some(EvidenceItem::Text(text))
    } else {
        None
    }
}

/// Whether `len` bytes can be encoded: the encoded length must fit the
/// machine's word.
pub open spec fn encodable_len(len: nat) -> bool {
    len / 3 * 4 + 4 <= usize::MAX
}

/// The bytes that an evidence item carries: those that its text encodes
/// where it is an image whose text is valid base64, nothing otherwise.
pub open spec fn carried_bytes(item: EvidenceModel) -> Option<Seq<u8>> {
    match item {
        EvidenceModel::Image(p) => base64_bytes(p),
        EvidenceModel::Text(_) => None,
    }
}

/// Whether a file of `len` bytes can be encoded.
pub fn can_encode(len: usize) -> (r: bool)
    ensures
        r == encodable_len(len as nat),
{
    len / 3 <= (usize::MAX - 4) / 4
}

/// Turns the bytes of an image file into an evidence item that holds them
/// in standard base64. Decoding the item gives the bytes back.
pub fn image_evidence(bytes: &[u8]) -> (item: EvidenceItem)
    requires
        encodable_len(bytes@.len()),
    ensures
        item@ == EvidenceModel::Image(base64_text(bytes@)),
        carried_bytes(item@) == Some(bytes@),
{
    EvidenceItem::Image(base64_encode(bytes))
}

/// Decodes the image that an evidence item carries.
pub fn image_bytes(item: &EvidenceItem) -> (r: Option<Vec<u8>>)
    ensures
        match r {
            Some(b) => carried_bytes(item@) == Some(b@),
            None => carried_bytes(item@) is None,
        },
{
    match item {
        EvidenceItem::Image(p) => base64_decode(p.as_str()),
        EvidenceItem::Text(_) => None,
    }
}

} // verus!
