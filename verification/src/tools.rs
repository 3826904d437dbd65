//! The command lines of the external tools, and the files of the workspace
//! that they write and read.

use vstd::prelude::*;

verus! {

/// The command line that lists the open windows, one per line.
pub open spec fn listing_command_text() -> Seq<char> {
    "wmctrl -lx"@
}

/// The workspace file that holds the raw dump of window `id`.
pub open spec fn dump_path_text(id: Seq<char>) -> Seq<char> {
    "./tmp/"@ + id + ".xwd"@
}

/// The workspace file that holds the converted image of window `id`.
pub open spec fn image_path_text(id: Seq<char>) -> Seq<char> {
    "./tmp/"@ + id + ".png"@
}

/// The command line that dumps the raw pixels of window `id`.
pub open spec fn dump_command_text(id: Seq<char>) -> Seq<char> {
    "xwd -id "@ + id + " -out "@ + dump_path_text(id)
}

/// The command line that converts the dump of window `id` into an image,
/// with the alpha channel removed and the colours inverted.
pub open spec fn convert_command_text(id: Seq<char>) -> Seq<char> {
    "convert "@ + dump_path_text(id) + " -alpha off -negate  "@ + image_path_text(id)
}

/// The command line that recognises the text in the image of window `id`:
/// English, letters and space only, 300 DPI, one uniform block of text, the
/// default engine.
pub open spec fn ocr_command_text(id: Seq<char>) -> Seq<char> {
    "tesseract "@ + image_path_text(id)
        + " stdout -l eng --dpi 300 --psm 6 --oem 3 -c tessedit_char_whitelist='ABCDEFGHIJKLMNOPQRSTUVWXYZabcdefghijklmnopqrstuvwxyz '"@
}

/// The command line that lists the open windows.
pub fn listing_command() -> (r: String)
    ensures
        r@ == listing_command_text(),
{
    String::from_str("wmctrl -lx")
}

/// The path of the raw dump of window `id`.
pub fn dump_path(id: &str) -> (r: String)
    ensures
        r@ == dump_path_text(id@),
{
    let mut r = String::from_str("./tmp/");
    r.append(id);
    r.append(".xwd");
    r
}

/// The path of the converted image of window `id`.
pub fn image_path(id: &str) -> (r: String)
    ensures
        r@ == image_path_text(id@),
{
    let mut r = String::from_str("./tmp/");
    r.append(id);
    r.append(".png");
    r
}

/// The command line that dumps window `id` into its workspace file.
pub fn dump_command(id: &str) -> (r: String)
    ensures
        r@ == dump_command_text(id@),
{
    let mut r = String::from_str("xwd -id ");
    r.append(id);
    r.append(" -out ");
    let path = dump_path(id);
    r.append(path.as_str());
    r
}

/// The command line that converts the dump of window `id` into its image.
pub fn convert_command(id: &str) -> (r: String)
    ensures
        r@ == convert_command_text(id@),
{
    let mut r = String::from_str("convert ");
    let dump = dump_path(id);
    r.append(dump.as_str());
    r.append(" -alpha off -negate  ");
    let image = image_path(id);
    r.append(image.as_str());
    r
}

/// The command line that prints the text recognised in the image of
/// window `id`.
pub fn ocr_command(id: &str) -> (r: String)
    ensures
        r@ == ocr_command_text(id@),
{
    let mut r = String::from_str("tesseract ");
    let image = image_path(id);
    r.append(image.as_str());
    r.append(
        " stdout -l eng --dpi 300 --psm 6 --oem 3 -c tessedit_char_whitelist='ABCDEFGHIJKLMNOPQRSTUVWXYZabcdefghijklmnopqrstuvwxyz '",
    );
    r
}

} // verus!
