//! Decides whether a file holds text that is worth indexing.
//!
//! The decision is a fixed chain of checks, taken in order; the first one that
//! matches settles the verdict. It is a heuristic: a key file that is mostly
//! ASCII passes as text, and callers have to live with that.

use crate::seq_facts::lemma_contains_take_step;
use crate::seq_facts::lemma_filter_take_step;
use crate::text::lowercase;
use crate::text::lowercase_of;
use crate::text::same_text;
use crate::text::utf8_text;
use vstd::prelude::*;
use vstd::utf8::valid_utf8;

verus! {

/// How many bytes from the start of a file the checks look at.
pub const SAMPLE_LIMIT: usize = 8192;

/// Why a file was taken for binary.
#[derive(Debug, Clone, Copy, PartialEq, Eq, Structural)]
pub enum BinaryCause {
    /// Its extension is one of `binary_extensions()`.
    Extension,
    /// It could not be read.
    Unreadable,
    /// It holds no bytes.
    Empty,
    /// A zero byte stands in its sample.
    NulByte,
    /// More than three tenths of its sample are control bytes.
    ControlBytes,
    /// Its sample is neither well-formed UTF-8 nor at least four fifths ASCII.
    Encoding,
}

/// The outcome for one file.
#[derive(Debug, Clone, Copy, PartialEq, Eq, Structural)]
pub enum Verdict {
    /// The file is read and indexed.
    Text,
    /// The file is left out, for the cause given.
    Binary(BinaryCause),
}

/// The extensions, in lower case, of files that are never read.
pub open spec fn binary_extensions() -> Seq<Seq<char>> {
    seq![
        "exe"@, "dll"@, "so"@, "dylib"@, "bin"@, "obj"@, "o"@, "a"@, "lib"@, "png"@, "jpg"@,
        "jpeg"@, "gif"@, "bmp"@, "tiff"@, "webp"@, "ico"@, "mp3"@, "mp4"@, "wav"@, "ogg"@,
        "flac"@, "avi"@, "mov"@, "mkv"@, "zip"@, "gz"@, "tar"@, "7z"@, "rar"@, "jar"@, "war"@,
        "pdf"@, "doc"@, "docx"@, "xls"@, "xlsx"@, "ppt"@, "pptx"@, "db"@, "sqlite"@, "mdb"@,
        "iso"@, "dmg"@, "class"@,
    ]
}

/// The list behind `binary_extensions()`.
pub fn binary_extension_list() -> (list: [&'static str; 45])
    ensures
        list@.len() == binary_extensions().len(),
        forall|i: int| 0 <= i < 45 ==> (#[trigger] list@[i])@ == binary_extensions()[i],
{
    [
        "exe", "dll", "so", "dylib", "bin", "obj", "o", "a", "lib", "png", "jpg", "jpeg", "gif",
        "bmp", "tiff", "webp", "ico", "mp3", "mp4", "wav", "ogg", "flac", "avi", "mov", "mkv",
        "zip", "gz", "tar", "7z", "rar", "jar", "war", "pdf", "doc", "docx", "xls", "xlsx", "ppt",
        "pptx", "db", "sqlite", "mdb", "iso", "dmg", "class",
    ]
}

/// True when `lowered`, an extension already in lower case, is on the list.
pub fn is_binary_extension(lowered: &str) -> (listed: bool)
    ensures
        listed == binary_extensions().contains(lowered@),
{
    let list = binary_extension_list();
    let mut i: usize = 0;
    while i < 45
        invariant
            i <= 45,
            list@.len() == binary_extensions().len() == 45,
            forall|k: int| 0 <= k < 45 ==> (#[trigger] list@[k])@ == binary_extensions()[k],
            forall|k: int| 0 <= k < i ==> binary_extensions()[k] != lowered@,
        decreases 45 - i,
    {
        if same_text(list[i], lowered) {
            return true;
        }
        i += 1;
    }
    false
}

/// True when a file with this extension is binary by its name alone.
pub open spec fn extension_denied(extension: Option<Seq<char>>) -> bool {
    extension matches Some(e) && binary_extensions().contains(lowercase_of(e))
}

/// Folds the extension to lower case and looks it up in the list.
pub fn has_binary_extension(extension: Option<&str>) -> (denied: bool)
    ensures
        denied == extension_denied(
            match extension {
                Some(e) => Some(e@),
                None => None,
            },
        ),
{
    match extension {
        Some(e) => {
            let lowered = lowercase(e);
            is_binary_extension(lowered.as_str())
        },
        None => false,
    }
}

/// The part of a file that the checks read: its first `SAMPLE_LIMIT` bytes.
pub open spec fn sample_of(content: Seq<u8>) -> Seq<u8> {
    if content.len() <= SAMPLE_LIMIT {
        content
    } else {
        content.take(SAMPLE_LIMIT as int)
    }
}

/// A control character other than tab, line feed and carriage return.
pub open spec fn is_control(byte: u8) -> bool {
    byte < 32 && byte != 9 && byte != 10 && byte != 13
}

/// A byte of the ASCII range.
pub open spec fn is_ascii_byte(byte: u8) -> bool {
    byte <= 127
}

/// How many of the bytes are control bytes.
pub open spec fn control_count(bytes: Seq<u8>) -> nat {
    bytes.filter(|b: u8| is_control(b)).len()
}

/// How many of the bytes are ASCII.
pub open spec fn ascii_count(bytes: Seq<u8>) -> nat {
    bytes.filter(|b: u8| is_ascii_byte(b)).len()
}

/// More than three tenths of `bytes` are control bytes.
pub open spec fn control_heavy(bytes: Seq<u8>) -> bool {
    10 * control_count(bytes) > 3 * bytes.len()
}

/// At least four fifths of `bytes` are ASCII.
pub open spec fn mostly_ascii(bytes: Seq<u8>) -> bool {
    5 * ascii_count(bytes) >= 4 * bytes.len()
}

/// The verdict on a sample, given whether it is well-formed UTF-8.
pub open spec fn sample_verdict_given(sample: Seq<u8>, well_formed: bool) -> Verdict {
    if sample.len() == 0 {
        Verdict::Binary(BinaryCause::Empty)
    } else if sample.contains(0u8) {
        Verdict::Binary(BinaryCause::NulByte)
    } else if control_heavy(sample) {
        Verdict::Binary(BinaryCause::ControlBytes)
    } else if well_formed || mostly_ascii(sample) {
        Verdict::Text
    } else {
        Verdict::Binary(BinaryCause::Encoding)
    }
}

/// The verdict on a sample.
pub open spec fn sample_verdict(sample: Seq<u8>) -> Verdict {
    sample_verdict_given(sample, valid_utf8(sample))
}

/// The verdict on a file: `content` is `None` where it could not be read.
pub open spec fn file_verdict(extension: Option<Seq<char>>, content: Option<Seq<u8>>) -> Verdict {
    if extension_denied(extension) {
        Verdict::Binary(BinaryCause::Extension)
    } else {
        match content {
            None => Verdict::Binary(BinaryCause::Unreadable),
            Some(bytes) => sample_verdict(sample_of(bytes)),
        }
    }
}

/// What a pass over the bytes finds.
pub struct Tally {
    /// Whether a zero byte is among them.
    pub has_nul: bool,
    /// How many of them are control bytes.
    pub controls: usize,
    /// How many of them are ASCII.
    pub ascii: usize,
}

/// Counts, in one pass, what the checks need to know of `bytes`.
pub fn tally(bytes: &[u8]) -> (found: Tally)
    ensures
        found.has_nul == bytes@.contains(0u8),
        found.controls == control_count(bytes@),
        found.ascii == ascii_count(bytes@),
{
    let mut has_nul = false;
    let mut controls: usize = 0;
    let mut ascii: usize = 0;
    let mut i: usize = 0;
    proof {
        reveal(Seq::filter);
    }
    while i < bytes.len()
        invariant
            i <= bytes.len(),
            has_nul == bytes@.take(i as int).contains(0u8),
            controls == control_count(bytes@.take(i as int)),
            ascii == ascii_count(bytes@.take(i as int)),
            controls <= i,
            ascii <= i,
        decreases bytes.len() - i,
    {
        let byte = bytes[i];
        proof {
            lemma_filter_take_step(bytes@, |b: u8| is_control(b), i as int);
            lemma_filter_take_step(bytes@, |b: u8| is_ascii_byte(b), i as int);
            lemma_contains_take_step(bytes@, 0u8, i as int);
        }
        if byte == 0 {
            has_nul = true;
        }
        if byte < 32 && byte != 9 && byte != 10 && byte != 13 {
            controls += 1;
        }
        if byte <= 127 {
            ascii += 1;
        }
        i += 1;
    }
    assert(bytes@.take(i as int) =~= bytes@);
    Tally { has_nul, controls, ascii }
}

/// Classifies a sample of which it is known whether it is well-formed UTF-8.
pub fn classify_sample_given(sample: &[u8], well_formed: bool) -> (verdict: Verdict)
    ensures
        verdict == sample_verdict_given(sample@, well_formed),
{
    if sample.len() == 0 {
        return Verdict::Binary(BinaryCause::Empty);
    }
    let found = tally(sample);
    let length: u128 = sample.len() as u128;
    let controls: u128 = found.controls as u128;
    let ascii: u128 = found.ascii as u128;
    proof {
        sample@.lemma_filter_len(|b: u8| is_control(b));
        sample@.lemma_filter_len(|b: u8| is_ascii_byte(b));
    }
    if found.has_nul {
        Verdict::Binary(BinaryCause::NulByte)
    } else if 10 * controls > 3 * length {
        Verdict::Binary(BinaryCause::ControlBytes)
    } else if well_formed || 5 * ascii >= 4 * length {
        Verdict::Text
    } else {
        Verdict::Binary(BinaryCause::Encoding)
    }
}

/// Classifies a sample.
pub fn classify_sample(sample: &[u8]) -> (verdict: Verdict)
    ensures
        verdict == sample_verdict(sample@),
{
    let well_formed = utf8_text(sample).is_some();
    classify_sample_given(sample, well_formed)
}

/// The first `SAMPLE_LIMIT` bytes of `content`, or all of it where it is shorter.
pub fn sample(content: &[u8]) -> (head: &[u8])
    ensures
        head@ == sample_of(content@),
{
    if content.len() <= SAMPLE_LIMIT {
        content
    } else {
        vstd::slice::slice_subrange(content, 0, SAMPLE_LIMIT)
    }
}

/// Classifies a file by its extension and by the start of its content.
/// `content` is `None` for a file that could not be read.
pub fn classify(extension: Option<&str>, content: Option<&[u8]>) -> (verdict: Verdict)
    ensures
        verdict == file_verdict(
            match extension {
                Some(e) => Some(e@),
                None => None,
            },
            match content {
                Some(bytes) => Some(bytes@),
                None => None,
            },
        ),
{
    if has_binary_extension(extension) {
        return Verdict::Binary(BinaryCause::Extension);
    }
    match content {
        None => Verdict::Binary(BinaryCause::Unreadable),
        Some(bytes) => classify_sample(sample(bytes)),
    }
}

/// A file whose sample is not empty, holds no zero byte, is at most three
/// tenths control bytes and is well-formed UTF-8 is text, unless its
/// extension is on the list of binary ones.
pub proof fn lemma_clean_utf8_is_text(extension: Option<Seq<char>>, content: Seq<u8>)
    requires
        !extension_denied(extension),
        content.len() > 0,
        !sample_of(content).contains(0u8),
        !control_heavy(sample_of(content)),
        valid_utf8(sample_of(content)),
    ensures
        file_verdict(extension, Some(content)) == Verdict::Text,
{
}

/// A file with a zero byte among its first `SAMPLE_LIMIT` bytes is binary,
/// whatever its extension.
pub proof fn lemma_nul_byte_is_binary(extension: Option<Seq<char>>, content: Seq<u8>)
    requires
        exists|at: int| 0 <= at < content.len() && at < SAMPLE_LIMIT && content[at] == 0u8,
    ensures
        file_verdict(extension, Some(content)) is Binary,
{
    let at = choose|at: int| 0 <= at < content.len() && at < SAMPLE_LIMIT && content[at] == 0u8;
    assert(sample_of(content)[at] == 0u8);
}

} // verus!
