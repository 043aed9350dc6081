//! Turns the files found below a directory into the documents to index.
//!
//! Reading the directory is the caller's work. What it found arrives here as a
//! `Listing`; which of the files become documents, and how the others are
//! counted, is decided here.

use crate::classify::classify;
use crate::classify::extension_denied;
use crate::classify::file_verdict;
use crate::classify::BinaryCause;
use crate::classify::Verdict;
use crate::seq_facts::lemma_filter_take_step;
use crate::text::blank;
use crate::text::is_blank;
use crate::text::path_extension;
use crate::text::utf8_text;
use vstd::prelude::*;
use vstd::utf8::decode_utf8;
use vstd::utf8::encode_utf8_decode_utf8;
use vstd::utf8::valid_utf8;

verus! {

/// One file below the root, as the caller found it.
#[derive(Debug, Clone)]
pub struct FileEntry {
    /// The path under which a document made of this file is stored.
    pub path: String,
    /// The extension of the file's name, without the dot.
    pub extension: Option<String>,
    /// The bytes of the file; `None` where it could not be read.
    pub content: Option<Vec<u8>>,
}

pub struct FileEntryView {
    pub path: Seq<char>,
    pub extension: Option<Seq<char>>,
    pub content: Option<Seq<u8>>,
}

impl View for FileEntry {
    type V = FileEntryView;

    open spec fn view(&self) -> FileEntryView {
        FileEntryView {
            path: self.path@,
            extension: match self.extension {
                Some(e) => Some(e@),
                None => None,
            },
            content: match self.content {
                Some(bytes) => Some(bytes@),
                None => None,
            },
        }
    }
}

impl FileEntry {
    /// An entry for the file at `path`, with the extension that the standard
    /// library reads off the path.
    pub fn new(path: String, content: Option<Vec<u8>>) -> (entry: FileEntry)
        ensures
            entry.path == path,
            entry.content == content,
    {
        let extension = path_extension(path.as_str());
        FileEntry { path, extension, content }
    }
}

/// What the caller found where the root should be.
#[derive(Debug, Clone)]
pub enum Listing {
    /// The root does not resolve to a directory.
    NotADirectory,
    /// The files below the root, subdirectories included.
    Directory(Vec<FileEntry>),
}

/// The views of the entries of a listing.
pub open spec fn views_of(entries: Seq<FileEntry>) -> Seq<FileEntryView> {
    entries.map_values(|e: FileEntry| e@)
}

/// Why a walk could not begin.
#[derive(Debug, Clone, Copy, PartialEq, Eq, Structural)]
pub enum DirectoryError {
    /// The root does not resolve to a directory.
    NotADirectory,
}

/// Why a file did not become a document.
#[derive(Debug, Clone, Copy, PartialEq, Eq, Structural)]
pub enum SkipReason {
    /// The classifier took it for binary.
    NonText(BinaryCause),
    /// It passed as text, but as a whole it is not well-formed UTF-8.
    ReadError,
    /// It holds white space only.
    Blank,
}

/// What became of one file.
#[derive(Debug, Clone, Copy, PartialEq, Eq, Structural)]
pub enum FileDecision {
    /// It became a document.
    Indexed,
    /// It was left out and counted as skipped.
    Skipped(SkipReason),
}

/// A unit of indexing: where a text came from, and the text.
/// The text of a document is never blank.
#[derive(Debug)]
pub struct Document {
    path: String,
    content: String,
}

pub struct DocumentView {
    pub path: Seq<char>,
    pub content: Seq<char>,
}

impl View for Document {
    type V = DocumentView;

    closed spec fn view(&self) -> DocumentView {
        DocumentView { path: self.path@, content: self.content@ }
    }
}

impl Document {
    #[verifier::type_invariant]
    spec fn content_not_blank(self) -> bool {
        !blank(self.content@)
    }

    /// A document, unless `content` is blank.
    pub fn new(path: String, content: String) -> (made: Option<Document>)
        ensures
            made is Some <==> !blank(content@),
            made matches Some(d) ==> d@ == (DocumentView { path: path@, content: content@ }),
    {
        if is_blank(content.as_str()) {
            None
        } else {
            Some(Document { path, content })
        }
    }

    pub fn path(&self) -> (path: &str)
        ensures
            path@ == self@.path,
    {
        self.path.as_str()
    }

    pub fn content(&self) -> (content: &str)
        ensures
            content@ == self@.content,
            !blank(content@),
    {
        proof {
            use_type_invariant(self);
        }
        self.content.as_str()
    }
}

impl Clone for Document {
    fn clone(&self) -> (copy: Self)
        ensures
            copy@ == self@,
    {
        proof {
            use_type_invariant(self);
        }
        Document { path: self.path.clone(), content: self.content.clone() }
    }
}

/// The views of the documents of a corpus.
pub open spec fn documents_of(corpus: Seq<Document>) -> Seq<DocumentView> {
    corpus.map_values(|d: Document| d@)
}

/// What becomes of one file.
pub open spec fn decision_of(entry: FileEntryView) -> FileDecision {
    match file_verdict(entry.extension, entry.content) {
        Verdict::Binary(cause) => FileDecision::Skipped(SkipReason::NonText(cause)),
        Verdict::Text => {
            let bytes = entry.content->0;
            if !valid_utf8(bytes) {
                FileDecision::Skipped(SkipReason::ReadError)
            } else if blank(decode_utf8(bytes)) {
                FileDecision::Skipped(SkipReason::Blank)
            } else {
                FileDecision::Indexed
            }
        },
    }
}

pub open spec fn is_indexed(entry: FileEntryView) -> bool {
    decision_of(entry) is Indexed
}

/// The document made of a file that is indexed.
pub open spec fn document_of(entry: FileEntryView) -> DocumentView {
    DocumentView { path: entry.path, content: decode_utf8(entry.content->0) }
}

/// The documents made of a listing, in the order of the listing.
pub open spec fn corpus_of(entries: Seq<FileEntryView>) -> Seq<DocumentView> {
    entries.filter(|e: FileEntryView| is_indexed(e)).map_values(|e: FileEntryView| document_of(e))
}

/// How many files of a listing are left out.
pub open spec fn skipped_of(entries: Seq<FileEntryView>) -> nat {
    entries.filter(|e: FileEntryView| !is_indexed(e)).len()
}

/// Decides what becomes of one file, and makes its document where it is indexed.
pub fn examine(entry: &FileEntry) -> (found: (FileDecision, Option<Document>))
    ensures
        found.0 == decision_of(entry@),
        found.0 is Indexed <==> found.1 is Some,
        found.1 matches Some(d) ==> d@ == document_of(entry@),
{
    let extension: Option<&str> = match &entry.extension {
        Some(e) => Some(e.as_str()),
        None => None,
    };
    let content: Option<&[u8]> = match &entry.content {
        Some(bytes) => Some(bytes.as_slice()),
        None => None,
    };
    match classify(extension, content) {
        Verdict::Binary(cause) => (FileDecision::Skipped(SkipReason::NonText(cause)), None),
        Verdict::Text => {
            let bytes: &[u8] = match content {
                Some(bytes) => bytes,
                // What could not be read is never taken for text.
                None => {
                    return (
                        FileDecision::Skipped(SkipReason::NonText(BinaryCause::Unreadable)),
                        None,
                    );
                },
            };
            match utf8_text(bytes) {
                None => (FileDecision::Skipped(SkipReason::ReadError), None),
                Some(text) => {
                    proof {
                        encode_utf8_decode_utf8(text@);
                    }
                    match Document::new(entry.path.clone(), text.to_owned()) {
                        Some(document) => (FileDecision::Indexed, Some(document)),
                        None => (FileDecision::Skipped(SkipReason::Blank), None),
                    }
                },
            }
        },
    }
}

/// Decides what becomes of one file.
pub fn decide(entry: &FileEntry) -> (decision: FileDecision)
    ensures
        decision == decision_of(entry@),
{
    examine(entry).0
}

/// What a walk over a listing yields.
#[derive(Debug, Clone)]
pub struct WalkReport {
    corpus: Vec<Document>,
    found: usize,
    skipped: usize,
}

pub struct WalkReportView {
    pub corpus: Seq<DocumentView>,
    pub found: nat,
    pub indexed: nat,
    pub skipped: nat,
}

impl View for WalkReport {
    type V = WalkReportView;

    closed spec fn view(&self) -> WalkReportView {
        WalkReportView {
            corpus: documents_of(self.corpus@),
            found: self.found as nat,
            indexed: self.corpus@.len(),
            skipped: self.skipped as nat,
        }
    }
}

/// The report on a listing.
pub open spec fn report_of(entries: Seq<FileEntryView>) -> WalkReportView {
    WalkReportView {
        corpus: corpus_of(entries),
        found: entries.len(),
        indexed: corpus_of(entries).len(),
        skipped: skipped_of(entries),
    }
}

impl WalkReport {
    /// The documents, in the order in which their files were listed.
    pub fn corpus(&self) -> (corpus: &Vec<Document>)
        ensures
            documents_of(corpus@) == self@.corpus,
    {
        &self.corpus
    }

    /// How many files were listed.
    pub fn found(&self) -> (count: usize)
        ensures
            count == self@.found,
    {
        self.found
    }

    /// How many files became documents.
    pub fn indexed(&self) -> (count: usize)
        ensures
            count == self@.indexed,
    {
        self.corpus.len()
    }

    /// How many files were left out.
    pub fn skipped(&self) -> (count: usize)
        ensures
            count == self@.skipped,
    {
        self.skipped
    }
}

/// Walks a listing: every file is counted, and becomes a document or is
/// skipped. No file makes the walk fail; only a root that is no directory does.
pub fn walk(listing: &Listing) -> (walked: Result<WalkReport, DirectoryError>)
    ensures
        match listing {
            Listing::NotADirectory => walked == Err::<WalkReport, DirectoryError>(
                DirectoryError::NotADirectory,
            ),
            Listing::Directory(entries) => walked matches Ok(report) && report@ == report_of(
                views_of(entries@),
            ),
        },
{
    let entries = match listing {
        Listing::NotADirectory => {
            return Err(DirectoryError::NotADirectory);
        },
        Listing::Directory(entries) => entries,
    };
    let ghost all = views_of(entries@);
    let mut corpus: Vec<Document> = Vec::new();
    let mut skipped: usize = 0;
    let mut i: usize = 0;
    proof {
        reveal(Seq::filter);
    }
    while i < entries.len()
        invariant
            i <= entries.len(),
            all == views_of(entries@),
            documents_of(corpus@) == corpus_of(all.take(i as int)),
            skipped == skipped_of(all.take(i as int)),
            corpus@.len() + skipped == i,
        decreases entries.len() - i,
    {
        let (_, document) = examine(&entries[i]);
        proof {
            lemma_filter_take_step(all, |e: FileEntryView| is_indexed(e), i as int);
            lemma_filter_take_step(all, |e: FileEntryView| !is_indexed(e), i as int);
        }
        match document {
            Some(d) => {
                corpus.push(d);
                assert(corpus_of(all.take(i + 1)) =~= corpus_of(all.take(i as int)).push(
                    document_of(all[i as int]),
                ));
            },
            None => {
                skipped += 1;
            },
        }
        i += 1;
    }
    assert(all.take(i as int) =~= all);
    Ok(WalkReport { corpus, found: entries.len(), skipped })
}

/// Where every file of a listing has an extension from the list of binary
/// ones, no document is made and every file is counted as skipped.
pub proof fn lemma_binary_extensions_leave_nothing(entries: Seq<FileEntryView>)
    requires
        forall|i: int|
            0 <= i < entries.len() ==> extension_denied(#[trigger] entries[i].extension),
    ensures
        report_of(entries).corpus.len() == 0,
        report_of(entries).indexed == 0,
        report_of(entries).found == entries.len(),
        report_of(entries).skipped == entries.len(),
    decreases entries.len(),
{
    reveal(Seq::filter);
    if entries.len() > 0 {
        let rest = entries.drop_last();
        lemma_binary_extensions_leave_nothing(rest);
    }
}

/// What a walk leaves out and what it keeps add up to what it found, and
/// no document of the corpus is blank.
pub proof fn lemma_report_adds_up(entries: Seq<FileEntryView>)
    ensures
        report_of(entries).indexed + report_of(entries).skipped == report_of(entries).found,
        forall|k: int|
            0 <= k < corpus_of(entries).len() ==> !blank((#[trigger] corpus_of(entries)[k]).content),
    decreases entries.len(),
{
    reveal(Seq::filter);
    if entries.len() > 0 {
        let rest = entries.drop_last();
        lemma_report_adds_up(rest);
    }
}

} // verus!
