//! Builds the index of one corpus.
//!
//! An index lives in memory and serves one request. It is made in three
//! steps that the types keep in order: an `IndexBuilder` is opened, takes
//! the documents, and is committed, which turns it into the `TextIndex` that
//! queries run against. Nothing can be added after the commit, and nothing
//! can be queried before it.

use crate::corpus::documents_of;
use crate::corpus::Document;
use crate::corpus::DocumentView;
use crate::engine::add_document;
use crate::engine::add_text;
use crate::engine::add_text_field;
use crate::engine::build_schema;
use crate::engine::commit;
use crate::engine::create_index;
use crate::engine::document_texts;
use crate::engine::empty_document;
use crate::engine::index_fields;
use crate::engine::open_writer;
use crate::engine::plain_options;
use crate::engine::schema_builder;
use crate::engine::stored_options;
use crate::engine::tokenized_options;
use crate::engine::writer_thread_budget;
use crate::engine::writer_documents;
use crate::engine::writer_index;
use crate::engine::writer_published;
use crate::engine::writer_threads;
use crate::engine::DocumentWriter;
use crate::engine::FieldPlan;
use crate::engine::FieldText;
use vstd::prelude::*;

verus! {

/// The number of the field that holds a document's path.
pub const PATH_FIELD: u32 = 0;

/// The number of the field that holds a document's text.
pub const CONTENT_FIELD: u32 = 1;

/// How many bytes the writer may hold before it flushes.
pub const WRITER_BUDGET: usize = 50_000_000;

/// How many threads index the documents. With one, the documents are taken
/// in the order in which they are added.
pub const WRITER_THREADS: usize = 1;

/// The two fields of every index: the path, stored as it is and not
/// searched, and the content, stored and searched.
pub open spec fn schema_plan() -> Seq<FieldPlan> {
    seq![
        FieldPlan { name: "path"@, stored: true, indexed: false },
        FieldPlan { name: "content"@, stored: true, indexed: true },
    ]
}

/// What the index is given for one document.
pub open spec fn texts_of(document: DocumentView) -> Seq<FieldText> {
    seq![
        FieldText { field: PATH_FIELD, text: Some(document.path) },
        FieldText { field: CONTENT_FIELD, text: Some(document.content) },
    ]
}

/// What the index is given for a corpus.
pub open spec fn entries_of(corpus: Seq<DocumentView>) -> Seq<Seq<FieldText>> {
    corpus.map_values(|d: DocumentView| texts_of(d))
}

/// A failure of the engine while the index was built. Each holds the
/// engine's own words.
#[derive(Debug, Clone)]
pub enum IndexError {
    /// The writer could not be opened.
    WriterInit(String),
    /// The writer did not take a document.
    AddFailed(String),
    /// The commit failed.
    CommitFailed(String),
}

/// An index in memory whose schema is `schema_plan()`.
pub struct PlannedIndex {
    inner: tantivy::Index,
}

impl PlannedIndex {
    #[verifier::type_invariant]
    spec fn follows_the_plan(self) -> bool {
        index_fields(self.inner) == schema_plan()
    }

    /// The engine's index behind this one.
    pub closed spec fn engine(&self) -> tantivy::Index {
        self.inner
    }

    /// The fields of the index.
    pub closed spec fn fields(&self) -> Seq<FieldPlan> {
        index_fields(self.inner)
    }

    /// Declares the two fields and makes an empty index of them.
    pub fn create() -> (index: PlannedIndex)
        ensures
            index.fields() == schema_plan(),
    {
        proof {
            reveal_strlit("path");
            reveal_strlit("content");
        }
        let mut fields = schema_builder();
        let path = add_text_field(&mut fields, "path", stored_options(plain_options()));
        assert("path"@.len() != "content"@.len());
        let content = add_text_field(&mut fields, "content", stored_options(tokenized_options()));
        assert(path == PATH_FIELD && content == CONTENT_FIELD);
        let inner = create_index(build_schema(fields));
        assert(index_fields(inner) =~= schema_plan());
        PlannedIndex { inner }
    }

    pub(crate) fn engine_index(&self) -> (index: &tantivy::Index)
        ensures
            *index == self.engine(),
            index_fields(*index) == schema_plan(),
    {
        proof {
            use_type_invariant(self);
        }
        &self.inner
    }
}

/// An index that still takes documents.
pub struct IndexBuilder {
    index: PlannedIndex,
    writer: DocumentWriter,
}

impl IndexBuilder {
    /// The engine's index that the documents go into.
    pub closed spec fn engine(&self) -> tantivy::Index {
        self.index.engine()
    }

    /// What has been added so far.
    pub closed spec fn entries(&self) -> Seq<Seq<FieldText>> {
        writer_documents(self.writer)
    }

    /// What has been published so far.
    pub closed spec fn published(&self) -> Seq<Seq<FieldText>> {
        writer_published(self.writer)
    }

    /// Whether the writer is the one that `open` asks for: it writes to the
    /// index of this builder, with `WRITER_THREADS` threads and
    /// `WRITER_BUDGET` bytes between them.
    pub closed spec fn as_opened(&self) -> bool {
        &&& writer_index(self.writer) == self.index.engine()
        &&& writer_threads(self.writer) == WRITER_THREADS
        &&& writer_thread_budget(self.writer) == WRITER_BUDGET / WRITER_THREADS
    }

    /// Makes an empty index in memory and opens its writer.
    pub fn open() -> (opened: Result<IndexBuilder, IndexError>)
        ensures
            opened matches Ok(builder) ==> builder.as_opened() && builder.entries() == Seq::<
                Seq<FieldText>,
            >::empty() && builder.published() == Seq::<Seq<FieldText>>::empty(),
            opened matches Err(e) ==> e is WriterInit,
    {
        let index = PlannedIndex::create();
        match open_writer(index.engine_index(), WRITER_THREADS, WRITER_BUDGET) {
            Ok(writer) => Ok(IndexBuilder { index, writer }),
            Err(e) => Err(IndexError::WriterInit(e.to_string())),
        }
    }

    /// Hands one document to the writer.
    pub fn add(&mut self, document: &Document) -> (added: Result<(), IndexError>)
        ensures
            added is Ok ==> final(self).entries() == old(self).entries().push(texts_of(document@)),
            added matches Err(e) ==> e is AddFailed && final(self).entries() == old(self).entries(),
            final(self).engine() == old(self).engine(),
            final(self).published() == old(self).published(),
            final(self).as_opened() == old(self).as_opened(),
    {
        let mut entry = empty_document();
        add_text(&mut entry, PATH_FIELD, document.path());
        add_text(&mut entry, CONTENT_FIELD, document.content());
        assert(document_texts(entry) =~= texts_of(document@));
        match add_document(&mut self.writer, entry) {
            Ok(_) => Ok(()),
            Err(e) => Err(IndexError::AddFailed(e.to_string())),
        }
    }

    /// Publishes what was added. The index can be queried from here on, and
    /// takes no more documents.
    pub fn commit(self) -> (committed: Result<TextIndex, IndexError>)
        ensures
            committed matches Ok(index) ==> index.engine() == self.engine() && index.as_opened()
                == self.as_opened(),
            committed matches Ok(index) ==> index.entries() == self.entries() && index.published()
                == self.entries(),
            committed matches Err(e) ==> e is CommitFailed,
    {
        let IndexBuilder { index, mut writer } = self;
        match commit(&mut writer) {
            Ok(_) => Ok(TextIndex { index, writer }),
            Err(e) => Err(IndexError::CommitFailed(e.to_string())),
        }
    }
}

/// A committed index.
pub struct TextIndex {
    pub(crate) index: PlannedIndex,
    pub(crate) writer: DocumentWriter,
}

impl TextIndex {
    /// The engine's index behind this one.
    pub closed spec fn engine(&self) -> tantivy::Index {
        self.index.engine()
    }

    /// What the index was given, document by document.
    pub closed spec fn entries(&self) -> Seq<Seq<FieldText>> {
        writer_documents(self.writer)
    }

    pub(crate) fn engine_index(&self) -> (index: &tantivy::Index)
        ensures
            *index == self.engine(),
            index_fields(*index) == schema_plan(),
    {
        self.index.engine_index()
    }

    /// What the commit published.
    pub closed spec fn published(&self) -> Seq<Seq<FieldText>> {
        writer_published(self.writer)
    }

    /// Whether the index was written by the writer that `IndexBuilder::open`
    /// asks for, and that writer wrote to this index.
    pub closed spec fn as_opened(&self) -> bool {
        &&& writer_index(self.writer) == self.index.engine()
        &&& writer_threads(self.writer) == WRITER_THREADS
        &&& writer_thread_budget(self.writer) == WRITER_BUDGET / WRITER_THREADS
    }
}

/// Builds the index of a corpus: one entry for each document, in the order
/// of the corpus, then the commit, which publishes them all. Whether the
/// engine carries each step out is the engine's to decide; where one fails,
/// the error says which.
pub fn build(corpus: &Vec<Document>) -> (built: Result<TextIndex, IndexError>)
    ensures
        built matches Ok(index) ==> index.as_opened() && index.entries() == entries_of(
            documents_of(corpus@),
        ) && index.published() == index.entries(),
{
    let mut builder = match IndexBuilder::open() {
        Ok(builder) => builder,
        Err(e) => {
            return Err(e);
        },
    };
    let mut i: usize = 0;
    while i < corpus.len()
        invariant
            i <= corpus.len(),
            builder.as_opened(),
            builder.entries() == entries_of(documents_of(corpus@.take(i as int))),
        decreases corpus.len() - i,
    {
        match builder.add(&corpus[i]) {
            Ok(_) => {},
            Err(e) => {
                return Err(e);
            },
        }
        i += 1;
    }
    builder.commit()
}

/// Every document of a corpus is handed to the index, in its place, with
/// its path and its text as they are.
pub proof fn lemma_every_document_is_entered(corpus: Seq<DocumentView>, k: int)
    requires
        0 <= k < corpus.len(),
    ensures
        entries_of(corpus).len() == corpus.len(),
        entries_of(corpus)[k] == seq![
            FieldText { field: PATH_FIELD, text: Some(corpus[k].path) },
            FieldText { field: CONTENT_FIELD, text: Some(corpus[k].content) },
        ],
{
}

} // verus!
