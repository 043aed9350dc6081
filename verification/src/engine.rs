//! The tantivy calls that the index is built and queried with.
//!
//! Everything in this file is taken on trust: the types are tantivy's, and
//! each function is one call into tantivy with a contract that states what
//! tantivy's source shows of it, and no more. Where nothing is stated, the
//! outcome is tantivy's to decide. The logic that strings the calls together
//! stands in the other modules, and is verified against these contracts.

use crate::score::best_first;
use crate::score::is_nan;
use crate::score::rank_of;
use vstd::prelude::*;

verus! {

#[verifier::external_type_specification]
#[verifier::external_body]
pub struct ExTextOptions(tantivy::schema::TextOptions);

#[verifier::external_type_specification]
#[verifier::external_body]
pub struct ExSchemaBuilder(tantivy::schema::SchemaBuilder);

#[verifier::external_type_specification]
#[verifier::external_body]
pub struct ExSchema(tantivy::schema::Schema);

#[verifier::external_type_specification]
#[verifier::external_body]
pub struct ExIndex(tantivy::Index);

#[verifier::external_type_specification]
#[verifier::external_body]
pub struct ExTantivyDocument(tantivy::TantivyDocument);

#[verifier::external_type_specification]
#[verifier::external_body]
pub struct ExIndexReader(tantivy::IndexReader);

#[verifier::external_type_specification]
#[verifier::external_body]
pub struct ExSearcher(tantivy::Searcher);

#[verifier::external_type_specification]
#[verifier::external_body]
pub struct ExQueryParser(tantivy::query::QueryParser);

#[verifier::external_type_specification]
#[verifier::external_body]
pub struct ExTantivyError(tantivy::TantivyError);

#[verifier::external_type_specification]
#[verifier::external_body]
pub struct ExQueryParserError(tantivy::query::QueryParserError);

/// tantivy's `IndexWriter` for `TantivyDocument`s.
#[verifier::external_body]
pub struct DocumentWriter {
    inner: tantivy::IndexWriter<tantivy::TantivyDocument>,
}

/// A query as tantivy's parser hands it out: a boxed `Query`.
#[verifier::external_body]
pub struct ParsedQuery {
    inner: Box<dyn tantivy::query::Query>,
}

/// What a schema says of one text field.
pub struct FieldPlan {
    pub name: Seq<char>,
    /// The text is kept, and comes back with a document that is fetched.
    pub stored: bool,
    /// The text is split into lower-case words, and queries find them.
    pub indexed: bool,
}

/// One value that a document holds for a field: its text, where it is a
/// text, and `None` where it is of another kind.
pub struct FieldText {
    pub field: u32,
    pub text: Option<Seq<char>>,
}

/// The text of the first value that stands under a field, where that value
/// is a text.
pub open spec fn first_text_in(values: Seq<FieldText>, field: u32) -> Option<Seq<char>>
    decreases values.len(),
{
    if values.len() == 0 {
        None
    } else if values[0].field == field {
        values[0].text
    } else {
        first_text_in(values.drop_first(), field)
    }
}

/// Whether one address stands before another, or is the same: by segment
/// first, then by place in the segment.
pub open spec fn address_before(first: ScoredAddress, second: ScoredAddress) -> bool {
    first.segment < second.segment || (first.segment == second.segment && first.doc
        <= second.doc)
}

/// Of two results with the same score, the one with the lower address comes
/// first. Where a score is a NaN, nothing is said.
pub open spec fn ties_by_address(found: Seq<ScoredAddress>) -> bool {
    (forall|k: int| 0 <= k < found.len() ==> !is_nan(#[trigger] found[k].bits)) ==> forall|
        i: int,
        j: int,
    |
        0 <= i <= j < found.len() && rank_of(found[i].bits) == rank_of(found[j].bits)
            ==> address_before(#[trigger] found[i], #[trigger] found[j])
}

/// Where a searcher holds a document, and the score that a query gave it.
#[derive(Debug, Clone, Copy)]
pub struct ScoredAddress {
    pub bits: u32,
    pub segment: u32,
    pub doc: u32,
}

/// The scores of a list of results, in its order.
pub open spec fn scores_of(found: Seq<ScoredAddress>) -> Seq<u32> {
    found.map_values(|a: ScoredAddress| a.bits)
}

/// Whether text options ask for the text to be stored.
pub uninterp spec fn options_stored(options: tantivy::schema::TextOptions) -> bool;

/// Whether text options ask for the text to be indexed.
pub uninterp spec fn options_indexed(options: tantivy::schema::TextOptions) -> bool;

/// The fields that a schema builder has been given, in their order.
pub uninterp spec fn builder_fields(builder: tantivy::schema::SchemaBuilder) -> Seq<FieldPlan>;

/// The fields of a schema: the number of a field is its place here.
pub uninterp spec fn schema_fields(schema: tantivy::schema::Schema) -> Seq<FieldPlan>;

/// The fields of the schema that an index was made with.
pub uninterp spec fn index_fields(index: tantivy::Index) -> Seq<FieldPlan>;

/// The values that a document holds, in their order.
pub uninterp spec fn document_texts(document: tantivy::TantivyDocument) -> Seq<FieldText>;

/// The index that a writer writes to.
pub uninterp spec fn writer_index(writer: DocumentWriter) -> tantivy::Index;

/// The documents that a writer has accepted since it was opened, each as
/// its values.
pub uninterp spec fn writer_documents(writer: DocumentWriter) -> Seq<Seq<FieldText>>;

/// The documents that a writer has published: those that it had accepted
/// when it last committed.
pub uninterp spec fn writer_published(writer: DocumentWriter) -> Seq<Seq<FieldText>>;

/// The number of indexing threads of a writer.
pub uninterp spec fn writer_threads(writer: DocumentWriter) -> nat;

/// The memory budget, in bytes, of each indexing thread of a writer.
pub uninterp spec fn writer_thread_budget(writer: DocumentWriter) -> nat;

/// The index that a reader reads.
pub uninterp spec fn reader_index(reader: tantivy::IndexReader) -> tantivy::Index;

/// The index whose documents a searcher holds.
pub uninterp spec fn searcher_index(searcher: tantivy::Searcher) -> tantivy::Index;

/// The parser that `QueryParser::for_index` makes for an index and one
/// default field.
pub uninterp spec fn parser_of(index: tantivy::Index, default_field: u32) -> tantivy::query::QueryParser;

/// What `QueryParser::parse_query` makes of a text: the query, or `None`
/// where the text is no query.
pub uninterp spec fn parsed_of(parser: tantivy::query::QueryParser, text: Seq<char>) -> Option<
    ParsedQuery,
>;

/// What `Searcher::search` finds for a query with the collector
/// `TopDocs::with_limit(limit)`, where it does not fail: the best
/// documents, each with its score and its address.
pub uninterp spec fn top_of(searcher: tantivy::Searcher, query: ParsedQuery, limit: nat) -> Seq<
    ScoredAddress,
>;

/// The document that `Searcher::doc` fetches from an address, where it does
/// not fail.
pub uninterp spec fn stored_document(
    searcher: tantivy::Searcher,
    segment: u32,
    doc: u32,
) -> tantivy::TantivyDocument;

/// The addresses, each a segment and a place in it, of the documents that a
/// searcher holds.
pub uninterp spec fn searcher_addresses(searcher: tantivy::Searcher) -> Set<(u32, u32)>;

/// A score written with so many decimal places, as `format!` writes a
/// number whose precision is given.
pub uninterp spec fn decimals_of(bits: u32, places: nat) -> Seq<char>;

/// `TextOptions::default()`: options that neither store nor index.
#[verifier::external_body]
pub(crate) fn plain_options() -> (options: tantivy::schema::TextOptions)
    ensures
        !options_stored(options),
        !options_indexed(options),
{
    tantivy::schema::TextOptions::default()
}

/// tantivy's constant `TEXT`: options that index the text and do not store
/// it. The text is cut into words by tantivy's tokenizer `default`, which
/// folds them to lower case and drops those of 40 bytes or more, and the
/// words are indexed with their frequencies and positions.
#[verifier::external_body]
pub(crate) fn tokenized_options() -> (options: tantivy::schema::TextOptions)
    ensures
        !options_stored(options),
        options_indexed(options),
{
    tantivy::schema::TEXT
}

/// `TextOptions::set_stored`: the same options, storing.
#[verifier::external_body]
pub(crate) fn stored_options(options: tantivy::schema::TextOptions) -> (marked:
    tantivy::schema::TextOptions)
    ensures
        options_stored(marked),
        options_indexed(marked) == options_indexed(options),
{
    options.set_stored()
}

/// `Schema::builder()`: a builder without fields.
#[verifier::external_body]
pub(crate) fn schema_builder() -> (builder: tantivy::schema::SchemaBuilder)
    ensures
        builder_fields(builder) == Seq::<FieldPlan>::empty(),
{
    tantivy::schema::Schema::builder()
}

/// `SchemaBuilder::add_text_field`, which panics on an empty name, on one
/// that starts with `-` and on one that the builder already has. The field
/// is appended, and its number is its place among the fields.
#[verifier::external_body]
pub(crate) fn add_text_field(
    builder: &mut tantivy::schema::SchemaBuilder,
    name: &str,
    options: tantivy::schema::TextOptions,
) -> (field: u32)
    requires
        name@.len() > 0,
        name@[0] != '-',
        builder_fields(*old(builder)).len() < u32::MAX,
        forall|i: int|
            0 <= i < builder_fields(*old(builder)).len() ==> (#[trigger] builder_fields(
                *old(builder),
            )[i]).name != name@,
    ensures
        field == builder_fields(*old(builder)).len(),
        builder_fields(*final(builder)) == builder_fields(*old(builder)).push(
            FieldPlan {
                name: name@,
                stored: options_stored(options),
                indexed: options_indexed(options),
            },
        ),
{
    builder.add_text_field(name, options).field_id()
}

/// `SchemaBuilder::build`: the schema of the builder's fields.
#[verifier::external_body]
pub(crate) fn build_schema(builder: tantivy::schema::SchemaBuilder) -> (schema:
    tantivy::schema::Schema)
    ensures
        schema_fields(schema) == builder_fields(builder),
{
    builder.build()
}

/// `Index::create_in_ram`: a new index in memory, with this schema.
#[verifier::external_body]
pub(crate) fn create_index(schema: tantivy::schema::Schema) -> (index: tantivy::Index)
    ensures
        index_fields(index) == schema_fields(schema),
{
    tantivy::Index::create_in_ram(schema)
}

/// `Index::writer_with_num_threads`, which divides the budget by the number
/// of threads and so panics on none. It gives a writer with that many
/// threads, each with its share of the budget, which writes to this index
/// and has accepted and published nothing yet, or tantivy's error: whether
/// it succeeds is tantivy's to decide.
#[verifier::external_body]
pub(crate) fn open_writer(index: &tantivy::Index, threads: usize, budget: usize) -> (opened: Result<
    DocumentWriter,
    tantivy::TantivyError,
>)
    requires
        threads >= 1,
    ensures
        opened matches Ok(writer) ==> writer_index(writer) == *index,
        opened matches Ok(writer) ==> writer_documents(writer) == Seq::<Seq<FieldText>>::empty(),
        opened matches Ok(writer) ==> writer_published(writer) == Seq::<Seq<FieldText>>::empty(),
        opened matches Ok(writer) ==> writer_threads(writer) == threads,
        opened matches Ok(writer) ==> writer_thread_budget(writer) == budget / threads,
{
    index.writer_with_num_threads(threads, budget).map(|inner| DocumentWriter { inner })
}

/// `TantivyDocument::default()`: a document without values.
#[verifier::external_body]
pub(crate) fn empty_document() -> (document: tantivy::TantivyDocument)
    ensures
        document_texts(document) == Seq::<FieldText>::empty(),
{
    tantivy::TantivyDocument::default()
}

/// `TantivyDocument::add_text`: the text is appended, as a text, under the
/// field.
#[verifier::external_body]
pub(crate) fn add_text(document: &mut tantivy::TantivyDocument, field: u32, text: &str)
    ensures
        document_texts(*final(document)) == document_texts(*old(document)).push(
            FieldText { field, text: Some(text@) },
        ),
{
    document.add_text(tantivy::schema::Field::from_field_id(field), text)
}

/// `IndexWriter::add_document`: where it succeeds the writer has accepted
/// the document, and where it fails it has not. Nothing is published by it,
/// and the writer's index, threads and budget stay as they are.
#[verifier::external_body]
pub(crate) fn add_document(writer: &mut DocumentWriter, document: tantivy::TantivyDocument) -> (added:
    Result<u64, tantivy::TantivyError>)
    ensures
        added is Ok ==> writer_documents(*final(writer)) == writer_documents(*old(writer)).push(
            document_texts(document),
        ),
        added is Err ==> writer_documents(*final(writer)) == writer_documents(*old(writer)),
        writer_published(*final(writer)) == writer_published(*old(writer)),
        writer_index(*final(writer)) == writer_index(*old(writer)),
        writer_threads(*final(writer)) == writer_threads(*old(writer)),
        writer_thread_budget(*final(writer)) == writer_thread_budget(*old(writer)),
{
    writer.inner.add_document(document)
}

/// `IndexWriter::commit`: where it succeeds, what the writer has accepted is
/// published. Nothing else of the writer changes.
#[verifier::external_body]
pub(crate) fn commit(writer: &mut DocumentWriter) -> (committed: Result<u64, tantivy::TantivyError>)
    ensures
        committed is Ok ==> writer_published(*final(writer)) == writer_documents(*old(writer)),
        writer_documents(*final(writer)) == writer_documents(*old(writer)),
        writer_index(*final(writer)) == writer_index(*old(writer)),
        writer_threads(*final(writer)) == writer_threads(*old(writer)),
        writer_thread_budget(*final(writer)) == writer_thread_budget(*old(writer)),
{
    writer.inner.commit()
}

/// `Index::reader`: a reader of this index, or tantivy's error. Which
/// documents the reader sees is not stated.
#[verifier::external_body]
pub(crate) fn open_reader(index: &tantivy::Index) -> (opened: Result<
    tantivy::IndexReader,
    tantivy::TantivyError,
>)
    ensures
        opened matches Ok(reader) ==> reader_index(reader) == *index,
{
    index.reader()
}

/// `IndexReader::searcher`: a searcher of the reader's index. Which
/// documents it holds is not stated.
#[verifier::external_body]
pub(crate) fn searcher_of(reader: &tantivy::IndexReader) -> (searcher: tantivy::Searcher)
    ensures
        searcher_index(searcher) == reader_index(*reader),
{
    reader.searcher()
}

/// `QueryParser::for_index` with one default field, which has to be a field
/// of the index: the parser looks it up when it parses, and panics where
/// there is none of that number.
#[verifier::external_body]
pub(crate) fn query_parser(index: &tantivy::Index, default_field: u32) -> (parser:
    tantivy::query::QueryParser)
    requires
        default_field < index_fields(*index).len(),
    ensures
        parser == parser_of(*index, default_field),
{
    tantivy::query::QueryParser::for_index(
        index,
        vec![tantivy::schema::Field::from_field_id(default_field)],
    )
}

/// `QueryParser::parse_query`. What is a query, and what it means, is the
/// parser's to decide: the outcome is only named. Not proved: that the
/// parser makes the same of the same text each time.
#[verifier::external_body]
pub(crate) fn parse_query(parser: &tantivy::query::QueryParser, text: &str) -> (parsed: Result<
    ParsedQuery,
    tantivy::query::QueryParserError,
>)
    ensures
        parsed matches Ok(query) ==> parsed_of(*parser, text@) == Some(query),
        parsed is Err ==> parsed_of(*parser, text@) is None,
{
    parser.parse_query(text).map(|inner| ParsedQuery { inner })
}

/// `Searcher::search` with the collector `TopDocs::with_limit(limit)`, which
/// panics on a limit of 0 and sets aside room for twice the limit. Which
/// documents match and how they score is tantivy's to decide: what comes
/// back is only named. Of it is stated that it is no longer than the limit,
/// that every address is one of the searcher's, that the scores come best
/// first, and that equal scores come by ascending address.
///
/// The query has to be one that a parser of the searcher's index made: a
/// query names fields by their numbers, and tantivy looks them up in the
/// searcher's schema without a bounds test.
#[verifier::external_body]
pub(crate) fn search_top(searcher: &tantivy::Searcher, query: &ParsedQuery, limit: usize) -> (found:
    Result<Vec<ScoredAddress>, tantivy::TantivyError>)
    requires
        1 <= limit <= 1024,
        exists|field: u32, text: Seq<char>|
            field < index_fields(searcher_index(*searcher)).len() && #[trigger] parsed_of(
                parser_of(searcher_index(*searcher), field),
                text,
            ) == Some(*query),
    ensures
        found matches Ok(top) ==> top@ == top_of(*searcher, *query, limit as nat),
        found matches Ok(top) ==> top@.len() <= limit,
        found matches Ok(top) ==> forall|i: int|
            0 <= i < top@.len() ==> searcher_addresses(*searcher).contains(
                ((#[trigger] top@[i]).segment, top@[i].doc),
            ),
        found matches Ok(top) ==> best_first(scores_of(top@)),
        found matches Ok(top) ==> ties_by_address(top@),
{
    let collector = tantivy::collector::TopDocs::with_limit(limit);
    let top = searcher.search(query.inner.as_ref(), &collector)?;
    Ok(
        top.into_iter().map(
            |(score, at)| ScoredAddress {
                bits: score.to_bits(),
                segment: at.segment_ord,
                doc: at.doc_id,
            },
        ).collect(),
    )
}

/// `Searcher::doc`, which panics on an address outside the searcher's
/// segments. What the document holds is not stated: it is only named.
#[verifier::external_body]
pub(crate) fn fetch_document(searcher: &tantivy::Searcher, segment: u32, doc: u32) -> (fetched:
    Result<tantivy::TantivyDocument, tantivy::TantivyError>)
    requires
        searcher_addresses(*searcher).contains((segment, doc)),
    ensures
        fetched matches Ok(document) ==> document == stored_document(*searcher, segment, doc),
{
    searcher.doc(tantivy::DocAddress::new(segment, doc))
}

/// `TantivyDocument::get_first`, and of the value found its text, if it is
/// one: the text of the first value under the field, where that is a text.
#[verifier::external_body]
pub(crate) fn first_text(document: &tantivy::TantivyDocument, field: u32) -> (text: Option<String>)
    ensures
        text is Some <==> first_text_in(document_texts(*document), field) is Some,
        text matches Some(t) ==> first_text_in(document_texts(*document), field) == Some(t@),
{
    let value = document.get_first(tantivy::schema::Field::from_field_id(field))?;
    tantivy::schema::Value::as_str(&value).map(|text| text.to_string())
}

/// Formats the score that the bits stand for with `format!` and the
/// precision `places`. Not proved: that the result is the score rounded to
/// that many decimal places, which this crate only names. The places are
/// kept few, since each is a character of the result.
#[verifier::external_body]
pub(crate) fn decimals(bits: u32, places: usize) -> (text: String)
    requires
        places <= 32,
    ensures
        text@ == decimals_of(bits, places as nat),
{
    format!("{:.*}", places, tantivy::Score::from_bits(bits))
}

} // verus!
