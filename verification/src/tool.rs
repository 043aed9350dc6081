//! One search from beginning to end: walk the listing, build the index, run
//! the query, and say what came of it.

use crate::classify::extension_denied;
use crate::corpus::lemma_binary_extensions_leave_nothing;
use crate::corpus::report_of;
use crate::corpus::views_of;
use crate::corpus::walk;
use crate::corpus::DirectoryError;
use crate::corpus::DocumentView;
use crate::corpus::Listing;
use crate::index::build;
use crate::index::entries_of;
use crate::index::IndexError;
use crate::index::TextIndex;
use crate::query::hit_scores;
use crate::query::hits_of;
use crate::query::Hit;
use crate::query::QueryError;
use crate::query::TOP_K;
use crate::report::failure_text;
use crate::report::failure_text_of;
use crate::report::nothing_indexed_of;
use crate::report::outcome_text;
use crate::report::outcome_text_of;
use crate::score::best_first;
use crate::text::blank;
use vstd::prelude::*;

verus! {

/// What a search is asked: where to look, and for what.
#[derive(Debug, Clone)]
pub struct SearchParams {
    /// The directory whose files are searched.
    pub directory: String,
    /// The query to run on them.
    pub keyword: String,
}

/// The search capability. It holds no data: every call builds its own index
/// and lets go of it at the end.
#[derive(Debug, Clone, Copy)]
pub struct SearchTool;

/// A search that went wrong, by the stage that failed.
#[derive(Debug, Clone)]
pub enum SearchError {
    /// The walk could not begin.
    Directory(DirectoryError),
    /// The index could not be built.
    Index(IndexError),
    /// The query was turned down or could not be run.
    Query(QueryError),
}

/// A search that went through.
#[derive(Debug, Clone)]
pub enum SearchOutcome {
    /// No file became a document, so no index was built. That is no error.
    NothingIndexed { found: usize, skipped: usize },
    /// The query ran against `indexed` documents; `hits` may be empty.
    Searched { hits: Vec<Hit>, indexed: usize },
}

/// The index is one that `build` makes of the corpus: it was given the
/// documents of the corpus, one entry each and in their order, by the writer
/// that `IndexBuilder::open` asks for, and the commit published them all.
pub open spec fn indexes(index: TextIndex, corpus: Seq<DocumentView>) -> bool {
    index.as_opened() && index.entries() == entries_of(corpus) && index.published()
        == index.entries()
}

/// What a search may answer to a listing and a keyword.
///
/// A root that is no directory and a listing without a single document
/// settle the answer. Past that, the engine has its say: it may fail while
/// the index is built, and only then is the keyword looked at. A blank one is
/// turned down. Any other is parsed by an index of the corpus: where it is
/// no query the search fails with the parser's words, and where it is one
/// the hits are what a searcher of that index finds for it, unless the
/// engine fails.
pub open spec fn answers(
    listing: Listing,
    keyword: Seq<char>,
    answer: Result<SearchOutcome, SearchError>,
) -> bool {
    match listing {
        Listing::NotADirectory => answer matches Err(
            SearchError::Directory(DirectoryError::NotADirectory),
        ),
        Listing::Directory(entries) => {
            let report = report_of(views_of(entries@));
            if report.indexed == 0 {
                answer matches Ok(SearchOutcome::NothingIndexed { found, skipped })
                    && found == report.found && skipped == report.skipped
            } else {
                match answer {
                    Ok(SearchOutcome::Searched { hits, indexed }) => {
                        &&& !blank(keyword)
                        &&& indexed == report.indexed
                        &&& hits@.len() <= TOP_K
                        &&& best_first(hit_scores(hits_of(hits@)))
                        &&& exists|index: TextIndex| #[trigger]
                            indexes(index, report.corpus) && index.finds(keyword, hits_of(hits@))
                    },
                    Ok(SearchOutcome::NothingIndexed { .. }) => false,
                    Err(SearchError::Directory(_)) => false,
                    Err(SearchError::Index(_)) => true,
                    Err(SearchError::Query(QueryError::EmptyKeyword)) => blank(keyword),
                    Err(SearchError::Query(QueryError::ParseFailed(_))) => {
                        &&& !blank(keyword)
                        &&& exists|index: TextIndex| #[trigger]
                            indexes(index, report.corpus) && index.query_of(keyword) is None
                    },
                    Err(SearchError::Query(QueryError::ExecutionFailed(_))) => {
                        &&& !blank(keyword)
                        &&& exists|index: TextIndex| #[trigger]
                            indexes(index, report.corpus) && index.query_of(keyword) is Some
                    },
                }
            }
        },
    }
}

/// An answer in words: the report of a search that went through, or the
/// message of one that failed.
pub open spec fn said(
    answer: Result<SearchOutcome, SearchError>,
    directory: Seq<char>,
    keyword: Seq<char>,
) -> Result<Seq<char>, Seq<char>> {
    match answer {
        Ok(outcome) => Ok(outcome_text_of(outcome, directory, keyword)),
        Err(error) => Err(failure_text_of(error, directory)),
    }
}

/// The characters of an answer in words.
pub open spec fn words_of(text: Result<String, String>) -> Result<Seq<char>, Seq<char>> {
    match text {
        Ok(report) => Ok(report@),
        Err(message) => Err(message@),
    }
}

impl SearchTool {
    /// The tool. There is nothing to set up.
    pub fn new() -> (tool: Self)
        ensures
            tool == SearchTool,
    {
        SearchTool
    }

    /// Searches the files of `listing`, which the caller read below
    /// `params.directory`, for `params.keyword`.
    pub fn run(&self, params: &SearchParams, listing: &Listing) -> (answer: Result<
        SearchOutcome,
        SearchError,
    >)
        ensures
            answers(*listing, params.keyword@, answer),
    {
        let report = match walk(listing) {
            Ok(report) => report,
            Err(e) => {
                return Err(SearchError::Directory(e));
            },
        };
        if report.indexed() == 0 {
            return Ok(
                SearchOutcome::NothingIndexed { found: report.found(), skipped: report.skipped() },
            );
        }
        let index = match build(report.corpus()) {
            Ok(index) => index,
            Err(e) => {
                return Err(SearchError::Index(e));
            },
        };
        assert(indexes(index, report@.corpus));
        match index.search(params.keyword.as_str()) {
            Ok(hits) => Ok(SearchOutcome::Searched { hits, indexed: report.indexed() }),
            Err(e) => Err(SearchError::Query(e)),
        }
    }

    /// Searches as `run` does, and answers in words: the report, or the
    /// message of the failure.
    pub fn search(&self, params: &SearchParams, listing: &Listing) -> (text: Result<String, String>)
        ensures
            exists|answer: Result<SearchOutcome, SearchError>| #[trigger]
                answers(*listing, params.keyword@, answer) && words_of(text) == said(
                    answer,
                    params.directory@,
                    params.keyword@,
                ),
            *listing is NotADirectory ==> (text matches Err(message) && message@
                == failure_text_of(
                SearchError::Directory(DirectoryError::NotADirectory),
                params.directory@,
            )),
            listing matches Listing::Directory(entries) ==> (report_of(views_of(entries@)).indexed
                == 0 ==> (text matches Ok(report) && report@ == nothing_indexed_of(
                params.directory@,
                report_of(views_of(entries@)).found,
                report_of(views_of(entries@)).skipped,
            ))),
    {
        let answer = self.run(params, listing);
        match &answer {
            Ok(outcome) => Ok(
                outcome_text(outcome, params.directory.as_str(), params.keyword.as_str()),
            ),
            Err(error) => Err(failure_text(error, params.directory.as_str())),
        }
    }
}

/// Two searches of one listing that never reach the engine, because the root
/// is no directory or no file becomes a document, answer alike.
pub proof fn lemma_settled_answers_agree(
    listing: Listing,
    keyword: Seq<char>,
    first: Result<SearchOutcome, SearchError>,
    second: Result<SearchOutcome, SearchError>,
)
    requires
        answers(listing, keyword, first),
        answers(listing, keyword, second),
        listing matches Listing::Directory(entries) ==> report_of(views_of(entries@)).indexed
            == 0,
    ensures
        first == second,
{
}

/// A blank keyword never gets as far as a query. Where there are documents
/// to search, the search fails: with `EmptyKeyword`, unless the engine failed
/// before the keyword was looked at.
pub proof fn lemma_blank_keyword_never_searches(
    listing: Listing,
    keyword: Seq<char>,
    answer: Result<SearchOutcome, SearchError>,
)
    requires
        blank(keyword),
        answers(listing, keyword, answer),
    ensures
        !(answer matches Ok(SearchOutcome::Searched { .. })),
        listing matches Listing::Directory(entries) ==> (report_of(views_of(entries@)).indexed > 0
            ==> (answer matches Err(SearchError::Index(_)) || answer matches Err(
            SearchError::Query(QueryError::EmptyKeyword),
        ))),
{
}

/// Where every file of a listing has an extension from the list of binary
/// ones, a search answers that nothing could be indexed, with every file
/// counted as found and as skipped. It is never an error.
pub proof fn lemma_only_binary_extensions(
    listing: Listing,
    directory: Seq<char>,
    keyword: Seq<char>,
    answer: Result<SearchOutcome, SearchError>,
)
    requires
        listing is Directory,
        forall|i: int|
            0 <= i < listing->Directory_0@.len() ==> extension_denied(
                (#[trigger] listing->Directory_0@[i])@.extension,
            ),
        answers(listing, keyword, answer),
    ensures
        answer matches Ok(SearchOutcome::NothingIndexed { found, skipped }) && found
            == listing->Directory_0@.len() && skipped == listing->Directory_0@.len(),
        said(answer, directory, keyword) == Ok::<Seq<char>, Seq<char>>(
            nothing_indexed_of(directory, listing->Directory_0@.len(), listing->Directory_0@.len()),
        ),
{
    lemma_binary_extensions_leave_nothing(views_of(listing->Directory_0@));
}

} // verus!
