//! Runs one keyword query against a committed index.

use crate::engine::fetch_document;
use crate::engine::first_text;
use crate::engine::document_texts;
use crate::engine::first_text_in;
use crate::engine::open_reader;
use crate::engine::parse_query;
use crate::engine::parsed_of;
use crate::engine::parser_of;
use crate::engine::query_parser;
use crate::engine::scores_of;
use crate::engine::search_top;
use crate::engine::searcher_addresses;
use crate::engine::searcher_index;
use crate::engine::searcher_of;
use crate::engine::stored_document;
use crate::engine::ties_by_address;
use crate::engine::top_of;
use crate::engine::ParsedQuery;
use crate::engine::ScoredAddress;
use crate::index::TextIndex;
use crate::index::CONTENT_FIELD;
use crate::index::PATH_FIELD;
use crate::score::best_first;
use crate::text::blank;
use crate::text::is_blank;
use vstd::prelude::*;

verus! {

/// How many hits a query returns at most.
pub const TOP_K: usize = 10;

/// A document that a query found: its path, and the bits of its score.
#[derive(Debug, Clone)]
pub struct Hit {
    pub path: String,
    pub score_bits: u32,
}

pub struct HitView {
    pub path: Seq<char>,
    pub score_bits: u32,
}

impl View for Hit {
    type V = HitView;

    open spec fn view(&self) -> HitView {
        HitView { path: self.path@, score_bits: self.score_bits }
    }
}

/// The views of a list of hits.
pub open spec fn hits_of(hits: Seq<Hit>) -> Seq<HitView> {
    hits.map_values(|h: Hit| h@)
}

/// The scores of a list of hits, in its order.
pub open spec fn hit_scores(hits: Seq<HitView>) -> Seq<u32> {
    hits.map_values(|h: HitView| h.score_bits)
}

/// Why a query gave no result.
#[derive(Debug, Clone)]
pub enum QueryError {
    /// The keyword is empty or white space only.
    EmptyKeyword,
    /// The keyword is no query; the field holds the parser's words.
    ParseFailed(String),
    /// The engine failed while it ran the query; the field holds its words.
    ExecutionFailed(String),
}

/// The path given to a hit whose document holds none.
pub open spec fn path_or_unknown(stored: Option<Seq<char>>) -> Seq<char> {
    match stored {
        Some(path) => path,
        None => "Unknown path"@,
    }
}

/// Makes the hit of one result: `stored` is the path that the document
/// fetched for it holds, if it holds one.
pub fn resolve_hit(score_bits: u32, stored: Option<String>) -> (hit: Hit)
    ensures
        hit@ == (HitView {
            path: path_or_unknown(
                match stored {
                    Some(path) => Some(path@),
                    None => None,
                },
            ),
            score_bits,
        }),
{
    let path = match stored {
        Some(path) => path,
        None => String::from_str("Unknown path"),
    };
    Hit { path, score_bits }
}

/// The hit made of one result of a searcher: the score as it is, and the
/// path that the document at the address holds, if it holds one.
pub open spec fn hit_from(searcher: tantivy::Searcher, at: ScoredAddress) -> HitView {
    HitView {
        path: path_or_unknown(
            first_text_in(
                document_texts(stored_document(searcher, at.segment, at.doc)),
                PATH_FIELD,
            ),
        ),
        score_bits: at.bits,
    }
}

/// The hits made of the results of a searcher, one for one and in their order.
pub open spec fn hits_from(searcher: tantivy::Searcher, top: Seq<ScoredAddress>) -> Seq<HitView> {
    top.map_values(|at: ScoredAddress| hit_from(searcher, at))
}

impl TextIndex {
    /// What the parser of this index makes of a keyword, read as a query on
    /// the content: `None` where the keyword is no query.
    pub open spec fn query_of(&self, keyword: Seq<char>) -> Option<ParsedQuery> {
        parsed_of(parser_of(self.engine(), CONTENT_FIELD), keyword)
    }

    /// The hits are what a searcher of this index finds for the keyword: its
    /// `TOP_K` best results for the query that the keyword parses to, each
    /// with its score and the path of its document. Of two results with the
    /// same score, the one that the searcher holds at the lower address comes
    /// first.
    pub open spec fn finds(&self, keyword: Seq<char>, hits: Seq<HitView>) -> bool {
        self.query_of(keyword) matches Some(query) && exists|searcher: tantivy::Searcher|
            #![trigger searcher_index(searcher)]
            searcher_index(searcher) == self.engine() && ties_by_address(
                top_of(searcher, query, TOP_K as nat),
            ) && hits == hits_from(searcher, top_of(searcher, query, TOP_K as nat))
    }

    /// Answers a keyword with the best hits, at most `TOP_K` of them, best
    /// first.
    ///
    /// A blank keyword is turned down before the index is touched. Any other
    /// is handed to the parser of this index as a query on the content; where
    /// it is no query, the search fails with the parser's words. The query is
    /// run in a searcher of this index, and each result becomes a hit with the
    /// path that its document holds. A query that matches nothing gives an
    /// empty list, which is no error. Which documents match, and whether the
    /// engine fails on the way, is the engine's to decide.
    pub fn search(&self, keyword: &str) -> (found: Result<Vec<Hit>, QueryError>)
        ensures
            blank(keyword@) <==> found matches Err(QueryError::EmptyKeyword),
            found matches Err(QueryError::ParseFailed(_)) <==> !blank(keyword@) && self.query_of(
                keyword@,
            ) is None,
            found matches Ok(hits) ==> self.finds(keyword@, hits_of(hits@)),
            found matches Ok(hits) ==> hits@.len() <= TOP_K && best_first(
                hit_scores(hits_of(hits@)),
            ),
    {
        if is_blank(keyword) {
            return Err(QueryError::EmptyKeyword);
        }
        let index = self.engine_index();
        let parser = query_parser(index, CONTENT_FIELD);
        let query = match parse_query(&parser, keyword) {
            Ok(query) => query,
            Err(e) => {
                return Err(QueryError::ParseFailed(e.to_string()));
            },
        };
        let reader = match open_reader(index) {
            Ok(reader) => reader,
            Err(e) => {
                return Err(QueryError::ExecutionFailed(e.to_string()));
            },
        };
        let searcher = searcher_of(&reader);
        let top: Vec<ScoredAddress> = match search_top(&searcher, &query, TOP_K) {
            Ok(top) => top,
            Err(e) => {
                return Err(QueryError::ExecutionFailed(e.to_string()));
            },
        };
        let mut hits: Vec<Hit> = Vec::new();
        let mut i: usize = 0;
        while i < top.len()
            invariant
                !blank(keyword@),
                self.query_of(keyword@) is Some,
                i <= top.len(),
                hits@.len() == i,
                forall|k: int| 0 <= k < i ==> (#[trigger] hits@[k])@ == hit_from(searcher, top@[k]),
                forall|k: int|
                    0 <= k < top@.len() ==> searcher_addresses(searcher).contains(
                        ((#[trigger] top@[k]).segment, top@[k].doc),
                    ),
            decreases top.len() - i,
        {
            let at = top[i];
            let document = match fetch_document(&searcher, at.segment, at.doc) {
                Ok(document) => document,
                Err(e) => {
                    return Err(QueryError::ExecutionFailed(e.to_string()));
                },
            };
            hits.push(resolve_hit(at.bits, first_text(&document, PATH_FIELD)));
            i += 1;
        }
        assert(hit_scores(hits_of(hits@)) =~= scores_of(top@));
        assert(hits_of(hits@) =~= hits_from(searcher, top@));
        assert(searcher_index(searcher) == self.engine());
        Ok(hits)
    }
}

} // verus!
