//! The words in which a search is answered.

use crate::classify::binary_extension_list;
use crate::classify::binary_extensions;
use crate::corpus::DirectoryError;
use crate::engine::decimals;
use crate::engine::decimals_of;
use crate::index::IndexError;
use crate::query::hits_of;
use crate::query::Hit;
use crate::query::HitView;
use crate::query::QueryError;
use crate::text::decimal_of;
use crate::text::decimal_text;
use crate::tool::SearchError;
use crate::tool::SearchOutcome;
use vstd::prelude::*;

verus! {

/// How many decimal places a score is written with.
pub const SCORE_PLACES: usize = 2;

/// A name between double quotes.
pub open spec fn quoted(name: Seq<char>) -> Seq<char> {
    "\""@ + name + "\""@
}

/// Names, each between double quotes, with a comma and a space between two.
pub open spec fn listed(names: Seq<Seq<char>>) -> Seq<char>
    decreases names.len(),
{
    if names.len() == 0 {
        Seq::empty()
    } else if names.len() == 1 {
        quoted(names[0])
    } else {
        listed(names.drop_last()) + ", "@ + quoted(names.last())
    }
}

/// The list of binary extensions, as it is shown to the user.
pub open spec fn extension_hint_of() -> Seq<char> {
    "["@ + listed(binary_extensions()) + "]"@
}

/// What is said where no file could be indexed.
pub open spec fn nothing_indexed_of(directory: Seq<char>, found: nat, skipped: nat) -> Seq<char> {
    "No text files suitable for indexing were found in the specified directory '"@ + directory
        + "'.\nFound files: "@ + decimal_of(found) + ", Skipped: "@ + decimal_of(skipped)
        + "\nSupported extensions: "@ + extension_hint_of()
}

/// The line of one hit: its path, and its score as it is written.
pub open spec fn hit_line_of(path: Seq<char>, score: Seq<char>) -> Seq<char> {
    "Hit: "@ + path + " (Score: "@ + score + ")\n"@
}

/// The lines of the hits, in their order.
pub open spec fn hit_lines_of(hits: Seq<HitView>) -> Seq<char>
    decreases hits.len(),
{
    if hits.len() == 0 {
        Seq::empty()
    } else {
        hit_lines_of(hits.drop_last()) + hit_line_of(
            hits.last().path,
            decimals_of(hits.last().score_bits, SCORE_PLACES as nat),
        )
    }
}

/// What is said of a query that ran: the hits under a header that counts
/// them, or that there are none.
pub open spec fn results_of(hits: Seq<HitView>, keyword: Seq<char>, indexed: nat) -> Seq<char> {
    if hits.len() == 0 {
        "No search results for keyword '"@ + keyword + "'. Number of indexed files: "@
            + decimal_of(indexed)
    } else {
        "Search results ("@ + decimal_of(hits.len()) + " hits):\n"@ + hit_lines_of(hits)
    }
}

/// What is said of a search that went through.
pub open spec fn outcome_text_of(
    outcome: SearchOutcome,
    directory: Seq<char>,
    keyword: Seq<char>,
) -> Seq<char> {
    match outcome {
        SearchOutcome::NothingIndexed { found, skipped } => nothing_indexed_of(
            directory,
            found as nat,
            skipped as nat,
        ),
        SearchOutcome::Searched { hits, indexed } => results_of(
            hits_of(hits@),
            keyword,
            indexed as nat,
        ),
    }
}

/// What is said of a search that failed: which stage failed, and why.
pub open spec fn failure_text_of(error: SearchError, directory: Seq<char>) -> Seq<char> {
    match error {
        SearchError::Directory(DirectoryError::NotADirectory) => "The specified path '"@
            + directory + "' is not a directory"@,
        SearchError::Index(IndexError::WriterInit(cause)) => "Index writer error: "@ + cause@,
        SearchError::Index(IndexError::AddFailed(cause)) => "Document addition error: "@ + cause@,
        SearchError::Index(IndexError::CommitFailed(cause)) => "Commit error: "@ + cause@,
        SearchError::Query(QueryError::EmptyKeyword) =>
            "Search keyword is empty. Please enter a valid keyword."@,
        SearchError::Query(QueryError::ParseFailed(cause)) => "Query parse error: "@ + cause@,
        SearchError::Query(QueryError::ExecutionFailed(cause)) => "Search error: "@ + cause@,
    }
}

/// Writes the list of binary extensions.
pub fn extension_hint() -> (text: String)
    ensures
        text@ == extension_hint_of(),
{
    let list = binary_extension_list();
    let ghost names = binary_extensions();
    let mut text = String::from_str("[");
    let mut i: usize = 0;
    while i < 45
        invariant
            i <= 45,
            names == binary_extensions(),
            names.len() == 45,
            list@.len() == 45,
            forall|k: int| 0 <= k < 45 ==> (#[trigger] list@[k])@ == names[k],
            text@ == "["@ + listed(names.take(i as int)),
        decreases 45 - i,
    {
        if i > 0 {
            text.append(", ");
        }
        text.append("\"");
        text.append(list[i]);
        text.append("\"");
        assert(names.take(i + 1).drop_last() =~= names.take(i as int));
        i += 1;
    }
    assert(names.take(45) =~= names);
    text.append("]");
    text
}

/// Writes what is said where no file could be indexed.
pub fn nothing_indexed_text(directory: &str, found: usize, skipped: usize) -> (text: String)
    ensures
        text@ == nothing_indexed_of(directory@, found as nat, skipped as nat),
{
    let mut text = String::from_str(
        "No text files suitable for indexing were found in the specified directory '",
    );
    text.append(directory);
    text.append("'.\nFound files: ");
    text.append(decimal_text(found).as_str());
    text.append(", Skipped: ");
    text.append(decimal_text(skipped).as_str());
    text.append("\nSupported extensions: ");
    text.append(extension_hint().as_str());
    text
}

/// Writes the line of one hit from its path and its written score.
pub fn hit_line(path: &str, score: &str) -> (line: String)
    ensures
        line@ == hit_line_of(path@, score@),
{
    let mut line = String::from_str("Hit: ");
    line.append(path);
    line.append(" (Score: ");
    line.append(score);
    line.append(")\n");
    line
}

/// Writes what is said of a query that ran.
pub fn results_text(hits: &Vec<Hit>, keyword: &str, indexed: usize) -> (text: String)
    ensures
        text@ == results_of(hits_of(hits@), keyword@, indexed as nat),
{
    let ghost all = hits_of(hits@);
    if hits.len() == 0 {
        let mut text = String::from_str("No search results for keyword '");
        text.append(keyword);
        text.append("'. Number of indexed files: ");
        text.append(decimal_text(indexed).as_str());
        return text;
    }
    let mut text = String::from_str("Search results (");
    text.append(decimal_text(hits.len()).as_str());
    text.append(" hits):\n");
    let ghost header = text@;
    let mut i: usize = 0;
    while i < hits.len()
        invariant
            i <= hits.len(),
            all == hits_of(hits@),
            header == "Search results ("@ + decimal_of(hits@.len()) + " hits):\n"@,
            text@ == header + hit_lines_of(all.take(i as int)),
        decreases hits.len() - i,
    {
        let hit = &hits[i];
        let score = decimals(hit.score_bits, SCORE_PLACES);
        let line = hit_line(hit.path.as_str(), score.as_str());
        text.append(line.as_str());
        assert(all.take(i + 1).drop_last() =~= all.take(i as int));
        i += 1;
    }
    assert(all.take(i as int) =~= all);
    text
}

/// Writes what is said of a search that went through.
pub fn outcome_text(outcome: &SearchOutcome, directory: &str, keyword: &str) -> (text: String)
    ensures
        text@ == outcome_text_of(*outcome, directory@, keyword@),
{
    match outcome {
        SearchOutcome::NothingIndexed { found, skipped } => nothing_indexed_text(
            directory,
            *found,
            *skipped,
        ),
        SearchOutcome::Searched { hits, indexed } => results_text(hits, keyword, *indexed),
    }
}

fn with_cause(stage: &str, cause: &str) -> (text: String)
    ensures
        text@ == stage@ + cause@,
{
    let mut text = String::from_str(stage);
    text.append(cause);
    text
}

/// Writes what is said of a search that failed.
pub fn failure_text(error: &SearchError, directory: &str) -> (text: String)
    ensures
        text@ == failure_text_of(*error, directory@),
{
    match error {
        SearchError::Directory(DirectoryError::NotADirectory) => {
            let mut text = String::from_str("The specified path '");
            text.append(directory);
            text.append("' is not a directory");
            text
        },
        SearchError::Index(IndexError::WriterInit(cause)) => with_cause(
            "Index writer error: ",
            cause.as_str(),
        ),
        SearchError::Index(IndexError::AddFailed(cause)) => with_cause(
            "Document addition error: ",
            cause.as_str(),
        ),
        SearchError::Index(IndexError::CommitFailed(cause)) => with_cause(
            "Commit error: ",
            cause.as_str(),
        ),
        SearchError::Query(QueryError::EmptyKeyword) => String::from_str(
            "Search keyword is empty. Please enter a valid keyword.",
        ),
        SearchError::Query(QueryError::ParseFailed(cause)) => with_cause(
            "Query parse error: ",
            cause.as_str(),
        ),
        SearchError::Query(QueryError::ExecutionFailed(cause)) => with_cause(
            "Search error: ",
            cause.as_str(),
        ),
    }
}

} // verus!
