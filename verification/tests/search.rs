use keyword_search::corpus::Document;
use keyword_search::corpus::FileEntry;
use keyword_search::corpus::Listing;
use keyword_search::index::build;
use keyword_search::index::IndexBuilder;
use keyword_search::index::PlannedIndex;
use keyword_search::query::resolve_hit;
use keyword_search::query::Hit;
use keyword_search::query::QueryError;
use keyword_search::query::TOP_K;
use keyword_search::report::nothing_indexed_text;
use keyword_search::tool::SearchError;
use keyword_search::tool::SearchOutcome;
use keyword_search::SearchParams;
use keyword_search::SearchTool;

fn file(path: &str, content: &str) -> FileEntry {
    FileEntry::new(path.to_string(), Some(content.as_bytes().to_vec()))
}

fn document(path: &str, content: &str) -> Document {
    Document::new(path.to_string(), content.to_string()).unwrap()
}

fn params(directory: &str, keyword: &str) -> SearchParams {
    SearchParams { directory: directory.to_string(), keyword: keyword.to_string() }
}

fn score(hit: &Hit) -> f32 {
    f32::from_bits(hit.score_bits)
}

fn hits_of(answer: Result<SearchOutcome, SearchError>) -> (Vec<Hit>, usize) {
    match answer {
        Ok(SearchOutcome::Searched { hits, indexed }) => (hits, indexed),
        other => panic!("not searched: {:?}", other),
    }
}

#[test]
fn scenario_one_file_one_hit() {
    let listing = Listing::Directory(vec![file("notes.txt", "the quick brown fox")]);
    let tool = SearchTool::new();
    let (hits, indexed) = hits_of(tool.run(&params("dir", "fox"), &listing));
    assert_eq!(indexed, 1);
    assert_eq!(hits.len(), 1);
    assert_eq!(hits[0].path, "notes.txt");
    assert!(score(&hits[0]) > 0.0);
    let text = tool.search(&params("dir", "fox"), &listing).unwrap();
    assert_eq!(
        text,
        format!("Search results (1 hits):\nHit: notes.txt (Score: {:.2})\n", score(&hits[0]))
    );
}

#[test]
fn scenario_only_an_image() {
    let header = [0x89u8, b'P', b'N', b'G', 0x0d, 0x0a, 0x1a, 0x0a, 0, 0, 0, 0x0d];
    let listing =
        Listing::Directory(vec![FileEntry::new("image.png".to_string(), Some(header.to_vec()))]);
    let tool = SearchTool::new();
    match tool.run(&params("pics", "fox"), &listing) {
        Ok(SearchOutcome::NothingIndexed { found, skipped }) => {
            assert_eq!(found, 1);
            assert_eq!(skipped, 1);
        },
        other => panic!("not the informational answer: {:?}", other),
    }
    let text = tool.search(&params("pics", "fox"), &listing).unwrap();
    assert_eq!(text, nothing_indexed_text("pics", 1, 1));
    assert!(text.starts_with(
        "No text files suitable for indexing were found in the specified directory 'pics'."
    ));
    assert!(text.contains("Found files: 1, Skipped: 1"));
}

#[test]
fn scenario_ten_files_share_one_word() {
    let words = [
        "zero", "one", "two", "three", "four", "five", "six", "seven", "eight", "nine",
    ];
    let files: Vec<FileEntry> = words
        .iter()
        .map(|w| file(&format!("{}.txt", w), &format!("alpha {}", w)))
        .collect();
    let tool = SearchTool::new();
    let (hits, indexed) = hits_of(tool.run(&params("dir", "alpha"), &Listing::Directory(files)));
    assert_eq!(indexed, 10);
    assert_eq!(hits.len(), 10);
    for hit in hits.iter() {
        assert!((score(hit) - score(&hits[0])).abs() < 1e-6);
        assert!(score(hit) > 0.0);
    }
    let mut paths: Vec<String> = hits.iter().map(|h| h.path.clone()).collect();
    paths.sort();
    let mut expected: Vec<String> = words.iter().map(|w| format!("{}.txt", w)).collect();
    expected.sort();
    assert_eq!(paths, expected);
}

#[test]
fn equal_scores_come_in_the_order_of_the_listing() {
    let names = ["m", "c", "x", "a", "q", "b", "z", "k"];
    let files: Vec<FileEntry> =
        names.iter().map(|n| file(&format!("{}.txt", n), &format!("alpha {}", n))).collect();
    let listing = Listing::Directory(files);
    let tool = SearchTool::new();
    for _ in 0..3 {
        let (hits, _) = hits_of(tool.run(&params("dir", "alpha"), &listing));
        let paths: Vec<String> = hits.iter().map(|h| h.path.clone()).collect();
        let expected: Vec<String> = names.iter().map(|n| format!("{}.txt", n)).collect();
        assert_eq!(paths, expected);
    }
}

#[test]
fn scenario_root_is_a_file() {
    let tool = SearchTool::new();
    assert!(matches!(
        tool.run(&params("/etc/hosts", "fox"), &Listing::NotADirectory),
        Err(SearchError::Directory(keyword_search::corpus::DirectoryError::NotADirectory))
    ));
    assert_eq!(
        tool.search(&params("/etc/hosts", "fox"), &Listing::NotADirectory).unwrap_err(),
        "The specified path '/etc/hosts' is not a directory"
    );
}

#[test]
fn blank_keyword_is_turned_down() {
    let index = build(&vec![document("a.txt", "alpha")]).unwrap();
    assert!(matches!(index.search(""), Err(QueryError::EmptyKeyword)));
    assert!(matches!(index.search("   "), Err(QueryError::EmptyKeyword)));
    assert!(matches!(index.search("\t\n"), Err(QueryError::EmptyKeyword)));
    let empty = build(&Vec::new()).unwrap();
    assert!(matches!(empty.search("   "), Err(QueryError::EmptyKeyword)));
    let many: Vec<Document> =
        (0..50).map(|i| document(&format!("{}.txt", i), "alpha beta")).collect();
    let large = build(&many).unwrap();
    assert!(matches!(large.search(""), Err(QueryError::EmptyKeyword)));
}

#[test]
fn blank_keyword_through_the_tool() {
    let listing = Listing::Directory(vec![file("notes.txt", "the quick brown fox")]);
    let tool = SearchTool::new();
    assert!(matches!(
        tool.run(&params("dir", "  "), &listing),
        Err(SearchError::Query(QueryError::EmptyKeyword))
    ));
    assert_eq!(
        tool.search(&params("dir", ""), &listing).unwrap_err(),
        "Search keyword is empty. Please enter a valid keyword."
    );
}

#[test]
fn nothing_indexed_comes_before_the_keyword() {
    let listing = Listing::Directory(vec![file("image.png", "text")]);
    let tool = SearchTool::new();
    assert!(matches!(
        tool.run(&params("dir", ""), &listing),
        Ok(SearchOutcome::NothingIndexed { found: 1, skipped: 1 })
    ));
    assert!(matches!(
        tool.run(&params("dir", "fox"), &Listing::Directory(Vec::new())),
        Ok(SearchOutcome::NothingIndexed { found: 0, skipped: 0 })
    ));
}

#[test]
fn no_match_is_no_error() {
    let listing = Listing::Directory(vec![
        file("notes.txt", "the quick brown fox"),
        file("more.txt", "jumps over the lazy dog"),
    ]);
    let tool = SearchTool::new();
    let (hits, indexed) = hits_of(tool.run(&params("dir", "zebra"), &listing));
    assert!(hits.is_empty());
    assert_eq!(indexed, 2);
    assert_eq!(
        tool.search(&params("dir", "zebra"), &listing).unwrap(),
        "No search results for keyword 'zebra'. Number of indexed files: 2"
    );
}

#[test]
fn every_document_is_found_by_a_word_of_its_own() {
    let corpus = vec![
        document("src/main.rs", "fn main prints greeting"),
        document("docs/guide.md", "install the package first"),
        document("notes/todo.txt", "water the tomato plants"),
    ];
    let index = build(&corpus).unwrap();
    for (word, path) in
        [("greeting", "src/main.rs"), ("package", "docs/guide.md"), ("tomato", "notes/todo.txt")]
    {
        let hits = index.search(word).unwrap();
        assert_eq!(hits.len(), 1);
        assert_eq!(hits[0].path, path);
    }
}

#[test]
fn words_are_found_whatever_their_case() {
    let index = build(&vec![document("a.txt", "The Quick BROWN fox")]).unwrap();
    assert_eq!(index.search("quick").unwrap().len(), 1);
    assert_eq!(index.search("QUICK").unwrap().len(), 1);
    assert_eq!(index.search("brown").unwrap().len(), 1);
}

#[test]
fn words_of_forty_bytes_or_more_are_not_indexed() {
    let long = "a".repeat(40);
    let short = "b".repeat(39);
    let index = build(&vec![document("a.txt", &format!("{} {} end", long, short))]).unwrap();
    assert!(index.search(&long).unwrap().is_empty());
    assert_eq!(index.search(&short).unwrap().len(), 1);
    assert_eq!(index.search("end").unwrap().len(), 1);
}

#[test]
fn path_is_stored_and_not_searched() {
    let index = build(&vec![document("secret/location.txt", "ordinary words")]).unwrap();
    assert!(index.search("location").unwrap().is_empty());
    assert!(index.search("secret").unwrap().is_empty());
    let hits = index.search("ordinary").unwrap();
    assert_eq!(hits[0].path, "secret/location.txt");
    assert!(matches!(index.search("path:secret"), Err(QueryError::ParseFailed(_))));
}

#[test]
fn several_words_match_any_of_them() {
    let index = build(&vec![
        document("fox.txt", "the quick brown fox"),
        document("dog.txt", "the lazy dog"),
        document("cat.txt", "a sleeping cat"),
    ])
    .unwrap();
    let mut paths: Vec<String> =
        index.search("fox dog").unwrap().into_iter().map(|h| h.path).collect();
    paths.sort();
    assert_eq!(paths, vec!["dog.txt", "fox.txt"]);
    let both: Vec<String> =
        index.search("quick AND fox").unwrap().into_iter().map(|h| h.path).collect();
    assert_eq!(both, vec!["fox.txt"]);
    assert!(index.search("quick AND dog").unwrap().is_empty());
}

#[test]
fn quoted_phrase_matches_words_in_a_row() {
    let index = build(&vec![
        document("a.txt", "the quick brown fox"),
        document("b.txt", "the brown quick fox"),
    ])
    .unwrap();
    let hits = index.search("\"quick brown\"").unwrap();
    assert_eq!(hits.len(), 1);
    assert_eq!(hits[0].path, "a.txt");
}

#[test]
fn unknown_field_is_a_parse_failure() {
    let index = build(&vec![document("a.txt", "alpha")]).unwrap();
    match index.search("nosuchfield:alpha") {
        Err(QueryError::ParseFailed(cause)) => assert!(!cause.is_empty()),
        other => panic!("not a parse failure: {:?}", other),
    }
    let listing = Listing::Directory(vec![file("a.txt", "alpha")]);
    let text = SearchTool::new().search(&params("dir", "nosuchfield:alpha"), &listing).unwrap_err();
    assert!(text.starts_with("Query parse error: "));
    assert!(text.len() > "Query parse error: ".len());
}

#[test]
fn at_most_ten_hits_best_first() {
    let mut corpus = Vec::new();
    for i in 0..25 {
        let mut content = String::from("filler words here");
        for _ in 0..(i % 7) {
            content.push_str(" alpha");
        }
        content.push_str(" alpha");
        corpus.push(document(&format!("{}.txt", i), &content));
    }
    let index = build(&corpus).unwrap();
    let hits = index.search("alpha").unwrap();
    assert_eq!(TOP_K, 10);
    assert_eq!(hits.len(), 10);
    for pair in hits.windows(2) {
        assert!(score(&pair[0]) >= score(&pair[1]));
    }
    assert!(score(&hits[0]) > score(&hits[9]));
}

#[test]
fn same_search_twice_gives_the_same() {
    let listing = Listing::Directory(vec![
        file("a.txt", "alpha beta gamma"),
        file("b.txt", "alpha alpha delta"),
        file("c.txt", "epsilon"),
        file("d.bin", "alpha"),
    ]);
    let tool = SearchTool::new();
    let first = tool.search(&params("dir", "alpha"), &listing);
    let second = tool.search(&params("dir", "alpha"), &listing);
    assert_eq!(first, second);
    let (hits, indexed) = hits_of(tool.run(&params("dir", "alpha"), &listing));
    assert_eq!(indexed, 3);
    assert_eq!(hits.len(), 2);
}

#[test]
fn builder_takes_documents_one_by_one() {
    let mut builder = IndexBuilder::open().unwrap();
    builder.add(&document("a.txt", "alpha")).unwrap();
    builder.add(&document("b.txt", "beta")).unwrap();
    let index = builder.commit().unwrap();
    assert_eq!(index.search("alpha").unwrap()[0].path, "a.txt");
    assert_eq!(index.search("beta").unwrap()[0].path, "b.txt");
    assert!(index.search("gamma").unwrap().is_empty());
}

#[test]
fn each_index_stands_alone() {
    let first = build(&vec![document("a.txt", "alpha")]).unwrap();
    let second = build(&vec![document("b.txt", "beta")]).unwrap();
    assert!(first.search("beta").unwrap().is_empty());
    assert!(second.search("alpha").unwrap().is_empty());
    let _ = PlannedIndex::create();
}

#[test]
fn hit_without_a_stored_path() {
    let hit = resolve_hit(0x3f80_0000, None);
    assert_eq!(hit.path, "Unknown path");
    assert_eq!(hit.score_bits, 0x3f80_0000);
    let hit = resolve_hit(7, Some("a/b.txt".to_string()));
    assert_eq!(hit.path, "a/b.txt");
    assert_eq!(hit.score_bits, 7);
}

#[test]
fn tool_is_made_without_arguments() {
    let tool = SearchTool::new();
    let copy = tool.clone();
    assert_eq!(format!("{:?}", copy), "SearchTool");
}
