use keyword_search::classify::binary_extension_list;
use keyword_search::classify::classify;
use keyword_search::classify::classify_sample;
use keyword_search::classify::classify_sample_given;
use keyword_search::classify::has_binary_extension;
use keyword_search::classify::is_binary_extension;
use keyword_search::classify::sample;
use keyword_search::classify::tally;
use keyword_search::classify::BinaryCause;
use keyword_search::classify::Verdict;
use keyword_search::classify::SAMPLE_LIMIT;

#[test]
fn plain_text_is_text() {
    let content = b"the quick brown fox\n";
    assert_eq!(classify(Some("txt"), Some(&content[..])), Verdict::Text);
    assert_eq!(classify(None, Some(&content[..])), Verdict::Text);
}

#[test]
fn utf8_text_with_few_ascii_bytes_is_text() {
    let content = "日本語のテキスト".as_bytes();
    assert!(content.iter().all(|b| *b > 127));
    assert_eq!(classify(Some("md"), Some(content)), Verdict::Text);
}

#[test]
fn listed_extension_is_binary_whatever_the_content() {
    let content = b"the quick brown fox\n";
    assert_eq!(
        classify(Some("png"), Some(&content[..])),
        Verdict::Binary(BinaryCause::Extension)
    );
    assert_eq!(classify(Some("pdf"), None), Verdict::Binary(BinaryCause::Extension));
}

#[test]
fn extension_is_compared_in_lower_case() {
    let content = b"plain words";
    assert_eq!(
        classify(Some("PNG"), Some(&content[..])),
        Verdict::Binary(BinaryCause::Extension)
    );
    assert_eq!(
        classify(Some("Jpeg"), Some(&content[..])),
        Verdict::Binary(BinaryCause::Extension)
    );
    assert!(has_binary_extension(Some("SQLite")));
    assert!(!has_binary_extension(Some("TXT")));
    assert!(!has_binary_extension(None));
}

#[test]
fn lookup_takes_the_extension_as_it_is() {
    assert!(is_binary_extension("exe"));
    assert!(is_binary_extension("class"));
    assert!(is_binary_extension("7z"));
    assert!(!is_binary_extension("EXE"));
    assert!(!is_binary_extension("txt"));
    assert!(!is_binary_extension(""));
    assert!(!is_binary_extension("ex"));
}

#[test]
fn the_list_has_forty_five_extensions() {
    let list = binary_extension_list();
    assert_eq!(list.len(), 45);
    assert_eq!(list[0], "exe");
    assert_eq!(list[44], "class");
    for name in list.iter() {
        assert!(is_binary_extension(name));
    }
}

#[test]
fn unreadable_file_is_binary() {
    assert_eq!(classify(Some("txt"), None), Verdict::Binary(BinaryCause::Unreadable));
}

#[test]
fn empty_file_is_binary() {
    let content: [u8; 0] = [];
    assert_eq!(classify(Some("txt"), Some(&content[..])), Verdict::Binary(BinaryCause::Empty));
    assert_eq!(classify_sample(&content[..]), Verdict::Binary(BinaryCause::Empty));
}

#[test]
fn zero_byte_is_binary() {
    let content = b"some text\0more text";
    assert_eq!(
        classify(Some("txt"), Some(&content[..])),
        Verdict::Binary(BinaryCause::NulByte)
    );
    assert_eq!(classify(None, Some(&content[..])), Verdict::Binary(BinaryCause::NulByte));
    assert!(matches!(classify(Some("png"), Some(&content[..])), Verdict::Binary(_)));
}

#[test]
fn zero_byte_past_the_sample_is_not_seen() {
    let mut content = vec![b'a'; SAMPLE_LIMIT];
    content.push(0);
    assert_eq!(classify(Some("txt"), Some(&content[..])), Verdict::Text);
    let mut early = vec![b'a'; SAMPLE_LIMIT];
    early[SAMPLE_LIMIT - 1] = 0;
    assert_eq!(
        classify(Some("txt"), Some(&early[..])),
        Verdict::Binary(BinaryCause::NulByte)
    );
}

#[test]
fn sample_is_the_first_bytes() {
    assert_eq!(SAMPLE_LIMIT, 8192);
    let short = vec![7u8; 100];
    assert_eq!(sample(&short[..]), &short[..]);
    let exact = vec![7u8; 8192];
    assert_eq!(sample(&exact[..]).len(), 8192);
    let mut long = vec![7u8; 9000];
    long[8191] = 1;
    long[8192] = 2;
    let head = sample(&long[..]);
    assert_eq!(head.len(), 8192);
    assert_eq!(head[8191], 1);
}

#[test]
fn three_tenths_of_control_bytes_are_still_text() {
    let content = [1u8, 2, 3, b'a', b'b', b'c', b'd', b'e', b'f', b'g'];
    assert_eq!(classify(Some("txt"), Some(&content[..])), Verdict::Text);
}

#[test]
fn more_than_three_tenths_of_control_bytes_are_binary() {
    let content = [1u8, 2, 3, 4, b'b', b'c', b'd', b'e', b'f', b'g'];
    assert_eq!(
        classify(Some("txt"), Some(&content[..])),
        Verdict::Binary(BinaryCause::ControlBytes)
    );
}

#[test]
fn tab_line_feed_and_carriage_return_are_no_control_bytes() {
    let content = [9u8, 10, 13, 9, 10, 13, 9, 10, 13, b'a'];
    assert_eq!(classify(Some("txt"), Some(&content[..])), Verdict::Text);
    let found = tally(&content[..]);
    assert_eq!(found.controls, 0);
    assert_eq!(found.ascii, 10);
    assert!(!found.has_nul);
}

#[test]
fn tally_counts_each_kind() {
    let content = [0u8, 1, 31, 32, 9, 127, 128, 255, b'x', 27];
    let found = tally(&content[..]);
    assert!(found.has_nul);
    assert_eq!(found.controls, 4);
    assert_eq!(found.ascii, 8);
    let nothing = tally(&[]);
    assert!(!nothing.has_nul);
    assert_eq!(nothing.controls, 0);
    assert_eq!(nothing.ascii, 0);
}

#[test]
fn four_fifths_ascii_pass_without_being_utf8() {
    let content = [b'a', b'b', b'c', b'd', b'e', b'f', b'g', b'h', 0xff, 0xfe];
    assert!(std::str::from_utf8(&content[..]).is_err());
    assert_eq!(classify(Some("txt"), Some(&content[..])), Verdict::Text);
}

#[test]
fn less_than_four_fifths_ascii_without_utf8_is_binary() {
    let content = [b'a', b'b', b'c', b'd', b'e', b'f', b'g', 0xfd, 0xff, 0xfe];
    assert_eq!(
        classify(Some("txt"), Some(&content[..])),
        Verdict::Binary(BinaryCause::Encoding)
    );
}

#[test]
fn sample_cut_inside_a_character_falls_back_to_the_ascii_share() {
    let mut content = Vec::new();
    while content.len() < 9000 {
        content.extend_from_slice("語".as_bytes());
    }
    assert!(std::str::from_utf8(&content[..]).is_ok());
    assert!(std::str::from_utf8(&content[..8192]).is_err());
    assert_eq!(
        classify(Some("txt"), Some(&content[..])),
        Verdict::Binary(BinaryCause::Encoding)
    );
}

#[test]
fn verdict_given_follows_the_flag_only_at_the_last_step() {
    let high = [0xe8u8, 0xaa, 0x9e];
    assert_eq!(classify_sample_given(&high[..], true), Verdict::Text);
    assert_eq!(
        classify_sample_given(&high[..], false),
        Verdict::Binary(BinaryCause::Encoding)
    );
    let nul = [b'a', 0];
    assert_eq!(classify_sample_given(&nul[..], true), Verdict::Binary(BinaryCause::NulByte));
    let none: [u8; 0] = [];
    assert_eq!(classify_sample_given(&none[..], true), Verdict::Binary(BinaryCause::Empty));
    let controls = [1u8, 2, b'a'];
    assert_eq!(
        classify_sample_given(&controls[..], true),
        Verdict::Binary(BinaryCause::ControlBytes)
    );
}

#[test]
fn sample_verdict_checks_utf8_itself() {
    let broken = [0xc3u8, 0x28, 0xa0, 0xa1];
    assert_eq!(classify_sample(&broken[..]), Verdict::Binary(BinaryCause::Encoding));
    let fine = "é(".as_bytes();
    assert_eq!(classify_sample(fine), Verdict::Text);
}
