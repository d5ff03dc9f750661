use tw_rs::gh::merge_description::{
    collect_acks, comment_entries, describe_merge, find_ack_line, head_abbrev, pr_body_from_json,
    review_entries, tree_digest, tree_files, MergeDescriptionError,
};
use tw_rs::git::GitCommit;
use tw_rs::run::merge_description::describe_merge as describe_merge_plain;

const HEAD: &str = "abcdef0123456789abcdef0123456789abcdef01";
const EMPTY_SHA512: &str = "cf83e1357eefb8bdf1542850d66d8007d620e4050b5715dc83f4a921d36ce9ce47d0d13c5d85f2b0ff8318d2877eec2f63b931bd47417a81a538327af927da3e";

fn entry(body: Option<&str>, author: Option<&str>) -> (Option<String>, Option<String>) {
    (body.map(|s| s.to_string()), author.map(|s| s.to_string()))
}

#[test]
fn abbreviation_is_six_characters() {
    let c = GitCommit::from_str(HEAD).unwrap();
    assert_eq!(head_abbrev(&c), "abcdef");
}

#[test]
fn ack_lines_skip_quotes_and_code() {
    assert_eq!(find_ack_line("> ACK abcdef\nACK abcdef", "abcdef"), Some("ACK abcdef".to_string()));
    assert_eq!(find_ack_line("    ACK abcdef\n", "abcdef"), None);
    assert_eq!(find_ack_line("ACK 123456", "abcdef"), None);
    assert_eq!(find_ack_line("looks good\r\nutACK abcdef, nice\n", "abcdef"), Some("utACK abcdef, nice".to_string()));
}

#[test]
fn acks_one_per_comment_and_one_per_review_author() {
    let comments = vec![
        entry(Some("ACK abcdef\nACK abcdef again"), Some("alice")),
        entry(Some("no ack here"), Some("bob")),
        entry(Some("ACK abcdef"), None),
        entry(Some("tACK abcdef"), Some("alice")),
    ];
    let reviews = vec![
        entry(Some("ACK abcdef from review"), Some("alice")),
        entry(Some("ACK abcdef"), Some("carol")),
        entry(Some("ACK abcdef twice"), Some("carol")),
    ];
    let acks = collect_acks(&comments, &reviews, "abcdef");
    assert_eq!(
        acks,
        vec![
            ("alice".to_string(), "ACK abcdef".to_string()),
            ("alice".to_string(), "tACK abcdef".to_string()),
            ("carol".to_string(), "ACK abcdef".to_string()),
        ]
    );
}

#[test]
fn tree_listing_sorted_with_blobs() {
    let out = "100644 blob 1111\tsrc/main.rs\n040000 tree 2222\tsrc\n100644 blob 3333\tCargo.toml\n160000 commit 4444\tsub\nbogus line\n";
    assert_eq!(
        tree_files(out),
        vec![
            ("Cargo.toml".to_string(), "3333".to_string()),
            ("src/main.rs".to_string(), "1111".to_string()),
        ]
    );
}

#[test]
fn tree_listing_takes_last_blob_of_a_path() {
    let out = "100644 blob aaaa\tx\n100644 blob bbbb\tx\n";
    assert_eq!(
        tree_files(out),
        vec![("x".to_string(), "bbbb".to_string()), ("x".to_string(), "bbbb".to_string())]
    );
}

#[test]
fn tree_digest_hashes_file_lines() {
    let files = vec![
        ("a.txt".to_string(), b"hello\n".to_vec()),
        ("b/c.rs".to_string(), Vec::new()),
    ];
    assert_eq!(
        tree_digest(&files),
        "b6d79fed3673d5b0cbaf20d1e2dc9784b4d9b106670214e45fe9651c7e0ffe3ff9f3bf356098d82d04864a62241f8aaefac86ae1f20f0e437b11e8a587199804"
    );
    assert_eq!(tree_digest(&Vec::new()), EMPTY_SHA512);
    assert_eq!(
        tree_digest(&vec![("\u{e9}".to_string(), Vec::new())]),
        "f6e378916132ee99bef3933807b266389cf1756a931a69fcc61ac1e062533b0c1200fd2cc03f5a5ad87ad5decb230f2dc3b431e2c6c0be27409922d8dc115aeb"
    );
}

#[test]
fn description_in_github_form() {
    let acks = vec![("alice".to_string(), "ACK abcdef".to_string())];
    let d = describe_merge(
        "org.repo",
        12,
        "Fix it",
        "abc Fix (Alice)",
        "  First line\r\nSecond line\n",
        &acks,
        "ffff",
    );
    assert_eq!(
        d,
        "Merge org/repo#12: Fix it\n\nabc Fix (Alice)\n\nPull request description:\n\n  First line\n  Second line\n\n\nACKs for top commit:\n  alice:\n    ACK abcdef\n\n\nTree-SHA512: ffff"
    );
}

#[test]
fn description_without_title_body_or_acks() {
    let d = describe_merge("org.repo", 3, "", "list", "", &Vec::new(), "00");
    assert_eq!(d, "Merge org/repo#3\n\nlist\n\nTop commit has no ACKs.\n\n\nTree-SHA512: 00");
}

#[test]
fn description_as_the_ci_loop_writes_it() {
    let d = describe_merge_plain("org.repo", 3, "T", "list", "a\r\nb", &Vec::new(), "00");
    assert_eq!(
        d,
        "Merge org.repo#3: T\n\nlist\n\nPull request description:\n\n  a\r\n  b\n\n\nTop commit has no ACKs.\n\n\nTree-SHA512: 00"
    );
}

#[test]
fn merge_description_error_messages() {
    let e = MergeDescriptionError::ParseCommitId("zz".to_string(), GitCommit::from_str("zz").unwrap_err());
    assert_eq!(e.to_string(), "failed to parse commit ID zz");
}

#[test]
fn comments_are_read_from_gh_json() {
    let text = r#"{"comments":[{"body":"ACK abcdef","author":{"login":"bob"}},{"body":7,"author":{"login":"eve"}},{"author":{}}]}"#;
    let got = comment_entries(12, text).unwrap();
    assert_eq!(
        got,
        vec![entry(Some("ACK abcdef"), Some("bob")), entry(None, Some("eve")), entry(None, None)]
    );
    let acks = collect_acks(&got, &Vec::new(), "abcdef");
    assert_eq!(acks, vec![("bob".to_string(), "ACK abcdef".to_string())]);
}

#[test]
fn missing_comment_array_reads_as_none() {
    assert_eq!(comment_entries(12, r#"{"other":1}"#).unwrap(), Vec::new());
    assert_eq!(comment_entries(12, r#"{"comments":"no"}"#).unwrap(), Vec::new());
}

#[test]
fn text_that_is_not_json_is_refused() {
    assert!(matches!(
        comment_entries(12, "not json"),
        Err(MergeDescriptionError::ParseCommentsJson(12, _))
    ));
    assert!(matches!(
        review_entries(13, "{"),
        Err(MergeDescriptionError::ParseReviewsJson(13, _))
    ));
    assert!(matches!(
        pr_body_from_json(14, ""),
        Err(MergeDescriptionError::ParsePrBodyJson(14, _))
    ));
}

#[test]
fn reviews_are_read_from_gh_json() {
    let text = r#"{"reviews":[{"body":"tACK abcdef","author":{"login":"carol"}}]}"#;
    assert_eq!(review_entries(5, text).unwrap(), vec![entry(Some("tACK abcdef"), Some("carol"))]);
}

#[test]
fn pr_body_is_read_or_empty() {
    assert_eq!(pr_body_from_json(1, r#"{"body":"Fixes things.\r\n"}"#).unwrap(), "Fixes things.\r\n");
    assert_eq!(pr_body_from_json(1, r#"{"body":null}"#).unwrap(), "");
    assert_eq!(pr_body_from_json(1, r#"{}"#).unwrap(), "");
}
