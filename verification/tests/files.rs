use lib_ime::files::{
    check_url, copy_name, is_hidden_name, export_dialog, is_corpus_name, is_markdown_name, markdown_listing,
    next_copy_attempt, FileMeta, RawEntry, MAX_COPY_ATTEMPTS,
};

fn file(name: &str, size: u64) -> RawEntry {
    RawEntry {
        name: name.to_string(),
        path: format!("/w/{name}"),
        is_dir: false,
        is_file: true,
        meta: Ok(FileMeta { size, modified_ms: 7 }),
    }
}

fn dir(name: &str) -> RawEntry {
    RawEntry {
        name: name.to_string(),
        path: format!("/w/{name}"),
        is_dir: true,
        is_file: false,
        meta: Err("unused".to_string()),
    }
}

#[test]
fn listing_puts_folders_first_then_sorts_case_insensitively() {
    let raws = vec![
        file("beta.md", 1),
        dir("Zeta"),
        file("Alpha.MD", 2),
        dir("alpha"),
        file("notes.txt", 3),
        file(".hidden.md", 4),
        dir(".git"),
        file("gamma.markdown", 5),
    ];
    let out = markdown_listing(raws).unwrap();
    let names: Vec<&str> = out.iter().map(|e| e.name.as_str()).collect();
    assert_eq!(names, vec!["alpha", "Zeta", "Alpha.MD", "beta.md", "gamma.markdown"]);
    assert_eq!(out[0].kind, "dir");
    assert_eq!(out[0].size, 0);
    assert_eq!(out[2].kind, "file");
    assert_eq!(out[2].size, 2);
    assert_eq!(out[2].modified_ms, 7);
    assert_eq!(out[2].path, "/w/Alpha.MD");
}

#[test]
fn listing_keeps_directory_order_for_equal_names() {
    let raws = vec![file("a.md", 1), file("A.md", 2)];
    let out = markdown_listing(raws).unwrap();
    assert_eq!(out[0].size, 1);
    assert_eq!(out[1].size, 2);
}

#[test]
fn listing_fails_on_unreadable_markdown_metadata() {
    let mut bad = file("b.md", 0);
    bad.meta = Err("permission denied".to_string());
    let mut ignored = file("c.txt", 0);
    ignored.meta = Err("not looked at".to_string());
    let raws = vec![file("a.md", 1), ignored, bad];
    assert_eq!(markdown_listing(raws).unwrap_err(), "permission denied");
}

#[test]
fn listing_skips_special_files() {
    let mut fifo = file("pipe.md", 0);
    fifo.is_file = false;
    let out = markdown_listing(vec![fifo, file("", 0)]).unwrap();
    assert!(out.is_empty());
}

#[test]
fn markdown_and_corpus_extensions() {
    assert!(is_markdown_name("a.md"));
    assert!(is_markdown_name("a.MarkDown"));
    assert!(is_markdown_name("x.y.mdx"));
    assert!(!is_markdown_name("a.txt"));
    assert!(!is_markdown_name(".md"));
    assert!(!is_markdown_name("md"));
    assert!(is_corpus_name("notes.TXT"));
    assert!(is_corpus_name("notes.md"));
    assert!(!is_corpus_name("notes.rs"));
}

#[test]
fn url_allow_list() {
    assert!(check_url("https://example.com").is_ok());
    assert!(check_url("http://example.com").is_ok());
    assert!(check_url("mailto:me@example.com").is_ok());
    assert_eq!(check_url("file:///etc/passwd").unwrap_err(), "unsupported url scheme");
    assert_eq!(check_url("javascript:alert(1)").unwrap_err(), "unsupported url scheme");
}

#[test]
fn copy_names_count_up() {
    let n = Some("report.md".to_string());
    assert_eq!(copy_name(&n, 1), "report (복사).md");
    assert_eq!(copy_name(&n, 2), "report (복사 2).md");
    assert_eq!(copy_name(&n, 17), "report (복사 17).md");
    assert_eq!(copy_name(&Some("archive.tar.gz".to_string()), 1), "archive.tar (복사).gz");
    assert_eq!(copy_name(&Some("README".to_string()), 1), "README (복사).md");
    assert_eq!(copy_name(&Some(".env".to_string()), 3), ".env (복사 3).md");
    assert_eq!(copy_name(&None, 1), "file (복사).md");
}

#[test]
fn copy_attempts_stop_at_the_limit() {
    assert_eq!(next_copy_attempt(1), Some(2));
    assert_eq!(next_copy_attempt(MAX_COPY_ATTEMPTS - 1), Some(MAX_COPY_ATTEMPTS));
    assert_eq!(next_copy_attempt(MAX_COPY_ATTEMPTS), None);
}

#[test]
fn export_formats() {
    let d = export_dialog("md").unwrap();
    assert_eq!(d.filter_name, "Markdown");
    assert_eq!(d.extensions, vec!["md", "markdown", "mdx"]);
    let d = export_dialog("html").unwrap();
    assert_eq!(d.title, "HTML 로 내보내기");
    assert_eq!(d.extensions, vec!["html", "htm"]);
    assert_eq!(export_dialog("pdf").unwrap_err(), "unsupported export format: pdf");
}

#[test]
fn hidden_names() {
    assert!(is_hidden_name(".git"));
    assert!(is_hidden_name(""));
    assert!(!is_hidden_name("notes.md"));
    assert!(!is_hidden_name("a.b"));
}
