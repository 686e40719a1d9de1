use std::time::Duration;

use crowley::crwl::{fetch_error, spawn_hint, CrwlRunner, FetchOutput, FetchRequest};

fn request(url: &str) -> FetchRequest {
    FetchRequest {
        url: url.into(),
        output: None,
        profile: None,
        browser_config: None,
        crawler_config: None,
        deep_crawl: None,
        max_pages: None,
        question: None,
        output_file: None,
        bypass_cache: false,
        verbose: false,
        extra_args: vec![],
    }
}

fn output(stderr: &str, status: Option<i32>, timed_out: bool) -> FetchOutput {
    FetchOutput { stdout: String::new(), stderr: stderr.into(), status, timed_out }
}

#[test]
fn crawl_args_pass_browser_and_crawler_configs() {
    let req = FetchRequest {
        output: Some("markdown".into()),
        browser_config: Some("/tmp/browser.yaml".into()),
        crawler_config: Some("/tmp/crawler.yaml".into()),
        ..request("https://example.com")
    };
    let argv = req.crawl_args();
    assert_eq!(argv[0], "crawl");
    let joined = argv.join("\n");
    assert!(joined.contains("-B\n/tmp/browser.yaml"));
    assert!(joined.contains("-C\n/tmp/crawler.yaml"));
    assert_eq!(argv.last().map(String::as_str), Some("https://example.com"));
}

#[test]
fn crawl_args_default_to_markdown() {
    let argv = request("https://example.com").crawl_args();
    assert_eq!(argv, vec!["crawl", "-o", "markdown", "https://example.com"]);
}

#[test]
fn crawl_args_full_request_in_order() {
    let req = FetchRequest {
        url: "https://example.org/page".into(),
        output: Some("json".into()),
        profile: Some("work".into()),
        browser_config: Some("b.yaml".into()),
        crawler_config: Some("c.yaml".into()),
        deep_crawl: Some("bfs".into()),
        max_pages: Some(25),
        question: Some("what is this page about?".into()),
        output_file: Some("/tmp/out.md".into()),
        bypass_cache: true,
        verbose: true,
        extra_args: vec!["--x".into(), "1".into()],
    };
    assert_eq!(
        req.crawl_args(),
        vec![
            "crawl", "--x", "1", "-o", "json", "-p", "work", "-B", "b.yaml", "-C", "c.yaml",
            "--deep-crawl", "bfs", "--max-pages", "25", "-q", "what is this page about?", "-O",
            "/tmp/out.md", "-bc", "-v", "https://example.org/page",
        ]
    );
}

#[test]
fn runner_keeps_binary_and_timeout() {
    let runner = CrwlRunner::new("/usr/bin/crwl".into(), Duration::from_secs(10));
    assert_eq!(runner.bin(), "/usr/bin/crwl");
    assert_eq!(runner.timeout(), Duration::from_secs(10));
}

#[test]
fn spawn_hint_names_binary_and_url() {
    assert_eq!(
        spawn_hint("crwl", "https://a.b"),
        "failed to spawn `crwl` while fetching `https://a.b` — is the crwl binary installed and on PATH?"
    );
}

#[test]
fn fetch_error_timed_out() {
    let out = output("", None, true);
    assert_eq!(fetch_error(&out, "https://a.b"), "crwl timed out while fetching `https://a.b`");
}

#[test]
fn fetch_error_exit_status_with_stderr() {
    let out = output("  boom: page not found \n", Some(2), false);
    assert_eq!(
        fetch_error(&out, "https://a.b"),
        "crwl exited with status 2 while fetching `https://a.b`: boom: page not found"
    );
}

#[test]
fn fetch_error_negative_status_and_terminated() {
    let out = output("", Some(-1), false);
    assert_eq!(fetch_error(&out, "u"), "crwl exited with status -1 while fetching `u`");
    let out = output("\n", None, false);
    assert_eq!(fetch_error(&out, "u"), "crwl was terminated while fetching `u`");
}

#[test]
fn fetch_error_quotes_at_most_2000_bytes() {
    let long = "x".repeat(2500);
    let out = output(&long, Some(1), false);
    let message = fetch_error(&out, "u");
    let expected = format!("crwl exited with status 1 while fetching `u`: {}", "x".repeat(2000));
    assert_eq!(message, expected);
}

#[test]
fn fetch_error_trims_cut_excerpt() {
    let stderr = format!("{} tail", "y".repeat(1999));
    let out = output(&stderr, Some(1), false);
    let message = fetch_error(&out, "u");
    assert_eq!(message, format!("crwl exited with status 1 while fetching `u`: {}", "y".repeat(1999)));
}

#[test]
fn fetch_error_cuts_excerpt_at_character_boundary() {
    let even = "é".repeat(1500);
    let message = fetch_error(&output(&even, Some(1), false), "u");
    assert_eq!(message, format!("crwl exited with status 1 while fetching `u`: {}", "é".repeat(1000)));
    let odd = format!("a{}", "é".repeat(1500));
    let message = fetch_error(&output(&odd, Some(1), false), "u");
    assert_eq!(message, format!("crwl exited with status 1 while fetching `u`: a{}", "é".repeat(999)));
}

#[test]
fn runner_clone_keeps_binary_and_timeout() {
    let runner = CrwlRunner::new("crwl".into(), Duration::from_secs(3));
    let copy = runner.clone();
    assert_eq!(copy.bin(), "crwl");
    assert_eq!(copy.timeout(), Duration::from_secs(3));
}
