use crowley::config::{Config, DeepCrawlStrategy, OutputFormat};
use crowley::crwl::{FetchOutput, FetchRequest};
use crowley::server::{
    fetch_step, truncate_at_char_boundary, DeepCrawlChoice, FetchParams, FetchStep, OutputChoice,
};

fn params(url: &str) -> FetchParams {
    FetchParams {
        url: url.into(),
        output: None,
        profile: None,
        browser_config: None,
        crawler_config: None,
        deep_crawl: None,
        max_pages: None,
        question: None,
        output_file: None,
        bypass_cache: None,
        verbose: None,
    }
}

fn output(stdout: &str, stderr: &str, status: Option<i32>, timed_out: bool) -> FetchOutput {
    FetchOutput { stdout: stdout.into(), stderr: stderr.into(), status, timed_out }
}

fn rendered(config: &Config, content: &str, stderr: &str) -> String {
    config
        .render_result(content.into(), output("", stderr, Some(0), false))
        .expect("rendering never fails")
}

#[test]
fn choice_names() {
    assert_eq!(OutputChoice::All.as_str(), "all");
    assert_eq!(OutputChoice::Json.as_str(), "json");
    assert_eq!(OutputChoice::Markdown.as_str(), "markdown");
    assert_eq!(OutputChoice::Md.as_str(), "md");
    assert_eq!(OutputChoice::MarkdownFit.as_str(), "markdown-fit");
    assert_eq!(OutputChoice::MdFit.as_str(), "md-fit");
    assert_eq!(DeepCrawlChoice::Bfs.as_str(), "bfs");
    assert_eq!(DeepCrawlChoice::Dfs.as_str(), "dfs");
    assert_eq!(DeepCrawlChoice::BestFirst.as_str(), "best-first");
}

#[test]
fn tool_name_is_fetch() {
    assert_eq!(Config::default().tool_name(), "fetch");
}

#[test]
fn fetch_timeout_is_at_least_one_second() {
    let mut config = Config::default();
    assert_eq!(config.fetch_timeout_secs(), 60);
    config.timeout_secs = 0;
    assert_eq!(config.fetch_timeout_secs(), 1);
}

#[test]
fn omitted_arguments_fall_back_to_config() {
    let mut config = Config::default();
    config.output_format = OutputFormat::MdFit;
    config.profile = Some("work".into());
    config.browser_config = Some("b.yaml".into());
    config.deep_crawl = Some(DeepCrawlStrategy::Dfs);
    config.max_pages = Some(7);
    config.verbose = true;
    config.extra_args = vec!["--flag".into()];
    let request = config.fetch_request(params("https://example.com"));
    assert_eq!(request.url, "https://example.com");
    assert_eq!(request.output.as_deref(), Some("md-fit"));
    assert_eq!(request.profile.as_deref(), Some("work"));
    assert_eq!(request.browser_config.as_deref(), Some("b.yaml"));
    assert_eq!(request.crawler_config, None);
    assert_eq!(request.deep_crawl.as_deref(), Some("dfs"));
    assert_eq!(request.max_pages, Some(7));
    assert_eq!(request.question, None);
    assert_eq!(request.output_file, None);
    assert!(!request.bypass_cache);
    assert!(request.verbose);
    assert_eq!(request.extra_args, vec!["--flag"]);
}

#[test]
fn given_arguments_win_over_config() {
    let mut config = Config::default();
    config.profile = Some("work".into());
    config.deep_crawl = Some(DeepCrawlStrategy::Dfs);
    config.verbose = true;
    let call = FetchParams {
        output: Some(OutputChoice::Json),
        profile: Some("home".into()),
        deep_crawl: Some(DeepCrawlChoice::BestFirst),
        max_pages: Some(2),
        question: Some("why?".into()),
        output_file: Some("/tmp/x".into()),
        bypass_cache: Some(true),
        verbose: Some(false),
        ..params("u")
    };
    let request = config.fetch_request(call);
    assert_eq!(request.output.as_deref(), Some("json"));
    assert_eq!(request.profile.as_deref(), Some("home"));
    assert_eq!(request.deep_crawl.as_deref(), Some("best-first"));
    assert_eq!(request.max_pages, Some(2));
    assert_eq!(request.question.as_deref(), Some("why?"));
    assert_eq!(request.output_file.as_deref(), Some("/tmp/x"));
    assert!(request.bypass_cache);
    assert!(!request.verbose);
}

#[test]
fn fetch_step_fails_on_error_status_or_timeout() {
    let request = FetchRequest { ..Config::default().fetch_request(params("https://a.b")) };
    match fetch_step(&request, &output("", "oops", Some(3), false)) {
        FetchStep::Failed(m) => assert_eq!(m, "crwl exited with status 3 while fetching `https://a.b`: oops"),
        _ => panic!("expected failure"),
    }
    match fetch_step(&request, &output("content", "", Some(0), true)) {
        FetchStep::Failed(m) => assert_eq!(m, "crwl timed out while fetching `https://a.b`"),
        _ => panic!("expected failure"),
    }
}

#[test]
fn fetch_step_renders_stdout_or_reads_output_file() {
    let config = Config::default();
    let request = config.fetch_request(params("u"));
    match fetch_step(&request, &output("# page", "", Some(0), false)) {
        FetchStep::Render(c) => assert_eq!(c, "# page"),
        _ => panic!("expected render"),
    }
    let request = config.fetch_request(FetchParams { output_file: Some("/tmp/f.md".into()), ..params("u") });
    match fetch_step(&request, &output("", "", Some(0), false)) {
        FetchStep::ReadOutputFile(p) => assert_eq!(p, "/tmp/f.md"),
        _ => panic!("expected file read"),
    }
}

#[test]
fn truncation_respects_char_boundaries() {
    assert_eq!(truncate_at_char_boundary("héllo", 10), "héllo");
    assert_eq!(truncate_at_char_boundary("héllo", 2), "h");
    assert_eq!(truncate_at_char_boundary("héllo", 3), "hé");
    assert_eq!(truncate_at_char_boundary("日本", 2), "");
    assert_eq!(truncate_at_char_boundary("abc", 0), "");
}

#[test]
fn render_plain_content() {
    let config = Config::default();
    assert_eq!(rendered(&config, "hello", "   \n"), "hello");
}

#[test]
fn render_appends_trimmed_stderr() {
    let config = Config::default();
    assert_eq!(rendered(&config, "hello", "\n warn: slow \n"), "hello\n\n[crwl stderr]\nwarn: slow");
}

#[test]
fn render_truncates_to_cap_with_note() {
    let mut config = Config::default();
    config.max_output_chars = 60;
    let content = "a".repeat(100);
    let text = rendered(&config, &content, "");
    assert_eq!(text, format!("{}\n\n[truncated: showing 17 of 100 characters]", "a".repeat(17)));
    assert_eq!(text.chars().count(), 60);
}

#[test]
fn render_without_room_for_note_keeps_prefix() {
    let mut config = Config::default();
    config.max_output_chars = 4;
    assert_eq!(rendered(&config, "abcdefgh", ""), "abcd");
}

#[test]
fn render_cap_is_at_least_one() {
    let mut config = Config::default();
    config.max_output_chars = 0;
    assert_eq!(rendered(&config, "xyz", ""), "x");
}

#[test]
fn render_cap_counts_characters_not_bytes() {
    let mut config = Config::default();
    config.max_output_chars = 3;
    assert_eq!(rendered(&config, "éé", ""), "éé");
    config.max_output_chars = 5;
    let text = rendered(&config, "hello world", "");
    assert!(text.chars().count() <= 5);
    assert_eq!(text, "hello");
}

#[test]
fn render_never_exceeds_cap() {
    let mut config = Config::default();
    for cap in [1usize, 10, 41, 42, 43, 50, 100, 1000] {
        config.max_output_chars = cap;
        for len in [0usize, 5, 44, 99, 1000, 5000] {
            let content = "ü".repeat(len);
            let text = rendered(&config, &content, "warning\n");
            assert!(text.chars().count() <= cap, "cap {cap}, len {len}");
        }
    }
}

#[test]
fn render_stderr_section_capped_at_2000_bytes() {
    let config = Config::default();
    let stderr = "e".repeat(3000);
    let text = rendered(&config, "c", &stderr);
    assert_eq!(text, format!("c\n\n[crwl stderr]\n{}", "e".repeat(2000)));
}
