use crowley::config::{Cli, Config, ConfigFile, DeepCrawlStrategy, OutputFormat, TransportMode};

fn empty_cli() -> Cli {
    Cli {
        config: None,
        crwl_bin: None,
        output_format: None,
        profile: None,
        browser_config: None,
        crawler_config: None,
        timeout_secs: None,
        max_output_chars: None,
        deep_crawl: None,
        max_pages: None,
        extra_args: vec![],
        server_name: None,
        server_version: None,
        print_config: false,
        verbose: false,
        transport: None,
        host: None,
        port: None,
        http_path: None,
        allowed_hosts: vec![],
    }
}

fn same_settings(a: &Config, b: &Config) -> bool {
    a.crwl_bin == b.crwl_bin
        && a.output_format == b.output_format
        && a.profile == b.profile
        && a.browser_config == b.browser_config
        && a.crawler_config == b.crawler_config
        && a.timeout_secs == b.timeout_secs
        && a.max_output_chars == b.max_output_chars
        && a.deep_crawl == b.deep_crawl
        && a.max_pages == b.max_pages
        && a.extra_args == b.extra_args
        && a.server_name == b.server_name
        && a.server_version == b.server_version
        && a.verbose == b.verbose
        && a.transport == b.transport
        && a.host == b.host
        && a.port == b.port
        && a.http_path == b.http_path
        && a.allowed_hosts == b.allowed_hosts
}

#[test]
fn defaults_are_sane() {
    let config = Config::default();
    assert_eq!(config.crwl_bin, "crwl");
    assert_eq!(config.output_format, OutputFormat::Markdown);
    assert_eq!(config.timeout_secs, 60);
    assert!(config.max_output_chars > 0);
    assert_eq!(config.server_name, "crowley");
    assert_eq!(config.transport, TransportMode::Stdio);
    assert_eq!(config.host, "127.0.0.1");
    assert_eq!(config.port, 4321);
    assert_eq!(config.http_path, "/mcp");
}

#[test]
fn config_file_overrides_defaults() {
    // The file
    //   crwl_bin = "/opt/bin/crwl"
    //   output_format = "md-fit"
    //   profile = "work"
    //   browser_config = "/etc/crwl/browser.yaml"
    //   crawler_config = "/etc/crwl/crawler.yaml"
    //   timeout_secs = 120
    //   max_output_chars = 1000
    //   deep_crawl = "best-first"
    //   max_pages = 5
    //   extra_args = ["-bc"]
    // as parsed.
    let file = ConfigFile {
        crwl_bin: Some("/opt/bin/crwl".into()),
        output_format: Some(OutputFormat::MdFit),
        profile: Some("work".into()),
        browser_config: Some("/etc/crwl/browser.yaml".into()),
        crawler_config: Some("/etc/crwl/crawler.yaml".into()),
        timeout_secs: Some(120),
        max_output_chars: Some(1000),
        deep_crawl: Some(DeepCrawlStrategy::BestFirst),
        max_pages: Some(5),
        extra_args: Some(vec!["-bc".into()]),
        ..ConfigFile::default()
    };
    let mut config = Config::default();
    config.apply_file(file);
    assert_eq!(config.crwl_bin, "/opt/bin/crwl");
    assert_eq!(config.output_format, OutputFormat::MdFit);
    assert_eq!(config.profile.as_deref(), Some("work"));
    assert_eq!(config.browser_config.as_deref(), Some("/etc/crwl/browser.yaml"));
    assert_eq!(config.crawler_config.as_deref(), Some("/etc/crwl/crawler.yaml"));
    assert_eq!(config.timeout_secs, 120);
    assert_eq!(config.max_output_chars, 1000);
    assert_eq!(config.deep_crawl, Some(DeepCrawlStrategy::BestFirst));
    assert_eq!(config.max_pages, Some(5));
    assert_eq!(config.extra_args, vec!["-bc"]);
}

#[test]
fn cli_overrides_config_file() {
    let mut config = Config::default();
    config.timeout_secs = 30;
    let cli = Cli {
        config: None,
        crwl_bin: Some("crwl2".into()),
        output_format: None,
        profile: None,
        browser_config: Some("browser.yaml".into()),
        crawler_config: None,
        timeout_secs: Some(90),
        max_output_chars: None,
        deep_crawl: None,
        max_pages: None,
        extra_args: vec!["-v".into()],
        server_name: None,
        server_version: None,
        print_config: false,
        verbose: true,
        transport: Some(TransportMode::Http),
        host: Some("0.0.0.0".into()),
        port: Some(9000),
        http_path: Some("/api/mcp".into()),
        allowed_hosts: vec!["example.com".into()],
    };
    config.apply_cli(&cli);
    assert_eq!(config.crwl_bin, "crwl2");
    assert_eq!(config.timeout_secs, 90);
    assert_eq!(config.browser_config.as_deref(), Some("browser.yaml"));
    assert_eq!(config.crawler_config, None);
    assert_eq!(config.extra_args, vec!["-v"]);
    assert!(config.verbose);
    assert_eq!(config.output_format, OutputFormat::Markdown);
    assert_eq!(config.transport, TransportMode::Http);
    assert_eq!(config.host, "0.0.0.0");
    assert_eq!(config.port, 9000);
    assert_eq!(config.http_path, "/api/mcp");
    // --allowed-host appends to the default loopback allowlist.
    assert_eq!(
        config.allowed_hosts,
        vec!["localhost", "127.0.0.1", "::1", "example.com"]
    );
}

#[test]
fn default_config_has_every_documented_default() {
    let config = Config::default();
    assert_eq!(config.profile, None);
    assert_eq!(config.browser_config, None);
    assert_eq!(config.crawler_config, None);
    assert_eq!(config.max_output_chars, 200_000);
    assert_eq!(config.deep_crawl, None);
    assert_eq!(config.max_pages, None);
    assert!(config.extra_args.is_empty());
    assert_eq!(config.server_version, "0.1.0");
    assert!(!config.verbose);
    assert_eq!(config.allowed_hosts, vec!["localhost", "127.0.0.1", "::1"]);
}

#[test]
fn load_without_file_gives_defaults() {
    let loaded = Config::load(None);
    assert!(same_settings(&loaded, &Config::default()));
}

#[test]
fn load_with_file_overlays_defaults() {
    let file = ConfigFile {
        transport: Some(TransportMode::Http),
        port: Some(0),
        allowed_hosts: Some(vec!["proxy.internal".into()]),
        verbose: Some(true),
        ..ConfigFile::default()
    };
    let loaded = Config::load(Some(file));
    assert_eq!(loaded.transport, TransportMode::Http);
    assert_eq!(loaded.port, 0);
    assert_eq!(loaded.allowed_hosts, vec!["proxy.internal"]);
    assert!(loaded.verbose);
    assert_eq!(loaded.crwl_bin, "crwl");
    assert_eq!(loaded.http_path, "/mcp");
}

#[test]
fn file_lists_replace_and_cli_lists_append() {
    let file = ConfigFile {
        extra_args: Some(vec!["--a".into()]),
        allowed_hosts: Some(vec!["h1".into()]),
        ..ConfigFile::default()
    };
    let mut config = Config::load(Some(file));
    let cli = Cli {
        extra_args: vec!["--b".into(), "--c".into()],
        allowed_hosts: vec!["h2".into()],
        ..empty_cli()
    };
    config.apply_cli(&cli);
    assert_eq!(config.extra_args, vec!["--a", "--b", "--c"]);
    assert_eq!(config.allowed_hosts, vec!["h1", "h2"]);
}

#[test]
fn precedence_cli_over_file_over_default() {
    let file = ConfigFile {
        crwl_bin: Some("from-file".into()),
        server_name: Some("file-name".into()),
        max_pages: Some(3),
        ..ConfigFile::default()
    };
    let mut config = Config::load(Some(file));
    let cli = Cli { crwl_bin: Some("from-cli".into()), ..empty_cli() };
    config.apply_cli(&cli);
    assert_eq!(config.crwl_bin, "from-cli");
    assert_eq!(config.server_name, "file-name");
    assert_eq!(config.max_pages, Some(3));
    assert_eq!(config.host, "127.0.0.1");
}

#[test]
fn empty_cli_keeps_config() {
    let mut config = Config::default();
    config.profile = Some("p".into());
    let before = config.clone();
    config.apply_cli(&empty_cli());
    assert!(same_settings(&config, &before));
}

#[test]
fn empty_file_keeps_config() {
    let mut config = Config::default();
    config.extra_args = vec!["-x".into()];
    let before = config.clone();
    config.apply_file(ConfigFile::default());
    assert!(same_settings(&config, &before));
}

#[test]
fn file_overlay_is_idempotent() {
    let file = ConfigFile {
        extra_args: Some(vec!["-bc".into()]),
        timeout_secs: Some(5),
        ..ConfigFile::default()
    };
    let mut once = Config::default();
    once.apply_file(file.clone());
    let mut twice = once.clone();
    twice.apply_file(file);
    assert!(same_settings(&once, &twice));
}

#[test]
fn cli_overlay_reapplied_appends_lists_again() {
    let cli = Cli {
        extra_args: vec!["-v".into()],
        allowed_hosts: vec!["a".into()],
        port: Some(1),
        ..empty_cli()
    };
    let mut config = Config::default();
    config.apply_cli(&cli);
    config.apply_cli(&cli);
    assert_eq!(config.extra_args, vec!["-v", "-v"]);
    assert_eq!(config.allowed_hosts, vec!["localhost", "127.0.0.1", "::1", "a", "a"]);
    assert_eq!(config.port, 1);
}

#[test]
fn verbose_flag_only_switches_on() {
    let mut config = Config::default();
    config.verbose = true;
    config.apply_cli(&empty_cli());
    assert!(config.verbose);
    let mut quiet = Config::default();
    quiet.apply_cli(&Cli { verbose: true, ..empty_cli() });
    assert!(quiet.verbose);
}

#[test]
fn enum_names() {
    assert_eq!(OutputFormat::All.as_str(), "all");
    assert_eq!(OutputFormat::Json.as_str(), "json");
    assert_eq!(OutputFormat::Markdown.as_str(), "markdown");
    assert_eq!(OutputFormat::Md.as_str(), "md");
    assert_eq!(OutputFormat::MarkdownFit.as_str(), "markdown-fit");
    assert_eq!(OutputFormat::MdFit.as_str(), "md-fit");
    assert_eq!(DeepCrawlStrategy::Bfs.as_str(), "bfs");
    assert_eq!(DeepCrawlStrategy::Dfs.as_str(), "dfs");
    assert_eq!(DeepCrawlStrategy::BestFirst.as_str(), "best-first");
    assert_eq!(TransportMode::Stdio.as_str(), "stdio");
    assert_eq!(TransportMode::Http.as_str(), "http");
}
