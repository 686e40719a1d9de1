//! Configuration for the crowley MCP server.
//!
//! Settings can be provided through a TOML config file, CLI flags, or both.
//! Precedence (lowest to highest): built-in defaults < config file < CLI flags.
//!
//! Every type here has a view made of mathematical values; the overlay
//! operations are stated as spec functions over those views
//! ([`with_file`], [`with_cli`]) and the laws of layering are proved on them.
use vstd::prelude::*;
use vstd::string::*;

verus! {

// ---------------------------------------------------------------------------
// Enumerations
// ---------------------------------------------------------------------------

/// Output formats accepted by `crwl crawl -o`.
#[derive(Debug, Clone, Copy, PartialEq, Eq, Structural)]
pub enum OutputFormat {
    All,
    Json,
    Markdown,
    Md,
    MarkdownFit,
    MdFit,
}

impl OutputFormat {
    /// The name `crwl -o` accepts for this format.
    pub open spec fn name(self) -> Seq<char> {
        match self {
            OutputFormat::All => "all"@,
            OutputFormat::Json => "json"@,
            OutputFormat::Markdown => "markdown"@,
            OutputFormat::Md => "md"@,
            OutputFormat::MarkdownFit => "markdown-fit"@,
            OutputFormat::MdFit => "md-fit"@,
        }
    }

    pub fn as_str(&self) -> (s: &'static str)
        ensures
            s@ == self.name(),
    {
        match self {
            OutputFormat::All => "all",
            OutputFormat::Json => "json",
            OutputFormat::Markdown => "markdown",
            OutputFormat::Md => "md",
            OutputFormat::MarkdownFit => "markdown-fit",
            OutputFormat::MdFit => "md-fit",
        }
    }
}

/// Deep-crawl strategies accepted by `crwl crawl --deep-crawl`.
#[derive(Debug, Clone, Copy, PartialEq, Eq, Structural)]
pub enum DeepCrawlStrategy {
    Bfs,
    Dfs,
    BestFirst,
}

impl DeepCrawlStrategy {
    /// The name `crwl --deep-crawl` accepts for this strategy.
    pub open spec fn name(self) -> Seq<char> {
        match self {
            DeepCrawlStrategy::Bfs => "bfs"@,
            DeepCrawlStrategy::Dfs => "dfs"@,
            DeepCrawlStrategy::BestFirst => "best-first"@,
        }
    }

    pub fn as_str(&self) -> (s: &'static str)
        ensures
            s@ == self.name(),
    {
        match self {
            DeepCrawlStrategy::Bfs => "bfs",
            DeepCrawlStrategy::Dfs => "dfs",
            DeepCrawlStrategy::BestFirst => "best-first",
        }
    }
}

/// Transports the MCP server can serve over.
#[derive(Debug, Clone, Copy, PartialEq, Eq, Structural)]
pub enum TransportMode {
    /// MCP over the process's stdin/stdout (default for local hosts).
    Stdio,
    /// MCP Streamable HTTP — listen on a TCP port for remote clients.
    Http,
}

impl TransportMode {
    /// The name of this transport in the config file and on the command line.
    pub open spec fn name(self) -> Seq<char> {
        match self {
            TransportMode::Stdio => "stdio"@,
            TransportMode::Http => "http"@,
        }
    }

    pub fn as_str(&self) -> (s: &'static str)
        ensures
            s@ == self.name(),
    {
        match self {
            TransportMode::Stdio => "stdio",
            TransportMode::Http => "http",
        }
    }
}

// ---------------------------------------------------------------------------
// Views of strings
// ---------------------------------------------------------------------------

/// The characters of an optional string.
pub open spec fn opt_chars(o: Option<String>) -> Option<Seq<char>> {
    match o {
        Some(s) => Some(s@),
        None => None,
    }
}

/// The value given, or `current` when nothing is given.
pub open spec fn given_or<T>(given: Option<T>, current: T) -> T {
    match given {
        Some(v) => v,
        None => current,
    }
}

/// `given` when it is present, otherwise `current`.
pub open spec fn given_opt_or<T>(given: Option<T>, current: Option<T>) -> Option<T> {
    if given is Some {
        given
    } else {
        current
    }
}

// ---------------------------------------------------------------------------
// Config
// ---------------------------------------------------------------------------

/// Fully-resolved server configuration.
#[derive(Debug, Clone)]
pub struct Config {
    /// Path to the `crwl` binary (or a name resolvable on `PATH`).
    pub crwl_bin: String,
    /// Default `-o` output format passed to `crwl crawl`.
    pub output_format: OutputFormat,
    /// Default browser profile (`crwl -p <profile>`).
    pub profile: Option<String>,
    /// Path to a browser config file (`crwl -B <path>`, YAML/JSON).
    pub browser_config: Option<String>,
    /// Path to a crawler config file (`crwl -C <path>`, YAML/JSON).
    pub crawler_config: Option<String>,
    /// Timeout (seconds) before a `crwl` invocation is killed.
    pub timeout_secs: u64,
    /// Cap on characters returned in a tool result (overflow is truncated).
    pub max_output_chars: usize,
    /// Default deep-crawl strategy (`--deep-crawl <strategy>`).
    pub deep_crawl: Option<DeepCrawlStrategy>,
    /// Default max pages for deep crawls (`--max-pages <n>`).
    pub max_pages: Option<u32>,
    /// Extra raw arguments forwarded to every `crwl crawl` invocation.
    pub extra_args: Vec<String>,
    /// Server name reported in the MCP `initialize` handshake.
    pub server_name: String,
    /// Server version reported in the MCP `initialize` handshake.
    pub server_version: String,
    /// Emit verbose logging from this server.
    pub verbose: bool,
    /// MCP transport to serve over: `stdio` (default) or `http`.
    pub transport: TransportMode,
    /// Bind address for `http` transport.
    pub host: String,
    /// Bind port for `http` transport. `0` binds an ephemeral port.
    pub port: u16,
    /// URL path the MCP Streamable HTTP endpoint is mounted at.
    pub http_path: String,
    /// Allowed `Host` header values for the `http` transport (prevents DNS
    /// rebinding).
    pub allowed_hosts: Vec<String>,
}

/// The mathematical value of a [`Config`]: strings as character sequences.
#[verifier::ext_equal]
pub struct ConfigView {
    pub crwl_bin: Seq<char>,
    pub output_format: OutputFormat,
    pub profile: Option<Seq<char>>,
    pub browser_config: Option<Seq<char>>,
    pub crawler_config: Option<Seq<char>>,
    pub timeout_secs: u64,
    pub max_output_chars: usize,
    pub deep_crawl: Option<DeepCrawlStrategy>,
    pub max_pages: Option<u32>,
    pub extra_args: Seq<Seq<char>>,
    pub server_name: Seq<char>,
    pub server_version: Seq<char>,
    pub verbose: bool,
    pub transport: TransportMode,
    pub host: Seq<char>,
    pub port: u16,
    pub http_path: Seq<char>,
    pub allowed_hosts: Seq<Seq<char>>,
}

impl View for Config {
    type V = ConfigView;

    open spec fn view(&self) -> ConfigView {
        ConfigView {
            crwl_bin: self.crwl_bin@,
            output_format: self.output_format,
            profile: opt_chars(self.profile),
            browser_config: opt_chars(self.browser_config),
            crawler_config: opt_chars(self.crawler_config),
            timeout_secs: self.timeout_secs,
            max_output_chars: self.max_output_chars,
            deep_crawl: self.deep_crawl,
            max_pages: self.max_pages,
            extra_args: self.extra_args.deep_view(),
            server_name: self.server_name@,
            server_version: self.server_version@,
            verbose: self.verbose,
            transport: self.transport,
            host: self.host@,
            port: self.port,
            http_path: self.http_path@,
            allowed_hosts: self.allowed_hosts.deep_view(),
        }
    }
}

/// The built-in defaults.
pub open spec fn default_config() -> ConfigView {
    ConfigView {
        crwl_bin: "crwl"@,
        output_format: OutputFormat::Markdown,
        profile: None,
        browser_config: None,
        crawler_config: None,
        timeout_secs: 60,
        max_output_chars: 200_000,
        deep_crawl: None,
        max_pages: None,
        extra_args: Seq::empty(),
        server_name: "crowley"@,
        server_version: "0.1.0"@,
        verbose: false,
        transport: TransportMode::Stdio,
        host: "127.0.0.1"@,
        port: 4321,
        http_path: "/mcp"@,
        allowed_hosts: seq!["localhost"@, "127.0.0.1"@, "::1"@],
    }
}

fn default_crwl_bin() -> (s: String)
    ensures
        s@ == default_config().crwl_bin,
{
    String::from_str("crwl")
}

fn default_transport() -> (t: TransportMode)
    ensures
        t == default_config().transport,
{
    TransportMode::Stdio
}

fn default_host() -> (s: String)
    ensures
        s@ == default_config().host,
{
    String::from_str("127.0.0.1")
}

fn default_port() -> (p: u16)
    ensures
        p == default_config().port,
{
    4321
}

fn default_http_path() -> (s: String)
    ensures
        s@ == default_config().http_path,
{
    String::from_str("/mcp")
}

fn default_allowed_hosts() -> (v: Vec<String>)
    ensures
        v.deep_view() == default_config().allowed_hosts,
{
    let v = vec![
        String::from_str("localhost"),
        String::from_str("127.0.0.1"),
        String::from_str("::1"),
    ];
    assert(v.deep_view() =~= default_config().allowed_hosts);
    v
}

fn default_output_format() -> (f: OutputFormat)
    ensures
        f == default_config().output_format,
{
    OutputFormat::Markdown
}

fn default_timeout_secs() -> (t: u64)
    ensures
        t == default_config().timeout_secs,
{
    60
}

fn default_max_output_chars() -> (n: usize)
    ensures
        n == default_config().max_output_chars,
{
    200_000
}

fn default_server_name() -> (s: String)
    ensures
        s@ == default_config().server_name,
{
    String::from_str("crowley")
}

fn default_server_version() -> (s: String)
    ensures
        s@ == default_config().server_version,
{
    String::from_str("0.1.0")
}

impl Default for Config {
    fn default() -> (c: Self)
        ensures
            c@ == default_config(),
    {
        let c = Config {
            crwl_bin: default_crwl_bin(),
            output_format: default_output_format(),
            profile: None,
            browser_config: None,
            crawler_config: None,
            timeout_secs: default_timeout_secs(),
            max_output_chars: default_max_output_chars(),
            deep_crawl: None,
            max_pages: None,
            extra_args: Vec::new(),
            server_name: default_server_name(),
            server_version: default_server_version(),
            verbose: false,
            transport: default_transport(),
            host: default_host(),
            port: default_port(),
            http_path: default_http_path(),
            allowed_hosts: default_allowed_hosts(),
        };
        assert(c.extra_args.deep_view() =~= Seq::<Seq<char>>::empty());
        assert(c@ =~= default_config());
        c
    }
}

// ---------------------------------------------------------------------------
// Config file
// ---------------------------------------------------------------------------

/// The TOML config file layout. All fields are optional.
#[derive(Debug, Clone)]
pub struct ConfigFile {
    pub crwl_bin: Option<String>,
    pub output_format: Option<OutputFormat>,
    pub profile: Option<String>,
    pub browser_config: Option<String>,
    pub crawler_config: Option<String>,
    pub timeout_secs: Option<u64>,
    pub max_output_chars: Option<usize>,
    pub deep_crawl: Option<DeepCrawlStrategy>,
    pub max_pages: Option<u32>,
    pub extra_args: Option<Vec<String>>,
    pub server_name: Option<String>,
    pub server_version: Option<String>,
    pub verbose: Option<bool>,
    pub transport: Option<TransportMode>,
    pub host: Option<String>,
    pub port: Option<u16>,
    pub http_path: Option<String>,
    pub allowed_hosts: Option<Vec<String>>,
}

/// The mathematical value of a [`ConfigFile`].
#[verifier::ext_equal]
pub struct ConfigFileView {
    pub crwl_bin: Option<Seq<char>>,
    pub output_format: Option<OutputFormat>,
    pub profile: Option<Seq<char>>,
    pub browser_config: Option<Seq<char>>,
    pub crawler_config: Option<Seq<char>>,
    pub timeout_secs: Option<u64>,
    pub max_output_chars: Option<usize>,
    pub deep_crawl: Option<DeepCrawlStrategy>,
    pub max_pages: Option<u32>,
    pub extra_args: Option<Seq<Seq<char>>>,
    pub server_name: Option<Seq<char>>,
    pub server_version: Option<Seq<char>>,
    pub verbose: Option<bool>,
    pub transport: Option<TransportMode>,
    pub host: Option<Seq<char>>,
    pub port: Option<u16>,
    pub http_path: Option<Seq<char>>,
    pub allowed_hosts: Option<Seq<Seq<char>>>,
}

/// The characters of each string of an optional list.
pub open spec fn opt_list(o: Option<Vec<String>>) -> Option<Seq<Seq<char>>> {
    match o {
        Some(v) => Some(v.deep_view()),
        None => None,
    }
}

impl View for ConfigFile {
    type V = ConfigFileView;

    open spec fn view(&self) -> ConfigFileView {
        ConfigFileView {
            crwl_bin: opt_chars(self.crwl_bin),
            output_format: self.output_format,
            profile: opt_chars(self.profile),
            browser_config: opt_chars(self.browser_config),
            crawler_config: opt_chars(self.crawler_config),
            timeout_secs: self.timeout_secs,
            max_output_chars: self.max_output_chars,
            deep_crawl: self.deep_crawl,
            max_pages: self.max_pages,
            extra_args: opt_list(self.extra_args),
            server_name: opt_chars(self.server_name),
            server_version: opt_chars(self.server_version),
            verbose: self.verbose,
            transport: self.transport,
            host: opt_chars(self.host),
            port: self.port,
            http_path: opt_chars(self.http_path),
            allowed_hosts: opt_list(self.allowed_hosts),
        }
    }
}

impl ConfigFileView {
    /// A file that sets no key.
    pub open spec fn sets_nothing(self) -> bool {
        &&& self.crwl_bin is None
        &&& self.output_format is None
        &&& self.profile is None
        &&& self.browser_config is None
        &&& self.crawler_config is None
        &&& self.timeout_secs is None
        &&& self.max_output_chars is None
        &&& self.deep_crawl is None
        &&& self.max_pages is None
        &&& self.extra_args is None
        &&& self.server_name is None
        &&& self.server_version is None
        &&& self.verbose is None
        &&& self.transport is None
        &&& self.host is None
        &&& self.port is None
        &&& self.http_path is None
        &&& self.allowed_hosts is None
    }
}

impl Default for ConfigFile {
    fn default() -> (f: Self)
        ensures
            f@.sets_nothing(),
    {
        ConfigFile {
            crwl_bin: None,
            output_format: None,
            profile: None,
            browser_config: None,
            crawler_config: None,
            timeout_secs: None,
            max_output_chars: None,
            deep_crawl: None,
            max_pages: None,
            extra_args: None,
            server_name: None,
            server_version: None,
            verbose: None,
            transport: None,
            host: None,
            port: None,
            http_path: None,
            allowed_hosts: None,
        }
    }
}

/// `c` with every key that `f` sets replaced by the file's value. Lists
/// given in the file replace the current lists.
pub open spec fn with_file(c: ConfigView, f: ConfigFileView) -> ConfigView {
    ConfigView {
        crwl_bin: given_or(f.crwl_bin, c.crwl_bin),
        output_format: given_or(f.output_format, c.output_format),
        profile: given_opt_or(f.profile, c.profile),
        browser_config: given_opt_or(f.browser_config, c.browser_config),
        crawler_config: given_opt_or(f.crawler_config, c.crawler_config),
        timeout_secs: given_or(f.timeout_secs, c.timeout_secs),
        max_output_chars: given_or(f.max_output_chars, c.max_output_chars),
        deep_crawl: given_opt_or(f.deep_crawl, c.deep_crawl),
        max_pages: given_opt_or(f.max_pages, c.max_pages),
        extra_args: given_or(f.extra_args, c.extra_args),
        server_name: given_or(f.server_name, c.server_name),
        server_version: given_or(f.server_version, c.server_version),
        verbose: given_or(f.verbose, c.verbose),
        transport: given_or(f.transport, c.transport),
        host: given_or(f.host, c.host),
        port: given_or(f.port, c.port),
        http_path: given_or(f.http_path, c.http_path),
        allowed_hosts: given_or(f.allowed_hosts, c.allowed_hosts),
    }
}

// ---------------------------------------------------------------------------
// Command line
// ---------------------------------------------------------------------------

/// Command-line options. Each flag, when present, overrides the config file.
#[derive(Debug, Clone)]
pub struct Cli {
    /// Path to a TOML configuration file.
    pub config: Option<String>,
    /// Path to the `crwl` binary (default: "crwl" from PATH).
    pub crwl_bin: Option<String>,
    /// Default output format for fetched content.
    pub output_format: Option<OutputFormat>,
    /// Default browser profile used by crwl.
    pub profile: Option<String>,
    /// Path to a crwl browser config file (YAML/JSON) passed via -B.
    pub browser_config: Option<String>,
    /// Path to a crwl crawler config file (YAML/JSON) passed via -C.
    pub crawler_config: Option<String>,
    /// Kill crwl invocations after this many seconds.
    pub timeout_secs: Option<u64>,
    /// Maximum characters returned per tool call (overflow is truncated).
    pub max_output_chars: Option<usize>,
    /// Default deep-crawl strategy (bfs | dfs | best-first).
    pub deep_crawl: Option<DeepCrawlStrategy>,
    /// Default max pages for deep crawls.
    pub max_pages: Option<u32>,
    /// Extra raw argument forwarded to every `crwl crawl` call (repeatable).
    pub extra_args: Vec<String>,
    /// Server name reported in the MCP initialize handshake.
    pub server_name: Option<String>,
    /// Server version reported in the MCP initialize handshake.
    pub server_version: Option<String>,
    /// Print the effective configuration as TOML and exit.
    pub print_config: bool,
    /// Emit verbose logging.
    pub verbose: bool,
    /// MCP transport: stdio (default) or http.
    pub transport: Option<TransportMode>,
    /// Bind address for the http transport.
    pub host: Option<String>,
    /// Bind port for the http transport (0 = ephemeral).
    pub port: Option<u16>,
    /// URL path for the http transport's MCP endpoint.
    pub http_path: Option<String>,
    /// Extra allowed Host header for the http transport (repeatable).
    pub allowed_hosts: Vec<String>,
}

/// The mathematical value of a [`Cli`], restricted to the settings it can
/// override.
#[verifier::ext_equal]
pub struct CliView {
    pub crwl_bin: Option<Seq<char>>,
    pub output_format: Option<OutputFormat>,
    pub profile: Option<Seq<char>>,
    pub browser_config: Option<Seq<char>>,
    pub crawler_config: Option<Seq<char>>,
    pub timeout_secs: Option<u64>,
    pub max_output_chars: Option<usize>,
    pub deep_crawl: Option<DeepCrawlStrategy>,
    pub max_pages: Option<u32>,
    pub extra_args: Seq<Seq<char>>,
    pub server_name: Option<Seq<char>>,
    pub server_version: Option<Seq<char>>,
    pub verbose: bool,
    pub transport: Option<TransportMode>,
    pub host: Option<Seq<char>>,
    pub port: Option<u16>,
    pub http_path: Option<Seq<char>>,
    pub allowed_hosts: Seq<Seq<char>>,
}

impl View for Cli {
    type V = CliView;

    open spec fn view(&self) -> CliView {
        CliView {
            crwl_bin: opt_chars(self.crwl_bin),
            output_format: self.output_format,
            profile: opt_chars(self.profile),
            browser_config: opt_chars(self.browser_config),
            crawler_config: opt_chars(self.crawler_config),
            timeout_secs: self.timeout_secs,
            max_output_chars: self.max_output_chars,
            deep_crawl: self.deep_crawl,
            max_pages: self.max_pages,
            extra_args: self.extra_args.deep_view(),
            server_name: opt_chars(self.server_name),
            server_version: opt_chars(self.server_version),
            verbose: self.verbose,
            transport: self.transport,
            host: opt_chars(self.host),
            port: self.port,
            http_path: opt_chars(self.http_path),
            allowed_hosts: self.allowed_hosts.deep_view(),
        }
    }
}

impl CliView {
    /// A command line that overrides nothing.
    pub open spec fn sets_nothing(self) -> bool {
        &&& self.crwl_bin is None
        &&& self.output_format is None
        &&& self.profile is None
        &&& self.browser_config is None
        &&& self.crawler_config is None
        &&& self.timeout_secs is None
        &&& self.max_output_chars is None
        &&& self.deep_crawl is None
        &&& self.max_pages is None
        &&& self.extra_args.len() == 0
        &&& self.server_name is None
        &&& self.server_version is None
        &&& !self.verbose
        &&& self.transport is None
        &&& self.host is None
        &&& self.port is None
        &&& self.http_path is None
        &&& self.allowed_hosts.len() == 0
    }
}

/// `c` with the command line laid over it: every flag given replaces the
/// current value, `--verbose` can only switch verbosity on, and the
/// repeatable `--extra-arg` and `--allowed-host` append to the current lists.
pub open spec fn with_cli(c: ConfigView, cli: CliView) -> ConfigView {
    ConfigView {
        crwl_bin: given_or(cli.crwl_bin, c.crwl_bin),
        output_format: given_or(cli.output_format, c.output_format),
        profile: given_opt_or(cli.profile, c.profile),
        browser_config: given_opt_or(cli.browser_config, c.browser_config),
        crawler_config: given_opt_or(cli.crawler_config, c.crawler_config),
        timeout_secs: given_or(cli.timeout_secs, c.timeout_secs),
        max_output_chars: given_or(cli.max_output_chars, c.max_output_chars),
        deep_crawl: given_opt_or(cli.deep_crawl, c.deep_crawl),
        max_pages: given_opt_or(cli.max_pages, c.max_pages),
        extra_args: c.extra_args + cli.extra_args,
        server_name: given_or(cli.server_name, c.server_name),
        server_version: given_or(cli.server_version, c.server_version),
        verbose: c.verbose || cli.verbose,
        transport: given_or(cli.transport, c.transport),
        host: given_or(cli.host, c.host),
        port: given_or(cli.port, c.port),
        http_path: given_or(cli.http_path, c.http_path),
        allowed_hosts: c.allowed_hosts + cli.allowed_hosts,
    }
}

/// Appends clones of the strings of `src` to `dst`.
pub(crate) fn extend_cloned(dst: &mut Vec<String>, src: &Vec<String>)
    ensures
        final(dst)@ == old(dst)@ + src@,
        final(dst).deep_view() == old(dst).deep_view() + src.deep_view(),
{
    let n = src.len();
    let ghost start = dst@;
    for i in 0..n
        invariant
            n == src@.len(),
            start == old(dst)@,
            dst@ == start + src@.subrange(0, i as int),
    {
        let s = src[i].clone();
        dst.push(s);
        assert(dst@ =~= start + src@.subrange(0, i + 1));
    }
    assert(src@.subrange(0, n as int) =~= src@);
    assert(dst.deep_view() =~= old(dst).deep_view() + src.deep_view());
}

/// Replaces `dst` with a clone of the given string, if one is given.
fn override_string(dst: &mut String, given: &Option<String>)
    ensures
        final(dst)@ == given_or(opt_chars(*given), old(dst)@),
{
    if let Some(value) = given {
        *dst = value.clone();
    }
}

/// Replaces `dst` with a clone of the given string, if one is given.
fn override_opt_string(dst: &mut Option<String>, given: &Option<String>)
    ensures
        opt_chars(*final(dst)) == given_opt_or(opt_chars(*given), opt_chars(*old(dst))),
{
    if let Some(value) = given {
        *dst = Some(value.clone());
    }
}

/// Replaces `dst` with the given value, if one is given.
fn replace_with<T>(dst: &mut T, given: Option<T>)
    ensures
        *final(dst) == given_or(given, *old(dst)),
{
    if let Some(value) = given {
        *dst = value;
    }
}

/// Replaces `dst` with the given value, if one is given.
fn replace_opt<T>(dst: &mut Option<T>, given: Option<T>)
    ensures
        *final(dst) == given_opt_or(given, *old(dst)),
{
    if given.is_some() {
        *dst = given;
    }
}

impl Config {
    /// The configuration from an optional, already parsed config file,
    /// overlaid on the built-in defaults.
    pub fn load(file: Option<ConfigFile>) -> (c: Config)
        ensures
            c@ == (match file {
                Some(f) => with_file(default_config(), f@),
                None => default_config(),
            }),
    {
        let mut config = Config::default();
        if let Some(f) = file {
            config.apply_file(f);
        }
        config
    }

    /// Overlay CLI flags on top of the current configuration.
    pub fn apply_cli(&mut self, cli: &Cli)
        ensures
            final(self)@ == with_cli(old(self)@, cli@),
    {
        override_string(&mut self.crwl_bin, &cli.crwl_bin);
        replace_with(&mut self.output_format, cli.output_format);
        override_opt_string(&mut self.profile, &cli.profile);
        override_opt_string(&mut self.browser_config, &cli.browser_config);
        override_opt_string(&mut self.crawler_config, &cli.crawler_config);
        replace_with(&mut self.timeout_secs, cli.timeout_secs);
        replace_with(&mut self.max_output_chars, cli.max_output_chars);
        replace_opt(&mut self.deep_crawl, cli.deep_crawl);
        replace_opt(&mut self.max_pages, cli.max_pages);
        extend_cloned(&mut self.extra_args, &cli.extra_args);
        override_string(&mut self.server_name, &cli.server_name);
        override_string(&mut self.server_version, &cli.server_version);
        self.verbose = self.verbose || cli.verbose;
        replace_with(&mut self.transport, cli.transport);
        override_string(&mut self.host, &cli.host);
        replace_with(&mut self.port, cli.port);
        override_string(&mut self.http_path, &cli.http_path);
        extend_cloned(&mut self.allowed_hosts, &cli.allowed_hosts);
        assert(final(self)@ =~= with_cli(old(self)@, cli@));
    }

    /// Overlay a parsed config file on top of the current configuration.
    pub fn apply_file(&mut self, file: ConfigFile)
        ensures
            final(self)@ == with_file(old(self)@, file@),
    {
        let ghost f = file@;
        replace_with(&mut self.crwl_bin, file.crwl_bin);
        replace_with(&mut self.output_format, file.output_format);
        replace_opt(&mut self.profile, file.profile);
        replace_opt(&mut self.browser_config, file.browser_config);
        replace_opt(&mut self.crawler_config, file.crawler_config);
        replace_with(&mut self.timeout_secs, file.timeout_secs);
        replace_with(&mut self.max_output_chars, file.max_output_chars);
        replace_opt(&mut self.deep_crawl, file.deep_crawl);
        replace_opt(&mut self.max_pages, file.max_pages);
        replace_with(&mut self.extra_args, file.extra_args);
        replace_with(&mut self.server_name, file.server_name);
        replace_with(&mut self.server_version, file.server_version);
        replace_with(&mut self.verbose, file.verbose);
        replace_with(&mut self.transport, file.transport);
        replace_with(&mut self.host, file.host);
        replace_with(&mut self.port, file.port);
        replace_with(&mut self.http_path, file.http_path);
        replace_with(&mut self.allowed_hosts, file.allowed_hosts);
        assert(final(self)@ =~= with_file(old(self)@, f));
    }
}

// ---------------------------------------------------------------------------
// Laws of layering
// ---------------------------------------------------------------------------

/// Precedence: built-in defaults < config file < CLI flags. In the effective
/// configuration every setting is the flag's value when the flag is given,
/// else the file's value when the file sets it, else the default; the
/// repeatable flags append to the file's list (or to the default list), and
/// `--verbose` can only switch verbosity on.
pub proof fn lemma_precedence(file: ConfigFileView, cli: CliView)
    ensures
        ({
            let d = default_config();
            let e = with_cli(with_file(d, file), cli);
            &&& e.crwl_bin == given_or(cli.crwl_bin, given_or(file.crwl_bin, d.crwl_bin))
            &&& e.output_format == given_or(
                cli.output_format,
                given_or(file.output_format, d.output_format),
            )
            &&& e.profile == given_opt_or(cli.profile, file.profile)
            &&& e.browser_config == given_opt_or(cli.browser_config, file.browser_config)
            &&& e.crawler_config == given_opt_or(cli.crawler_config, file.crawler_config)
            &&& e.timeout_secs == given_or(
                cli.timeout_secs,
                given_or(file.timeout_secs, d.timeout_secs),
            )
            &&& e.max_output_chars == given_or(
                cli.max_output_chars,
                given_or(file.max_output_chars, d.max_output_chars),
            )
            &&& e.deep_crawl == given_opt_or(cli.deep_crawl, file.deep_crawl)
            &&& e.max_pages == given_opt_or(cli.max_pages, file.max_pages)
            &&& e.extra_args == given_or(file.extra_args, Seq::empty()) + cli.extra_args
            &&& e.server_name == given_or(
                cli.server_name,
                given_or(file.server_name, d.server_name),
            )
            &&& e.server_version == given_or(
                cli.server_version,
                given_or(file.server_version, d.server_version),
            )
            &&& e.verbose == (given_or(file.verbose, false) || cli.verbose)
            &&& e.transport == given_or(cli.transport, given_or(file.transport, d.transport))
            &&& e.host == given_or(cli.host, given_or(file.host, d.host))
            &&& e.port == given_or(cli.port, given_or(file.port, d.port))
            &&& e.http_path == given_or(cli.http_path, given_or(file.http_path, d.http_path))
            &&& e.allowed_hosts == given_or(file.allowed_hosts, d.allowed_hosts)
                + cli.allowed_hosts
        }),
{
}

/// A command line that gives no flag leaves the configuration as it is.
pub proof fn lemma_empty_cli_keeps_config(c: ConfigView, cli: CliView)
    requires
        cli.sets_nothing(),
    ensures
        with_cli(c, cli) == c,
{
    assert(c.extra_args + cli.extra_args =~= c.extra_args);
    assert(c.allowed_hosts + cli.allowed_hosts =~= c.allowed_hosts);
    assert(with_cli(c, cli) =~= c);
}

/// A config file that sets no key leaves the configuration as it is.
pub proof fn lemma_empty_file_keeps_config(c: ConfigView, f: ConfigFileView)
    requires
        f.sets_nothing(),
    ensures
        with_file(c, f) == c,
{
    assert(with_file(c, f) =~= c);
}

/// Laying the same config file over a configuration twice gives what laying
/// it once gives: every key the file sets is replaced, lists included.
pub proof fn lemma_file_overlay_idempotent(c: ConfigView, f: ConfigFileView)
    ensures
        with_file(with_file(c, f), f) == with_file(c, f),
{
    assert(with_file(with_file(c, f), f) =~= with_file(c, f));
}

/// Laying the same command line over a configuration twice changes nothing
/// more than laying it once, except that the repeatable flags
/// (`--extra-arg`, `--allowed-host`) are appended a second time.
pub proof fn lemma_cli_overlay_reapplied(c: ConfigView, cli: CliView)
    ensures
        ({
            let once = with_cli(c, cli);
            let twice = with_cli(once, cli);
            &&& twice.extra_args == once.extra_args + cli.extra_args
            &&& twice.allowed_hosts == once.allowed_hosts + cli.allowed_hosts
            &&& ConfigView {
                extra_args: once.extra_args,
                allowed_hosts: once.allowed_hosts,
                ..twice
            } == once
        }),
{
    let once = with_cli(c, cli);
    let twice = with_cli(once, cli);
    assert(ConfigView {
        extra_args: once.extra_args,
        allowed_hosts: once.allowed_hosts,
        ..twice
    } =~= once);
}

/// Distinct output formats have distinct names.
pub proof fn lemma_output_format_names_distinct(a: OutputFormat, b: OutputFormat)
    ensures
        a.name() == b.name() ==> a == b,
{
    reveal_strlit("all");
    reveal_strlit("json");
    reveal_strlit("markdown");
    reveal_strlit("md");
    reveal_strlit("markdown-fit");
    reveal_strlit("md-fit");
    if a.name() == b.name() {
        assert(a.name().len() == b.name().len());
    }
}

/// Distinct deep-crawl strategies have distinct names.
pub proof fn lemma_deep_crawl_names_distinct(a: DeepCrawlStrategy, b: DeepCrawlStrategy)
    ensures
        a.name() == b.name() ==> a == b,
{
    reveal_strlit("bfs");
    reveal_strlit("dfs");
    reveal_strlit("best-first");
    if a.name() == b.name() && a != b {
        assert(a.name()[0] != b.name()[0] || a.name().len() != b.name().len());
    }
}

/// Distinct transports have distinct names.
pub proof fn lemma_transport_names_distinct(a: TransportMode, b: TransportMode)
    ensures
        a.name() == b.name() ==> a == b,
{
    reveal_strlit("stdio");
    reveal_strlit("http");
    if a.name() == b.name() {
        assert(a.name().len() == b.name().len());
    }
}

/// The names each setting takes in the config file, on the command line and
/// on the `crwl` command line.
pub proof fn lemma_setting_names()
    ensures
        OutputFormat::All.name() == "all"@,
        OutputFormat::Json.name() == "json"@,
        OutputFormat::Markdown.name() == "markdown"@,
        OutputFormat::Md.name() == "md"@,
        OutputFormat::MarkdownFit.name() == "markdown-fit"@,
        OutputFormat::MdFit.name() == "md-fit"@,
        DeepCrawlStrategy::Bfs.name() == "bfs"@,
        DeepCrawlStrategy::Dfs.name() == "dfs"@,
        DeepCrawlStrategy::BestFirst.name() == "best-first"@,
        TransportMode::Stdio.name() == "stdio"@,
        TransportMode::Http.name() == "http"@,
{
}

} // verus!
