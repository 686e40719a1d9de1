//! The logic of the `fetch` tool: how a tool call and the server
//! configuration become a `crwl crawl` request, what follows a finished run,
//! and how the fetched content is rendered for the client.
//!
//! The MCP plumbing (tool registration, transports) is not part of the
//! library; it drives these functions.
use vstd::prelude::*;
use vstd::string::*;
use vstd::utf8::*;

use crate::config::{
    given_opt_or, given_or, opt_chars, Config, ConfigView, DeepCrawlStrategy, OutputFormat,
};
use crate::config::extend_cloned;
use crate::crwl::{
    fetch_error, fetch_error_message, fetch_succeeded, FetchOutput,
    FetchRequest, FetchRequestView,
};
use crate::text::{
    byte_len, char_floor, decimal, decimal_string, kept_len, lemma_char_floor, lemma_truncated,
    trim, trim_str, truncated,
};

verus! {

broadcast use vstd::utf8::group_utf8_lib;

/// Output formats advertised in the tool schema. Mirrors `crwl -o`.
#[derive(Debug, Clone, Copy, PartialEq, Eq, Structural)]
pub enum OutputChoice {
    /// Everything the crawler extracted.
    All,
    /// Structured JSON extraction.
    Json,
    /// Clean markdown (default).
    Markdown,
    /// `markdown` alias.
    Md,
    /// Markdown fitted to the page's main content.
    MarkdownFit,
    /// `markdown-fit` alias.
    MdFit,
}

impl OutputChoice {
    /// The name of this choice in the tool schema and on the `crwl` command line.
    pub open spec fn name(self) -> Seq<char> {
        match self {
            OutputChoice::All => "all"@,
            OutputChoice::Json => "json"@,
            OutputChoice::Markdown => "markdown"@,
            OutputChoice::Md => "md"@,
            OutputChoice::MarkdownFit => "markdown-fit"@,
            OutputChoice::MdFit => "md-fit"@,
        }
    }

    /// The `crwl -o` format this choice stands for.
    pub open spec fn format(self) -> OutputFormat {
        match self {
            OutputChoice::All => OutputFormat::All,
            OutputChoice::Json => OutputFormat::Json,
            OutputChoice::Markdown => OutputFormat::Markdown,
            OutputChoice::Md => OutputFormat::Md,
            OutputChoice::MarkdownFit => OutputFormat::MarkdownFit,
            OutputChoice::MdFit => OutputFormat::MdFit,
        }
    }

    pub fn as_str(&self) -> (s: &'static str)
        ensures
            s@ == self.name(),
    {
        match self {
            OutputChoice::All => "all",
            OutputChoice::Json => "json",
            OutputChoice::Markdown => "markdown",
            OutputChoice::Md => "md",
            OutputChoice::MarkdownFit => "markdown-fit",
            OutputChoice::MdFit => "md-fit",
        }
    }
}

/// Deep-crawl strategies advertised in the tool schema. Mirrors
/// `crwl --deep-crawl`.
#[derive(Debug, Clone, Copy, PartialEq, Eq, Structural)]
pub enum DeepCrawlChoice {
    /// Breadth-first traversal of linked pages.
    Bfs,
    /// Depth-first traversal of linked pages.
    Dfs,
    /// Follow the most promising links first.
    BestFirst,
}

impl DeepCrawlChoice {
    /// The name of this choice in the tool schema and on the `crwl` command line.
    pub open spec fn name(self) -> Seq<char> {
        match self {
            DeepCrawlChoice::Bfs => "bfs"@,
            DeepCrawlChoice::Dfs => "dfs"@,
            DeepCrawlChoice::BestFirst => "best-first"@,
        }
    }

    /// The `crwl --deep-crawl` strategy this choice stands for.
    pub open spec fn strategy(self) -> DeepCrawlStrategy {
        match self {
            DeepCrawlChoice::Bfs => DeepCrawlStrategy::Bfs,
            DeepCrawlChoice::Dfs => DeepCrawlStrategy::Dfs,
            DeepCrawlChoice::BestFirst => DeepCrawlStrategy::BestFirst,
        }
    }

    pub fn as_str(&self) -> (s: &'static str)
        ensures
            s@ == self.name(),
    {
        match self {
            DeepCrawlChoice::Bfs => "bfs",
            DeepCrawlChoice::Dfs => "dfs",
            DeepCrawlChoice::BestFirst => "best-first",
        }
    }
}

/// Arguments accepted by the `fetch` tool.
///
/// Every field is optional except `url`.
#[derive(Debug, Clone)]
pub struct FetchParams {
    /// The URL of the web page to fetch.
    pub url: String,
    /// Output format. Defaults to the server's configured output format.
    pub output: Option<OutputChoice>,
    /// Browser profile to use (e.g. for pages behind a login).
    pub profile: Option<String>,
    /// Path to a crwl browser config file (YAML/JSON), passed via -B.
    pub browser_config: Option<String>,
    /// Path to a crwl crawler config file (YAML/JSON), passed via -C.
    pub crawler_config: Option<String>,
    /// Deep-crawl strategy. Follows and crawls linked pages.
    pub deep_crawl: Option<DeepCrawlChoice>,
    /// Maximum number of pages to crawl in deep-crawl mode.
    pub max_pages: Option<u32>,
    /// Ask the crwl LLM pipeline a question about the page content.
    pub question: Option<String>,
    /// Write the fetched content to this file instead of returning it inline.
    pub output_file: Option<String>,
    /// Bypass the crawl cache and re-fetch from the network.
    pub bypass_cache: Option<bool>,
    /// Emit verbose crawl progress (included as diagnostics on the result).
    pub verbose: Option<bool>,
}

/// The mathematical value of a [`FetchParams`].
#[verifier::ext_equal]
pub struct FetchParamsView {
    pub url: Seq<char>,
    pub output: Option<OutputChoice>,
    pub profile: Option<Seq<char>>,
    pub browser_config: Option<Seq<char>>,
    pub crawler_config: Option<Seq<char>>,
    pub deep_crawl: Option<DeepCrawlChoice>,
    pub max_pages: Option<u32>,
    pub question: Option<Seq<char>>,
    pub output_file: Option<Seq<char>>,
    pub bypass_cache: Option<bool>,
    pub verbose: Option<bool>,
}

impl View for FetchParams {
    type V = FetchParamsView;

    open spec fn view(&self) -> FetchParamsView {
        FetchParamsView {
            url: self.url@,
            output: self.output,
            profile: opt_chars(self.profile),
            browser_config: opt_chars(self.browser_config),
            crawler_config: opt_chars(self.crawler_config),
            deep_crawl: self.deep_crawl,
            max_pages: self.max_pages,
            question: opt_chars(self.question),
            output_file: opt_chars(self.output_file),
            bypass_cache: self.bypass_cache,
            verbose: self.verbose,
        }
    }
}

/// The request a tool call makes: each argument the call gives, else the
/// server's configured default. The output format is always passed; the
/// question and the output file have no configured default; the cache is
/// bypassed only when asked; the configured extra arguments always go along.
pub open spec fn fetch_request_for(c: ConfigView, p: FetchParamsView) -> FetchRequestView {
    FetchRequestView {
        url: p.url,
        output: Some(
            match p.output {
                Some(o) => o.name(),
                None => c.output_format.name(),
            },
        ),
        profile: given_opt_or(p.profile, c.profile),
        browser_config: given_opt_or(p.browser_config, c.browser_config),
        crawler_config: given_opt_or(p.crawler_config, c.crawler_config),
        deep_crawl: match p.deep_crawl {
            Some(d) => Some(d.name()),
            None => match c.deep_crawl {
                Some(s) => Some(s.name()),
                None => None,
            },
        },
        max_pages: given_opt_or(p.max_pages, c.max_pages),
        question: p.question,
        output_file: p.output_file,
        bypass_cache: given_or(p.bypass_cache, false),
        verbose: given_or(p.verbose, c.verbose),
        extra_args: c.extra_args,
    }
}

fn clone_or(given: Option<String>, fallback: &Option<String>) -> (r: Option<String>)
    ensures
        opt_chars(r) == given_opt_or(opt_chars(given), opt_chars(*fallback)),
{
    match given {
        Some(g) => Some(g),
        None => match fallback {
            Some(f) => Some(f.clone()),
            None => None,
        },
    }
}

/// What follows a finished `crwl crawl` run.
pub enum FetchStep {
    /// The run failed; the tool call fails with this message.
    Failed(String),
    /// The run succeeded and wrote its content to this file, which is to be
    /// read and rendered.
    ReadOutputFile(String),
    /// The run succeeded; this content (its stdout) is to be rendered.
    Render(String),
}

/// Decides what follows a finished run of `request`.
pub fn fetch_step(request: &FetchRequest, output: &FetchOutput) -> (step: FetchStep)
    ensures
        (step is Failed) <==> (output.status != Some(0i32) || output.timed_out),
        match step {
            FetchStep::Failed(m) => !fetch_succeeded(*output) && m@ == fetch_error_message(
                *output,
                request.url@,
            ),
            FetchStep::ReadOutputFile(p) => fetch_succeeded(*output) && request.output_file
                == Some(p),
            FetchStep::Render(c) => fetch_succeeded(*output) && request.output_file is None
                && c@ == output.stdout@,
        },
{
    if !output.succeeded() {
        return FetchStep::Failed(fetch_error(output, request.url.as_str()));
    }
    match &request.output_file {
        Some(path) => FetchStep::ReadOutputFile(path.clone()),
        None => FetchStep::Render(output.stdout.clone()),
    }
}

/// Truncate `s` to at most `max` bytes without splitting a UTF-8 character.
pub fn truncate_at_char_boundary(s: &str, max: usize) -> (r: &str)
    ensures
        r.spec_bytes() == s.spec_bytes().subrange(0, kept_len(s.spec_bytes(), max as int)),
        r@ == truncated(s@, max as int),
        r@.len() <= s@.len(),
        s@.subrange(0, r@.len() as int) == r@,
        byte_len(s@) <= max ==> r@ == s@,
        byte_len(r@) <= max,
        is_char_boundary(s.spec_bytes(), r.spec_bytes().len() as int),
        forall|k: int|
            r.spec_bytes().len() < k <= max && k <= s.spec_bytes().len() ==> !#[trigger] is_char_boundary(
                s.spec_bytes(),
                k,
            ),
{
    proof {
        lemma_truncated(s@, max as int);
    }
    let len = s.as_bytes().len();
    if len <= max {
        assert(s.spec_bytes().subrange(0, len as int) =~= s.spec_bytes());
        assert(is_char_boundary(s.spec_bytes(), len as int));
        return s;
    }
    let mut end = max;
    while end > 0 && !s.is_char_boundary(end)
        invariant
            end <= max < s.spec_bytes().len(),
            char_floor(s.spec_bytes(), max as int) == char_floor(s.spec_bytes(), end as int),
        decreases end,
    {
        end -= 1;
    }
    proof {
        lemma_char_floor(s.spec_bytes(), end as int);
        lemma_char_floor(s.spec_bytes(), max as int);
    }
    let (head, _rest) = s.split_at(end);
    head
}

/// How many characters a tool result may have: the configured cap, and at
/// least one.
pub open spec fn output_cap(max_output_chars: usize) -> usize {
    if max_output_chars > 1 {
        max_output_chars
    } else {
        1
    }
}

/// The content followed, when the trimmed stderr is not empty, by a
/// `[crwl stderr]` section holding at most 2000 bytes of it.
pub open spec fn with_diagnostics(content: Seq<char>, stderr: Seq<char>) -> Seq<char> {
    if trim(stderr).len() == 0 {
        content
    } else {
        content + "\n\n[crwl stderr]\n"@ + truncated(trim(stderr), 2000)
    }
}

/// The note that ends a truncated result: how many characters are shown and
/// how many the fetched content had.
pub open spec fn truncation_note(shown: nat, total: nat) -> Seq<char> {
    "\n\n[truncated: showing "@ + decimal(shown) + " of "@ + decimal(total) + " characters]"@
}

/// How many characters are kept before the note so that the note fits in
/// the cap too: the cap less the length of the note for a count as wide as
/// the cap. Negative when the note alone does not fit.
pub open spec fn shown_before_note(cap: nat, total: nat) -> int {
    cap - truncation_note(cap, total).len()
}

/// The tool result for fetched `content` and the run's `stderr`: the content
/// with its diagnostics when that fits in `output_cap` characters; else its
/// first characters followed by the truncation note, the two together
/// within the cap; else, when even the note does not fit, its first
/// `output_cap` characters.
pub open spec fn rendered(content: Seq<char>, stderr: Seq<char>, max_output_chars: usize) -> Seq<
    char,
> {
    let body = with_diagnostics(content, stderr);
    let cap = output_cap(max_output_chars) as nat;
    let shown = shown_before_note(cap, content.len());
    if body.len() <= cap {
        body
    } else if shown >= 0 {
        body.subrange(0, shown) + truncation_note(shown as nat, content.len())
    } else {
        body.subrange(0, cap as int)
    }
}

/// The decimal text of a number is no longer than that of a larger one.
pub proof fn lemma_decimal_len_monotone(k: nat, m: nat)
    requires
        k <= m,
    ensures
        decimal(k).len() <= decimal(m).len(),
    decreases m,
{
    if m < 10 {
    } else if k < 10 {
        lemma_decimal_len_positive((m / 10) as nat);
    } else {
        lemma_decimal_len_monotone((k / 10) as nat, (m / 10) as nat);
    }
}

/// Every decimal text has at least one digit.
pub proof fn lemma_decimal_len_positive(n: nat)
    ensures
        decimal(n).len() >= 1,
{
}

/// The note text for `shown` characters of `total`.
fn truncation_note_string(shown: usize, total: usize) -> (note: String)
    ensures
        note@ == truncation_note(shown as nat, total as nat),
{
    let mut note = String::from_str("\n\n[truncated: showing ");
    let shown_text = decimal_string(shown as u64);
    note.append(shown_text.as_str());
    note.append(" of ");
    let total_text = decimal_string(total as u64);
    note.append(total_text.as_str());
    note.append(" characters]");
    note
}

impl Config {
    /// The name under which the fetch tool is exposed (fixed at compile time).
    pub fn tool_name(&self) -> (name: &'static str)
        ensures
            name@ == "fetch"@,
    {
        "fetch"
    }

    /// The timeout of a `crwl` run, in seconds: the configured one, and at
    /// least one second.
    pub fn fetch_timeout_secs(&self) -> (secs: u64)
        ensures
            secs == (if self.timeout_secs > 1 {
                self.timeout_secs
            } else {
                1
            }),
    {
        if self.timeout_secs > 1 {
            self.timeout_secs
        } else {
            1
        }
    }

    /// The `crwl crawl` request for one tool call.
    pub fn fetch_request(&self, params: FetchParams) -> (request: FetchRequest)
        ensures
            request@ == fetch_request_for(self@, params@),
    {
        let ghost p = params@;
        let output = match params.output {
            Some(choice) => String::from_str(choice.as_str()),
            None => String::from_str(self.output_format.as_str()),
        };
        let deep_crawl = match params.deep_crawl {
            Some(choice) => Some(String::from_str(choice.as_str())),
            None => match self.deep_crawl {
                Some(strategy) => Some(String::from_str(strategy.as_str())),
                None => None,
            },
        };
        let mut extra_args: Vec<String> = Vec::new();
        extend_cloned(&mut extra_args, &self.extra_args);
        assert(extra_args.deep_view() =~= self.extra_args.deep_view());
        let request = FetchRequest {
            url: params.url,
            output: Some(output),
            profile: clone_or(params.profile, &self.profile),
            browser_config: clone_or(params.browser_config, &self.browser_config),
            crawler_config: clone_or(params.crawler_config, &self.crawler_config),
            deep_crawl,
            max_pages: match params.max_pages {
                Some(n) => Some(n),
                None => self.max_pages,
            },
            question: params.question,
            output_file: params.output_file,
            bypass_cache: match params.bypass_cache {
                Some(b) => b,
                None => false,
            },
            verbose: match params.verbose {
                Some(v) => v,
                None => self.verbose,
            },
            extra_args,
        };
        assert(request@ =~= fetch_request_for(self@, p));
        request
    }

    /// Apply truncation and attach stderr diagnostics to the fetched content;
    /// the result has at most `max_output_chars` characters (at least one).
    pub fn render_result(&self, content: String, output: FetchOutput) -> (result: Result<
        String,
        String,
    >)
        ensures
            result matches Ok(text) && text@ == rendered(
                content@,
                output.stderr@,
                self.max_output_chars,
            ),
            result matches Ok(text) && text@.len() <= output_cap(self.max_output_chars),
    {
        proof {
            lemma_rendered_within_cap(content@, output.stderr@, self.max_output_chars);
        }
        let original_len = content.as_str().unicode_len();
        let mut result = content;
        let stderr = trim_str(output.stderr.as_str());
        if !stderr.is_empty() {
            result.append("\n\n[crwl stderr]\n");
            result.append(truncate_at_char_boundary(stderr, 2000));
        }
        let max = if self.max_output_chars > 1 {
            self.max_output_chars
        } else {
            1
        };
        let result_len = result.as_str().unicode_len();
        if result_len > max {
            let widest_note = truncation_note_string(max, original_len);
            let widest_len = widest_note.as_str().unicode_len();
            if widest_len <= max {
                let shown = max - widest_len;
                let mut shortened = String::from_str(result.as_str().substring_char(0, shown));
                let note = truncation_note_string(shown, original_len);
                shortened.append(note.as_str());
                result = shortened;
            } else {
                result = String::from_str(result.as_str().substring_char(0, max));
            }
        }
        Ok(result)
    }
}

/// The tool's output choices mirror `crwl -o`: each choice passes the name
/// of the output format it stands for.
pub proof fn lemma_output_choice_mirrors_format(c: OutputChoice)
    ensures
        c.name() == c.format().name(),
{
}

/// The tool's deep-crawl choices mirror `crwl --deep-crawl`.
pub proof fn lemma_deep_crawl_choice_mirrors_strategy(c: DeepCrawlChoice)
    ensures
        c.name() == c.strategy().name(),
{
}

/// Any omitted argument falls back to the server configuration: a call that
/// gives only the URL asks for the configured output format, profile,
/// config files, deep-crawl strategy, page limit and verbosity, with the
/// configured extra arguments and no question, output file or cache bypass.
pub proof fn lemma_omitted_arguments_fall_back(c: ConfigView, p: FetchParamsView)
    requires
        p.output is None,
        p.profile is None,
        p.browser_config is None,
        p.crawler_config is None,
        p.deep_crawl is None,
        p.max_pages is None,
        p.question is None,
        p.output_file is None,
        p.bypass_cache is None,
        p.verbose is None,
    ensures
        fetch_request_for(c, p) == (FetchRequestView {
            url: p.url,
            output: Some(c.output_format.name()),
            profile: c.profile,
            browser_config: c.browser_config,
            crawler_config: c.crawler_config,
            deep_crawl: match c.deep_crawl {
                Some(s) => Some(s.name()),
                None => None,
            },
            max_pages: c.max_pages,
            question: None,
            output_file: None,
            bypass_cache: false,
            verbose: c.verbose,
            extra_args: c.extra_args,
        }),
{
    assert(fetch_request_for(c, p) =~= (FetchRequestView {
        url: p.url,
        output: Some(c.output_format.name()),
        profile: c.profile,
        browser_config: c.browser_config,
        crawler_config: c.crawler_config,
        deep_crawl: match c.deep_crawl {
            Some(s) => Some(s.name()),
            None => None,
        },
        max_pages: c.max_pages,
        question: None,
        output_file: None,
        bypass_cache: false,
        verbose: c.verbose,
        extra_args: c.extra_args,
    }));
}

/// Tool results are capped at `max_output_chars` characters (at least one),
/// overflow truncated: a rendered result never has more characters than the
/// cap; it is the content with its diagnostics, unchanged, when that fits,
/// and otherwise begins with a prefix of it. The fetched content itself
/// comes first.
pub proof fn lemma_rendered_within_cap(content: Seq<char>, stderr: Seq<char>, max_output_chars: usize)
    ensures
        ({
            let body = with_diagnostics(content, stderr);
            let cap = output_cap(max_output_chars);
            let r = rendered(content, stderr, max_output_chars);
            &&& r.len() <= cap
            &&& body.subrange(0, content.len() as int) == content
            &&& body.len() <= cap ==> r == body
            &&& body.len() > cap ==> exists|kept: int|
                0 <= kept <= cap && r.subrange(0, kept) == body.subrange(0, kept)
        }),
{
    let body = with_diagnostics(content, stderr);
    let cap = output_cap(max_output_chars) as nat;
    let r = rendered(content, stderr, max_output_chars);
    assert(body.subrange(0, content.len() as int) =~= content);
    if body.len() > cap {
        let shown = shown_before_note(cap, content.len());
        if shown >= 0 {
            lemma_decimal_len_monotone(shown as nat, cap);
            assert(r.subrange(0, shown) =~= body.subrange(0, shown));
        } else {
            assert(r.subrange(0, cap as int) =~= body.subrange(0, cap as int));
        }
    }
}

/// A truncated result shows the beginning of the page: when the content
/// with its diagnostics exceeds the cap and the note fits, the result is the
/// first `shown` characters of it followed by the note quoting `shown` and
/// the length of the content, `shown` characters being exactly what is left
/// of the cap for a note as wide as the cap allows; when even the note does
/// not fit, the result is the first `cap` characters.
pub proof fn lemma_truncated_result_shows_beginning(
    content: Seq<char>,
    stderr: Seq<char>,
    max_output_chars: usize,
)
    ensures
        ({
            let body = with_diagnostics(content, stderr);
            let cap = output_cap(max_output_chars) as int;
            let r = rendered(content, stderr, max_output_chars);
            let note_len = ("\n\n[truncated: showing "@ + decimal(cap as nat) + " of "@ + decimal(
                content.len(),
            ) + " characters]"@).len();
            let shown = cap - note_len;
            &&& body.len() > cap && shown >= 0 ==> {
                &&& r.subrange(0, shown) == body.subrange(0, shown)
                &&& r.subrange(shown, r.len() as int) == "\n\n[truncated: showing "@ + decimal(
                    shown as nat,
                ) + " of "@ + decimal(content.len()) + " characters]"@
            }
            &&& body.len() > cap && shown < 0 ==> r == body.subrange(0, cap)
        }),
{
    let body = with_diagnostics(content, stderr);
    let cap = output_cap(max_output_chars) as int;
    let r = rendered(content, stderr, max_output_chars);
    let shown = shown_before_note(cap as nat, content.len());
    if body.len() > cap && shown >= 0 {
        assert(r.subrange(0, shown) =~= body.subrange(0, shown));
        assert(r.subrange(shown, r.len() as int) =~= truncation_note(shown as nat, content.len()));
    }
}

/// The content with its diagnostics: the content alone when the trimmed
/// stderr is empty; otherwise the content, the `[crwl stderr]` header, and
/// the beginning of the trimmed stderr, all of it when it fits in 2000
/// bytes and never more than 2000 bytes of it.
pub proof fn lemma_diagnostics_section(content: Seq<char>, stderr: Seq<char>)
    ensures
        ({
            let body = with_diagnostics(content, stderr);
            let t = trim(stderr);
            let header = "\n\n[crwl stderr]\n"@;
            &&& t.len() == 0 ==> body == content
            &&& t.len() > 0 ==> {
                let excerpt = body.subrange((content.len() + header.len()) as int, body.len() as int);
                &&& body.subrange(0, (content.len() + header.len()) as int) == content + header
                &&& excerpt.len() <= t.len()
                &&& t.subrange(0, excerpt.len() as int) == excerpt
                &&& byte_len(excerpt) <= 2000
                &&& byte_len(t) <= 2000 ==> excerpt == t
            }
        }),
{
    let body = with_diagnostics(content, stderr);
    let t = trim(stderr);
    let header = "\n\n[crwl stderr]\n"@;
    if t.len() > 0 {
        lemma_truncated(t, 2000);
        let x = truncated(t, 2000);
        assert(body =~= (content + header) + x);
        assert(body.subrange(0, (content.len() + header.len()) as int) =~= content + header);
        assert(body.subrange((content.len() + header.len()) as int, body.len() as int) =~= x);
    }
}

/// An argument the tool call gives wins over the configuration: the request
/// carries the call's URL, question and output file; its output format,
/// profile, config files, deep-crawl strategy, page limit, cache bypass and
/// verbosity are the call's whenever the call gives them; and the
/// configured extra arguments always go along.
pub proof fn lemma_given_arguments_win(c: ConfigView, p: FetchParamsView)
    ensures
        ({
            let r = fetch_request_for(c, p);
            &&& r.url == p.url
            &&& r.question == p.question
            &&& r.output_file == p.output_file
            &&& r.extra_args == c.extra_args
            &&& (p.output matches Some(o) ==> r.output == Some(o.name()))
            &&& (p.profile is Some ==> r.profile == p.profile)
            &&& (p.browser_config is Some ==> r.browser_config == p.browser_config)
            &&& (p.crawler_config is Some ==> r.crawler_config == p.crawler_config)
            &&& (p.deep_crawl matches Some(d) ==> r.deep_crawl == Some(d.name()))
            &&& (p.max_pages is Some ==> r.max_pages == p.max_pages)
            &&& (p.bypass_cache matches Some(b) ==> r.bypass_cache == b)
            &&& (p.verbose matches Some(v) ==> r.verbose == v)
            &&& (p.output is None ==> r.output == Some(c.output_format.name()))
            &&& (p.profile is None ==> r.profile == c.profile)
            &&& (p.browser_config is None ==> r.browser_config == c.browser_config)
            &&& (p.crawler_config is None ==> r.crawler_config == c.crawler_config)
            &&& (p.deep_crawl is None ==> r.deep_crawl == (match c.deep_crawl {
                Some(s) => Some(s.name()),
                None => None,
            }))
            &&& (p.max_pages is None ==> r.max_pages == c.max_pages)
            &&& (p.bypass_cache is None ==> !r.bypass_cache)
            &&& (p.verbose is None ==> r.verbose == c.verbose)
        }),
{
}

} // verus!
