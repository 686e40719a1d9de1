//! The `crwl crawl` invocation: the argument vector built from a
//! [`FetchRequest`], and the messages that describe a failed run.
//!
//! Spawning the process, waiting for it with a timeout and reading its
//! output are left to the caller; this module decides what is run and how a
//! failure is reported.
use vstd::prelude::*;
use vstd::string::*;
use vstd::utf8::*;

use crate::config::{given_or, opt_chars};
use crate::text::{
    decimal, decimal_string, is_white_space, lemma_trim_keeps_unpadded, lemma_trim_of_unindented,
    lemma_trim_end_is_prefix, lemma_trim_end_keeps_unpadded_head, lemma_truncated,
    signed_decimal, signed_decimal_string, trim, trim_end, trim_str, truncated,
};
use crate::server::truncate_at_char_boundary;

verus! {

broadcast use vstd::utf8::group_utf8_lib;

/// A single `crwl crawl` invocation.
#[derive(Debug, Clone)]
pub struct FetchRequest {
    /// The URL to fetch. Required.
    pub url: String,
    /// `-o` output format (`all`, `json`, `markdown`, `md`, `markdown-fit`, `md-fit`).
    pub output: Option<String>,
    /// `-p` browser profile name.
    pub profile: Option<String>,
    /// `-B` browser config file (YAML/JSON).
    pub browser_config: Option<String>,
    /// `-C` crawler config file (YAML/JSON).
    pub crawler_config: Option<String>,
    /// `--deep-crawl` strategy (`bfs`, `dfs`, `best-first`).
    pub deep_crawl: Option<String>,
    /// `--max-pages` limit for deep crawls.
    pub max_pages: Option<u32>,
    /// `-q` LLM question about the page content.
    pub question: Option<String>,
    /// `-O` output file path. When set, the fetched content is written there
    /// instead of stdout.
    pub output_file: Option<String>,
    /// `-bc` bypass the crawl cache.
    pub bypass_cache: bool,
    /// `-v` verbose crawl progress (goes to stderr).
    pub verbose: bool,
    /// Extra raw arguments forwarded verbatim to `crwl crawl`.
    pub extra_args: Vec<String>,
}

/// The mathematical value of a [`FetchRequest`].
#[verifier::ext_equal]
pub struct FetchRequestView {
    pub url: Seq<char>,
    pub output: Option<Seq<char>>,
    pub profile: Option<Seq<char>>,
    pub browser_config: Option<Seq<char>>,
    pub crawler_config: Option<Seq<char>>,
    pub deep_crawl: Option<Seq<char>>,
    pub max_pages: Option<u32>,
    pub question: Option<Seq<char>>,
    pub output_file: Option<Seq<char>>,
    pub bypass_cache: bool,
    pub verbose: bool,
    pub extra_args: Seq<Seq<char>>,
}

impl View for FetchRequest {
    type V = FetchRequestView;

    open spec fn view(&self) -> FetchRequestView {
        FetchRequestView {
            url: self.url@,
            output: opt_chars(self.output),
            profile: opt_chars(self.profile),
            browser_config: opt_chars(self.browser_config),
            crawler_config: opt_chars(self.crawler_config),
            deep_crawl: opt_chars(self.deep_crawl),
            max_pages: self.max_pages,
            question: opt_chars(self.question),
            output_file: opt_chars(self.output_file),
            bypass_cache: self.bypass_cache,
            verbose: self.verbose,
            extra_args: self.extra_args.deep_view(),
        }
    }
}

/// `flag value` when a value is given, nothing otherwise.
pub open spec fn flag_with_value(flag: Seq<char>, value: Option<Seq<char>>) -> Seq<Seq<char>> {
    match value {
        Some(v) => seq![flag, v],
        None => Seq::empty(),
    }
}

/// `flag` when `on`, nothing otherwise.
pub open spec fn switch(flag: Seq<char>, on: bool) -> Seq<Seq<char>> {
    if on {
        seq![flag]
    } else {
        Seq::empty()
    }
}

/// The decimal text of an optional page limit.
pub open spec fn opt_decimal(n: Option<u32>) -> Option<Seq<char>> {
    match n {
        Some(k) => Some(decimal(k as nat)),
        None => None,
    }
}

/// The arguments passed to the `crwl` binary for a request: the `crawl`
/// subcommand, the extra arguments (first, so that the explicit flags after
/// them win), `-o` with the requested format (`markdown` when none is
/// given), the optional flags in a fixed order, and the URL last.
pub open spec fn crawl_args(r: FetchRequestView) -> Seq<Seq<char>> {
    seq!["crawl"@] + r.extra_args + seq!["-o"@, given_or(r.output, "markdown"@)] + flag_with_value(
        "-p"@,
        r.profile,
    ) + flag_with_value("-B"@, r.browser_config) + flag_with_value("-C"@, r.crawler_config)
        + flag_with_value("--deep-crawl"@, r.deep_crawl) + flag_with_value(
        "--max-pages"@,
        opt_decimal(r.max_pages),
    ) + flag_with_value("-q"@, r.question) + flag_with_value("-O"@, r.output_file) + switch(
        "-bc"@,
        r.bypass_cache,
    ) + switch("-v"@, r.verbose) + seq![r.url]
}

fn push_str(args: &mut Vec<String>, s: &str)
    ensures
        final(args).deep_view() == old(args).deep_view().push(s@),
{
    args.push(String::from_str(s));
    assert(args.deep_view() =~= old(args).deep_view().push(s@));
}

fn push_flag(args: &mut Vec<String>, flag: &str, value: &Option<String>)
    ensures
        final(args).deep_view() == old(args).deep_view() + flag_with_value(flag@, opt_chars(*value)),
{
    if let Some(v) = value {
        push_str(args, flag);
        push_str(args, v.as_str());
        assert(args.deep_view() =~= old(args).deep_view() + flag_with_value(flag@, opt_chars(*value)));
    } else {
        assert(args.deep_view() =~= old(args).deep_view() + flag_with_value(flag@, opt_chars(*value)));
    }
}

fn push_switch(args: &mut Vec<String>, flag: &str, on: bool)
    ensures
        final(args).deep_view() == old(args).deep_view() + switch(flag@, on),
{
    if on {
        push_str(args, flag);
    }
    assert(args.deep_view() =~= old(args).deep_view() + switch(flag@, on));
}

impl FetchRequest {
    /// The arguments of the `crwl` process that runs this request.
    #[verifier::spinoff_prover]
    #[verifier::rlimit(40)]
    pub fn crawl_args(&self) -> (args: Vec<String>)
        ensures
            args.deep_view() == crawl_args(self@),
    {
        let mut args: Vec<String> = Vec::new();
        push_str(&mut args, "crawl");
        let n = self.extra_args.len();
        for i in 0..n
            invariant
                n == self.extra_args@.len(),
                args.deep_view() == seq!["crawl"@] + self.extra_args.deep_view().subrange(
                    0,
                    i as int,
                ),
        {
            push_str(&mut args, self.extra_args[i].as_str());
            assert(args.deep_view() =~= seq!["crawl"@] + self.extra_args.deep_view().subrange(
                0,
                i + 1,
            ));
        }
        assert(self.extra_args.deep_view().subrange(0, n as int) =~= self.extra_args.deep_view());
        push_str(&mut args, "-o");
        match &self.output {
            Some(o) => push_str(&mut args, o.as_str()),
            None => push_str(&mut args, "markdown"),
        }
        push_flag(&mut args, "-p", &self.profile);
        push_flag(&mut args, "-B", &self.browser_config);
        push_flag(&mut args, "-C", &self.crawler_config);
        push_flag(&mut args, "--deep-crawl", &self.deep_crawl);
        let pages: Option<String> = match self.max_pages {
            Some(n) => Some(decimal_string(n as u64)),
            None => None,
        };
        push_flag(&mut args, "--max-pages", &pages);
        push_flag(&mut args, "-q", &self.question);
        push_flag(&mut args, "-O", &self.output_file);
        push_switch(&mut args, "-bc", self.bypass_cache);
        push_switch(&mut args, "-v", self.verbose);
        push_str(&mut args, self.url.as_str());
        assert(args.deep_view() =~= crawl_args(self@));
        args
    }
}

/// Captured output of a `crwl crawl` invocation.
#[derive(Debug)]
pub struct FetchOutput {
    /// Everything the process wrote to stdout.
    pub stdout: String,
    /// Everything the process wrote to stderr.
    pub stderr: String,
    /// Exit status code, if the process exited normally.
    pub status: Option<i32>,
    /// True if the process was killed after exceeding the timeout.
    pub timed_out: bool,
}

/// A run succeeded when it exited with status 0 before the timeout.
pub open spec fn fetch_succeeded(output: FetchOutput) -> bool {
    output.status == Some(0i32) && !output.timed_out
}

impl FetchOutput {
    /// Whether the run exited with status 0 before the timeout.
    pub fn succeeded(&self) -> (ok: bool)
        ensures
            ok == fetch_succeeded(*self),
            ok <==> (self.status == Some(0i32) && !self.timed_out),
    {
        match self.status {
            Some(code) => code == 0 && !self.timed_out,
            None => false,
        }
    }
}

/// Runs the `crwl` binary.
#[derive(Debug)]
pub struct CrwlRunner {
    bin: String,
    timeout: std::time::Duration,
}

impl Clone for CrwlRunner {
    fn clone(&self) -> (r: Self)
        ensures
            r.bin_spec() == self.bin_spec(),
            r.timeout_spec() == self.timeout_spec(),
    {
        CrwlRunner { bin: self.bin.clone(), timeout: self.timeout }
    }
}

impl CrwlRunner {
    /// The binary this runner starts.
    pub closed spec fn bin_spec(self) -> Seq<char> {
        self.bin@
    }

    /// How long this runner lets a run take before killing it.
    pub closed spec fn timeout_spec(self) -> std::time::Duration {
        self.timeout
    }

    pub fn new(bin: String, timeout: std::time::Duration) -> (r: Self)
        ensures
            r.bin_spec() == bin@,
            r.timeout_spec() == timeout,
    {
        Self { bin, timeout }
    }

    /// The binary this runner starts.
    pub fn bin(&self) -> (b: &str)
        ensures
            b@ == self.bin_spec(),
    {
        self.bin.as_str()
    }

    /// How long this runner lets a run take before killing it.
    pub fn timeout(&self) -> (t: std::time::Duration)
        ensures
            t == self.timeout_spec(),
    {
        self.timeout
    }
}

/// The message given when the `crwl` binary could not be started.
pub open spec fn spawn_hint_text(bin: Seq<char>, url: Seq<char>) -> Seq<char> {
    "failed to spawn `"@ + bin + "` while fetching `"@ + url
        + "` — is the crwl binary installed and on PATH?"@
}

/// The message given when the `crwl` binary could not be started.
pub fn spawn_hint(bin: &str, url: &str) -> (hint: String)
    ensures
        hint@ == spawn_hint_text(bin@, url@),
{
    let mut hint = String::from_str("failed to spawn `");
    hint.append(bin);
    hint.append("` while fetching `");
    hint.append(url);
    hint.append("` — is the crwl binary installed and on PATH?");
    hint
}

/// Why a run failed: timed out, exited with a status, or terminated.
pub open spec fn failure_kind(timed_out: bool, status: Option<i32>) -> Seq<char> {
    if timed_out {
        "timed out"@
    } else {
        match status {
            Some(code) => "exited with status "@ + signed_decimal(code as int),
            None => "was terminated"@,
        }
    }
}

/// The stderr part of a failure message: empty when the trimmed stderr is,
/// else `": "` and the longest prefix of it that fits in 2000 bytes without
/// splitting a character.
pub open spec fn failure_detail(stderr: Seq<char>) -> Seq<char> {
    if trim(stderr).len() == 0 {
        Seq::empty()
    } else {
        ": "@ + truncated(trim(stderr), 2000)
    }
}

/// `crwl {kind} while fetching `{url}`{detail}`.
pub open spec fn failure_text(exit: FetchOutput, url: Seq<char>) -> Seq<char> {
    "crwl "@ + failure_kind(exit.timed_out, exit.status) + " while fetching `"@ + url + "`"@
        + failure_detail(exit.stderr@)
}

/// The human-readable description of a failed `crwl crawl` run: the
/// failure text without surrounding whitespace.
pub open spec fn fetch_error_message(exit: FetchOutput, url: Seq<char>) -> Seq<char> {
    trim(failure_text(exit, url))
}

/// Build a human-readable error describing a failed `crwl crawl` run.
pub fn fetch_error(exit: &FetchOutput, url: &str) -> (message: String)
    ensures
        message@ == fetch_error_message(*exit, url@),
{
    let stderr = trim_str(exit.stderr.as_str());
    let kind: String = if exit.timed_out {
        String::from_str("timed out")
    } else {
        match exit.status {
            Some(code) => {
                let mut k = String::from_str("exited with status ");
                let digits = signed_decimal_string(code as i64);
                k.append(digits.as_str());
                k
            },
            None => String::from_str("was terminated"),
        }
    };
    let detail: String = if stderr.is_empty() {
        String::new()
    } else {
        let mut d = String::from_str(": ");
        d.append(truncate_at_char_boundary(stderr, 2000));
        d
    };
    let mut message = String::from_str("crwl ");
    message.append(kind.as_str());
    message.append(" while fetching `");
    message.append(url);
    message.append("`");
    message.append(detail.as_str());
    String::from_str(trim_str(message.as_str()))
}

/// Every invocation runs `crwl crawl`, passes the extra arguments right
/// after the subcommand, then `-o` with the requested output format
/// (`markdown` when none is requested), and ends with the URL.
pub proof fn lemma_crawl_args_shape(r: FetchRequestView)
    ensures
        ({
            let args = crawl_args(r);
            let n = r.extra_args.len() as int;
            &&& args.len() >= n + 4
            &&& args[0] == "crawl"@
            &&& args.subrange(1, n + 1) == r.extra_args
            &&& args[n + 1] == "-o"@
            &&& args[n + 2] == given_or(r.output, "markdown"@)
            &&& args.last() == r.url
        }),
{
    let args = crawl_args(r);
    let n = r.extra_args.len() as int;
    let head = seq!["crawl"@] + r.extra_args + seq!["-o"@, given_or(r.output, "markdown"@)];
    let tail = args.subrange(head.len() as int, args.len() as int);
    assert(args =~= head + tail);
    assert(args.subrange(1, n + 1) =~= r.extra_args);
}

/// A failure message always begins with `crwl `, then says how the run
/// failed and which URL it was fetching; only trailing whitespace of the
/// quoted stderr is dropped, and without stderr the message is exactly
/// `crwl {kind} while fetching `{url}``.
pub proof fn lemma_fetch_error_message_shape(exit: FetchOutput, url: Seq<char>)
    ensures
        fetch_error_message(exit, url) == trim_end(failure_text(exit, url)),
        trim(exit.stderr@).len() == 0 ==> fetch_error_message(exit, url) == "crwl "@
            + failure_kind(exit.timed_out, exit.status) + " while fetching `"@ + url + "`"@,
{
    reveal_strlit("crwl ");
    reveal_strlit("`");
    let text = failure_text(exit, url);
    assert(text[0] == 'c');
    assert(!is_white_space(text[0]));
    lemma_trim_of_unindented(text);
    if trim(exit.stderr@).len() == 0 {
        let bare = "crwl "@ + failure_kind(exit.timed_out, exit.status) + " while fetching `"@
            + url + "`"@;
        assert(text =~= bare);
        assert(text.last() == '`');
        lemma_trim_keeps_unpadded(text);
    }
}

/// A request with no extra arguments and no optional values runs
/// `crwl crawl -o <format> [-bc] [-v] <url>`: `-bc` exactly when the cache is
/// to be bypassed, `-v` exactly when verbose progress is asked for.
pub proof fn lemma_crawl_args_minimal(r: FetchRequestView)
    requires
        r.extra_args.len() == 0,
        r.profile is None,
        r.browser_config is None,
        r.crawler_config is None,
        r.deep_crawl is None,
        r.max_pages is None,
        r.question is None,
        r.output_file is None,
    ensures
        crawl_args(r) == seq!["crawl"@, "-o"@, given_or(r.output, "markdown"@)] + (if r.bypass_cache {
            seq!["-bc"@]
        } else {
            Seq::empty()
        }) + (if r.verbose {
            seq!["-v"@]
        } else {
            Seq::empty()
        }) + seq![r.url],
{
    let expected = seq!["crawl"@, "-o"@, given_or(r.output, "markdown"@)] + (if r.bypass_cache {
        seq!["-bc"@]
    } else {
        Seq::empty()
    }) + (if r.verbose {
        seq!["-v"@]
    } else {
        Seq::empty()
    }) + seq![r.url];
    assert(crawl_args(r) =~= expected);
}

/// Asking for verbose progress adds `-v`, and nothing else, right before
/// the URL.
pub proof fn lemma_verbose_adds_v(r: FetchRequestView)
    ensures
        ({
            let quiet = crawl_args(FetchRequestView { verbose: false, ..r });
            let loud = crawl_args(FetchRequestView { verbose: true, ..r });
            loud == quiet.insert(quiet.len() - 1, "-v"@)
        }),
{
    let quiet = crawl_args(FetchRequestView { verbose: false, ..r });
    let loud = crawl_args(FetchRequestView { verbose: true, ..r });
    assert(loud =~= quiet.insert(quiet.len() - 1, "-v"@));
}

/// Bypassing the cache adds `-bc`, and nothing else, right before `-v` (if
/// any) and the URL.
pub proof fn lemma_bypass_cache_adds_bc(r: FetchRequestView)
    ensures
        ({
            let cached = crawl_args(FetchRequestView { bypass_cache: false, ..r });
            let fresh = crawl_args(FetchRequestView { bypass_cache: true, ..r });
            let at = cached.len() - 1 - (if r.verbose {
                1int
            } else {
                0
            });
            fresh == cached.insert(at, "-bc"@)
        }),
{
    let cached = crawl_args(FetchRequestView { bypass_cache: false, ..r });
    let fresh = crawl_args(FetchRequestView { bypass_cache: true, ..r });
    let at = cached.len() - 1 - (if r.verbose {
        1int
    } else {
        0
    });
    assert(fresh =~= cached.insert(at, "-bc"@));
}

/// When `value` is given, it appears right after `flag` somewhere at or
/// after position `from`, before the last argument.
pub open spec fn value_after_flag(
    args: Seq<Seq<char>>,
    from: int,
    flag: Seq<char>,
    value: Option<Seq<char>>,
) -> bool {
    value matches Some(v) ==> exists|i: int|
        from <= i && i + 1 < args.len() - 1 && #[trigger] args[i] == flag && args[i + 1] == v
}

/// `value`, when given, stands right after `flag` at or after `from`,
/// inside `args`.
spec fn pair_within(args: Seq<Seq<char>>, from: int, flag: Seq<char>, value: Option<Seq<char>>) -> bool {
    value matches Some(v) ==> exists|i: int|
        from <= i && i + 1 < args.len() && #[trigger] args[i] == flag && args[i + 1] == v
}

proof fn lemma_pair_appended(pre: Seq<Seq<char>>, from: int, flag: Seq<char>, value: Option<Seq<char>>)
    requires
        from <= pre.len(),
    ensures
        pair_within(pre + flag_with_value(flag, value), from, flag, value),
{
    if value is Some {
        let args = pre + flag_with_value(flag, value);
        let i = pre.len() as int;
        assert(args[i] == flag);
        assert(args[i + 1] == value->0);
    }
}

proof fn lemma_pair_kept(a: Seq<Seq<char>>, b: Seq<Seq<char>>, from: int, flag: Seq<char>, value: Option<Seq<char>>)
    requires
        0 <= from,
        pair_within(a, from, flag, value),
    ensures
        pair_within(a + b, from, flag, value),
{
    if let Some(v) = value {
        assert(exists|i: int| from <= i && i + 1 < a.len() && #[trigger] a[i] == flag && a[i + 1] == v);
        let i = choose|i: int| from <= i && i + 1 < a.len() && #[trigger] a[i] == flag && a[i + 1] == v;
        assert(a[i] == flag);
        assert((a + b)[i] == flag);
        assert((a + b)[i + 1] == v);
    }
}

proof fn lemma_pair_before_tail(a: Seq<Seq<char>>, tail: Seq<Seq<char>>, from: int, flag: Seq<char>, value: Option<Seq<char>>)
    requires
        0 <= from,
        pair_within(a, from, flag, value),
        tail.len() >= 1,
    ensures
        value_after_flag(a + tail, from, flag, value),
{
    if let Some(v) = value {
        assert(exists|i: int| from <= i && i + 1 < a.len() && #[trigger] a[i] == flag && a[i + 1] == v);
        let i = choose|i: int| from <= i && i + 1 < a.len() && #[trigger] a[i] == flag && a[i + 1] == v;
        assert(a[i] == flag);
        assert((a + tail)[i] == flag);
        assert((a + tail)[i + 1] == v);
    }
}

/// Every value the request gives reaches `crwl` right after its own flag:
/// `-p` the profile, `-B` the browser config, `-C` the crawler config,
/// `--deep-crawl` the strategy, `--max-pages` the limit in decimal, `-q`
/// the question and `-O` the output file, each after the extra arguments
/// and the `-o` pair and before the URL.
pub proof fn lemma_values_follow_their_flags(r: FetchRequestView)
    ensures
        value_after_flag(crawl_args(r), r.extra_args.len() + 3int, "-p"@, r.profile),
        value_after_flag(crawl_args(r), r.extra_args.len() + 3int, "-B"@, r.browser_config),
        value_after_flag(crawl_args(r), r.extra_args.len() + 3int, "-C"@, r.crawler_config),
        value_after_flag(crawl_args(r), r.extra_args.len() + 3int, "--deep-crawl"@, r.deep_crawl),
        value_after_flag(
            crawl_args(r),
            r.extra_args.len() + 3int,
            "--max-pages"@,
            opt_decimal(r.max_pages),
        ),
        value_after_flag(crawl_args(r), r.extra_args.len() + 3int, "-q"@, r.question),
        value_after_flag(crawl_args(r), r.extra_args.len() + 3int, "-O"@, r.output_file),
{
    let from = r.extra_args.len() + 3int;
    let x0 = seq!["crawl"@] + r.extra_args + seq!["-o"@, given_or(r.output, "markdown"@)];
    let x1 = x0 + flag_with_value("-p"@, r.profile);
    let x2 = x1 + flag_with_value("-B"@, r.browser_config);
    let x3 = x2 + flag_with_value("-C"@, r.crawler_config);
    let x4 = x3 + flag_with_value("--deep-crawl"@, r.deep_crawl);
    let x5 = x4 + flag_with_value("--max-pages"@, opt_decimal(r.max_pages));
    let x6 = x5 + flag_with_value("-q"@, r.question);
    let x7 = x6 + flag_with_value("-O"@, r.output_file);
    let t1 = switch("-bc"@, r.bypass_cache);
    let t2 = switch("-v"@, r.verbose);
    let t3 = seq![r.url];
    assert(crawl_args(r) == x7 + t1 + t2 + t3);
    assert(x7 + t1 + t2 + t3 =~= x7 + (t1 + t2 + t3));
    let tail = t1 + t2 + t3;
    let args = crawl_args(r);

    lemma_pair_appended(x0, from, "-p"@, r.profile);
    lemma_pair_kept(x1, flag_with_value("-B"@, r.browser_config), from, "-p"@, r.profile);
    lemma_pair_kept(x2, flag_with_value("-C"@, r.crawler_config), from, "-p"@, r.profile);
    lemma_pair_kept(x3, flag_with_value("--deep-crawl"@, r.deep_crawl), from, "-p"@, r.profile);
    lemma_pair_kept(x4, flag_with_value("--max-pages"@, opt_decimal(r.max_pages)), from, "-p"@, r.profile);
    lemma_pair_kept(x5, flag_with_value("-q"@, r.question), from, "-p"@, r.profile);
    lemma_pair_kept(x6, flag_with_value("-O"@, r.output_file), from, "-p"@, r.profile);
    lemma_pair_before_tail(x7, tail, from, "-p"@, r.profile);

    lemma_pair_appended(x1, from, "-B"@, r.browser_config);
    lemma_pair_kept(x2, flag_with_value("-C"@, r.crawler_config), from, "-B"@, r.browser_config);
    lemma_pair_kept(x3, flag_with_value("--deep-crawl"@, r.deep_crawl), from, "-B"@, r.browser_config);
    lemma_pair_kept(x4, flag_with_value("--max-pages"@, opt_decimal(r.max_pages)), from, "-B"@, r.browser_config);
    lemma_pair_kept(x5, flag_with_value("-q"@, r.question), from, "-B"@, r.browser_config);
    lemma_pair_kept(x6, flag_with_value("-O"@, r.output_file), from, "-B"@, r.browser_config);
    lemma_pair_before_tail(x7, tail, from, "-B"@, r.browser_config);

    lemma_pair_appended(x2, from, "-C"@, r.crawler_config);
    lemma_pair_kept(x3, flag_with_value("--deep-crawl"@, r.deep_crawl), from, "-C"@, r.crawler_config);
    lemma_pair_kept(x4, flag_with_value("--max-pages"@, opt_decimal(r.max_pages)), from, "-C"@, r.crawler_config);
    lemma_pair_kept(x5, flag_with_value("-q"@, r.question), from, "-C"@, r.crawler_config);
    lemma_pair_kept(x6, flag_with_value("-O"@, r.output_file), from, "-C"@, r.crawler_config);
    lemma_pair_before_tail(x7, tail, from, "-C"@, r.crawler_config);

    lemma_pair_appended(x3, from, "--deep-crawl"@, r.deep_crawl);
    lemma_pair_kept(x4, flag_with_value("--max-pages"@, opt_decimal(r.max_pages)), from, "--deep-crawl"@, r.deep_crawl);
    lemma_pair_kept(x5, flag_with_value("-q"@, r.question), from, "--deep-crawl"@, r.deep_crawl);
    lemma_pair_kept(x6, flag_with_value("-O"@, r.output_file), from, "--deep-crawl"@, r.deep_crawl);
    lemma_pair_before_tail(x7, tail, from, "--deep-crawl"@, r.deep_crawl);

    lemma_pair_appended(x4, from, "--max-pages"@, opt_decimal(r.max_pages));
    lemma_pair_kept(x5, flag_with_value("-q"@, r.question), from, "--max-pages"@, opt_decimal(r.max_pages));
    lemma_pair_kept(x6, flag_with_value("-O"@, r.output_file), from, "--max-pages"@, opt_decimal(r.max_pages));
    lemma_pair_before_tail(x7, tail, from, "--max-pages"@, opt_decimal(r.max_pages));

    lemma_pair_appended(x5, from, "-q"@, r.question);
    lemma_pair_kept(x6, flag_with_value("-O"@, r.output_file), from, "-q"@, r.question);
    lemma_pair_before_tail(x7, tail, from, "-q"@, r.question);

    lemma_pair_appended(x6, from, "-O"@, r.output_file);
    lemma_pair_before_tail(x7, tail, from, "-O"@, r.output_file);
}

/// A run succeeds only when it exited with status 0 before the timeout:
/// any other status, no status, or a timeout is a failure.
pub proof fn lemma_success_is_exit_zero_in_time(o: FetchOutput)
    ensures
        o.timed_out ==> !fetch_succeeded(o),
        o.status != Some(0i32) ==> !fetch_succeeded(o),
        o.status == Some(0i32) && !o.timed_out ==> fetch_succeeded(o),
{
}

/// What a failure message says: `crwl timed out`, `crwl exited with status
/// <code>` (the code in decimal, with its sign) or `crwl was terminated`,
/// then ` while fetching `<url>``. With nothing on stderr that is the whole
/// message; otherwise the message goes on with `": "` and the beginning of
/// the trimmed stderr, and never with more than that.
pub proof fn lemma_fetch_error_says_what_failed(exit: FetchOutput, url: Seq<char>)
    ensures
        ({
            let kind = if exit.timed_out {
                "timed out"@
            } else if exit.status is Some {
                "exited with status "@ + signed_decimal(exit.status->0 as int)
            } else {
                "was terminated"@
            };
            let head = "crwl "@ + kind + " while fetching `"@ + url + "`"@;
            let m = fetch_error_message(exit, url);
            &&& trim(exit.stderr@).len() == 0 ==> m == head
            &&& trim(exit.stderr@).len() > 0 ==> {
                let full = head + ": "@ + trim(exit.stderr@);
                &&& head.len() <= m.len() <= full.len()
                &&& m == full.subrange(0, m.len() as int)
            }
        }),
{
    lemma_fetch_error_message_shape(exit, url);
    let kind = failure_kind(exit.timed_out, exit.status);
    let head = "crwl "@ + kind + " while fetching `"@ + url + "`"@;
    let text = failure_text(exit, url);
    let m = fetch_error_message(exit, url);
    let t = trim(exit.stderr@);
    if t.len() > 0 {
        reveal_strlit("`");
        let ex = truncated(t, 2000);
        lemma_truncated(t, 2000);
        let full = head + ": "@ + t;
        assert(text =~= head + (": "@ + ex));
        assert(head.last() == '`');
        lemma_trim_end_keeps_unpadded_head(head, ": "@ + ex);
        lemma_trim_end_is_prefix(text);
        assert(text =~= full.subrange(0, text.len() as int));
        assert(m == text.subrange(0, m.len() as int));
        assert(m =~= full.subrange(0, m.len() as int));
    }
}

} // verus!
