//! What the command-line client computes: sizes and durations as text,
//! the URLs it calls, and its configuration.

use vstd::prelude::*;
use vstd::arithmetic::div_mod::{lemma_div_denominator, lemma_div_is_ordered_by_denominator};
use crate::ids::{format_id, id_text};
use crate::models::{Job, JobStatus, JobView, LogStream};
use crate::text::{
    chars_of, decimal, decimal_digits, digit_char, join2, join3, opt_view, push_decimal,
    replace_all, replaced, string_of,
};

verus! {

/// Two to the power `n`.
pub open spec fn pow2(n: nat) -> nat
    decreases n,
{
    if n == 0 {
        1
    } else {
        2 * pow2((n - 1) as nat)
    }
}

/// The number of low binary digits that a floating-point number with a
/// 53-digit significand cannot hold of `n`.
pub open spec fn dropped_bits(n: nat) -> nat
    decreases n,
{
    if n < 0x20_0000_0000_0000 {
        0
    } else {
        1 + dropped_bits(n / 2)
    }
}

/// The quotient of `num` by `den`, rounded to the nearest whole number,
/// and to the even one of two that are equally near.
pub open spec fn round_half_even(num: nat, den: nat) -> nat {
    if 2 * (num % den) > den || (2 * (num % den) == den && (num / den) % 2 == 1) {
        num / den + 1
    } else {
        num / den
    }
}

/// The double-precision floating-point number nearest to `n`.
pub open spec fn nearest_double(n: nat) -> nat {
    round_half_even(n, pow2(dropped_bits(n))) * pow2(dropped_bits(n))
}

/// A number of hundredths, written with two decimals.
pub open spec fn two_decimals(hundredths: nat) -> Seq<char> {
    decimal(hundredths / 100) + seq![
        '.',
        decimal_digits()[((hundredths / 10) % 10) as int],
        decimal_digits()[(hundredths % 10) as int],
    ]
}

/// A size in the unit of `unit` bytes, as a double-precision number
/// written with two decimals.
pub open spec fn scaled_text(bytes: nat, unit: nat) -> Seq<char> {
    two_decimals(round_half_even(nearest_double(bytes) * 100, unit))
}

/// A size in human-readable form: in GB, MB or KB (of 1024 bytes to the
/// next unit) with two decimals, from the largest unit that the size
/// reaches; below 1 KB, in bytes.
pub open spec fn size_text(bytes: nat) -> Seq<char> {
    if bytes >= 1024 * 1024 * 1024 {
        scaled_text(bytes, 1024 * 1024 * 1024) + " GB"@
    } else if bytes >= 1024 * 1024 {
        scaled_text(bytes, 1024 * 1024) + " MB"@
    } else if bytes >= 1024 {
        scaled_text(bytes, 1024) + " KB"@
    } else {
        decimal(bytes) + " bytes"@
    }
}

/// The quotient of `num` by `den`, rounded half to even.
pub fn round_div(num: u128, den: u128) -> (r: u128)
    requires
        den > 0,
        den <= u64::MAX,
        num / den < u128::MAX,
    ensures
        r == round_half_even(num as nat, den as nat),
{
    let q = num / den;
    let rem = num % den;
    if 2 * rem > den || (2 * rem == den && q % 2 == 1) {
        q + 1
    } else {
        q
    }
}

/// The double-precision floating-point number nearest to `n`.
pub fn to_nearest_double(n: u64) -> (r: u128)
    ensures
        r == nearest_double(n as nat),
        r <= 0x2_0000_0000_0000_0000,
{
    let mut m: u64 = n;
    let mut q: u64 = 1;
    let ghost mut k: nat = 0;
    while m >= 0x20_0000_0000_0000
        invariant
            q == pow2(k),
            0 < q < 4096,
            m == n / q,
            dropped_bits(n as nat) == k + dropped_bits(m as nat),
        decreases m,
    {
        proof {
            assert((n / q) * q <= n) by (nonlinear_arith)
                requires
                    q > 0,
            ;
            assert(q < 2048) by (nonlinear_arith)
                requires
                    m * q <= n,
                    m >= 0x20_0000_0000_0000,
                    n < 0x1_0000_0000_0000_0000,
                    q > 0,
            ;
            lemma_div_denominator(n as int, q as int, 2);
            k = k + 1;
        }
        m = m / 2;
        q = q * 2;
    }
    let rem = n % q;
    let up: u128 = if 2 * rem > q || (2 * rem == q && m % 2 == 1) {
        1
    } else {
        0
    };
    proof {
        assert((m + up) * q <= 0x20_0000_0000_0000 * 4096) by (nonlinear_arith)
            requires
                0 <= m + up <= 0x20_0000_0000_0000,
                0 < q <= 4096,
        ;
    }
    (m as u128 + up) * (q as u128)
}

/// Appends a number of hundredths, written with two decimals.
fn push_two_decimals(out: &mut String, hundredths: u128)
    requires
        hundredths / 100 <= u64::MAX,
    ensures
        final(out)@ == old(out)@ + two_decimals(hundredths as nat),
{
    push_decimal(out, (hundredths / 100) as u64);
    out.push('.');
    out.push(digit_char(((hundredths / 10) % 10) as u64));
    out.push(digit_char((hundredths % 10) as u64));
    assert(out@ =~= old(out)@ + two_decimals(hundredths as nat));
}

fn scaled(bytes: u64, unit: u64, suffix: &str) -> (out: String)
    requires
        unit >= 1024,
    ensures
        out@ == scaled_text(bytes as nat, unit as nat) + suffix@,
{
    let double = to_nearest_double(bytes);
    proof {
        lemma_div_is_ordered_by_denominator(double as int * 100, 1024, unit as int);
    }
    let hundredths = round_div(double * 100, unit as u128);
    let mut out = String::new();
    push_two_decimals(&mut out, hundredths);
    out.push_str(suffix);
    assert(out@ =~= scaled_text(bytes as nat, unit as nat) + suffix@);
    out
}

/// A size in human-readable form: `1.50 MB`, `512 bytes`.
pub fn format_size(bytes: usize) -> (text: String)
    ensures
        text@ == size_text(bytes as nat),
{
    let n = bytes as u64;
    if n >= 1024 * 1024 * 1024 {
        scaled(n, 1024 * 1024 * 1024, " GB")
    } else if n >= 1024 * 1024 {
        scaled(n, 1024 * 1024, " MB")
    } else if n >= 1024 {
        scaled(n, 1024, " KB")
    } else {
        let mut text = String::new();
        push_decimal(&mut text, n);
        text.push_str(" bytes");
        text
    }
}

/// A duration in human-readable form: hours, minutes and seconds from the
/// largest unit that the duration reaches, as in `1h 23m 45s`, `5m 30s`,
/// `45s`.
pub open spec fn build_time_text(total_seconds: nat) -> Seq<char> {
    let hours = total_seconds / 3600;
    let mins = (total_seconds % 3600) / 60;
    let secs = total_seconds % 60;
    if hours > 0 {
        decimal(hours) + "h "@ + decimal(mins) + "m "@ + decimal(secs) + "s"@
    } else if mins > 0 {
        decimal(mins) + "m "@ + decimal(secs) + "s"@
    } else {
        decimal(secs) + "s"@
    }
}

/// A build time, given in whole seconds, in human-readable form.
pub fn format_build_time(total_seconds: u64) -> (text: String)
    ensures
        text@ == build_time_text(total_seconds as nat),
{
    let hours = total_seconds / 3600;
    let mins = (total_seconds % 3600) / 60;
    let secs = total_seconds % 60;
    let mut text = String::new();
    if hours > 0 {
        push_decimal(&mut text, hours);
        text.push_str("h ");
    }
    if hours > 0 || mins > 0 {
        push_decimal(&mut text, mins);
        text.push_str("m ");
    }
    push_decimal(&mut text, secs);
    text.push_str("s");
    assert(text@ =~= build_time_text(total_seconds as nat));
    text
}

/// The whole seconds nearest to a build time given in milliseconds; of
/// two that are equally near, the later one.
pub fn build_seconds(build_millis: u64) -> (secs: u64)
    ensures
        secs == (build_millis + 500) / 1000,
{
    build_millis / 1000 + if build_millis % 1000 >= 500 {
        1
    } else {
        0
    }
}

/// The client of the API.
#[derive(Debug, Clone)]
pub struct AlloyClient {
    pub base_url: String,
    pub api_key: Option<String>,
}

impl AlloyClient {
    /// A client of the API at `base_url`, with the key it authenticates
    /// with, if any.
    pub fn new(base_url: &str, api_key: Option<&str>) -> (client: AlloyClient)
        ensures
            client.base_url@ == base_url@,
            opt_view(client.api_key) == match api_key {
                Some(k) => Some(k@),
                None => None,
            },
    {
        AlloyClient {
            base_url: String::from_str(base_url),
            api_key: match api_key {
                Some(k) => Some(String::from_str(k)),
                None => None,
            },
        }
    }

    /// The value of the Authorization header: `Bearer ` and the key, where
    /// the client has one.
    pub fn add_auth(&self) -> (header: Option<String>)
        ensures
            opt_view(header) == match self.api_key {
                Some(k) => Some("Bearer "@ + k@),
                None => None,
            },
    {
        match &self.api_key {
            Some(k) => Some(join2("Bearer ", k.as_str())),
            None => None,
        }
    }

    /// The WebSocket URL of a job's log stream: the base URL with its
    /// scheme turned from `http` to `ws` and from `https` to `wss`, and
    /// the path of the stream.
    pub fn get_stream_url(&self, job_id: u128) -> (url: String)
        ensures
            url@ == replaced(replaced(self.base_url@, "http://"@, "ws://"@), "https://"@, "wss://"@)
                + "/api/v1/jobs/"@ + id_text(job_id) + "/logs"@,
    {
        proof {
            reveal_strlit("http://");
            reveal_strlit("https://");
        }
        let ws = replace_all(self.base_url.as_str(), "http://", "ws://");
        let wss = replace_all(ws.as_str(), "https://", "wss://");
        let mut url = join3(wss.as_str(), "/api/v1/jobs/", format_id(job_id).as_str());
        url.push_str("/logs");
        url
    }

    /// The URL of the collection of jobs, with the status filter of a
    /// listing where one is given.
    pub fn list_jobs(&self, status: Option<&str>) -> (url: String)
        ensures
            url@ == match status {
                Some(s) => self.base_url@ + "/api/v1/jobs"@ + "?status="@ + s@,
                None => self.base_url@ + "/api/v1/jobs"@,
            },
    {
        let mut url = join2(self.base_url.as_str(), "/api/v1/jobs");
        match status {
            Some(s) => {
                url.push_str("?status=");
                url.push_str(s);
            },
            None => {},
        }
        url
    }

    /// The URL of a job, followed by `suffix`: empty for the job itself,
    /// or one of `/start`, `/cancel`, `/retry`, `/artifacts`.
    pub fn job_url(&self, job_id: u128, suffix: &str) -> (url: String)
        ensures
            url@ == self.base_url@ + "/api/v1/jobs/"@ + id_text(job_id) + suffix@,
    {
        let mut url = join3(self.base_url.as_str(), "/api/v1/jobs/", format_id(job_id).as_str());
        url.push_str(suffix);
        url
    }
}

/// What the `config` command is asked to do.
#[derive(Debug, Clone)]
pub enum ConfigAction {
    /// Set the API URL.
    SetUrl { url: String },
    /// Set the API key.
    SetKey { key: String },
    /// Show the configuration.
    Show,
}

/// The stored configuration of the client.
#[derive(Debug, Clone)]
pub struct AlloyConfig {
    pub api_url: Option<String>,
    pub api_key: Option<String>,
}

impl Default for AlloyConfig {
    fn default() -> (c: AlloyConfig)
        ensures
            c.api_url is None,
            c.api_key is None,
    {
        AlloyConfig { api_url: None, api_key: None }
    }
}

/// The API URL used where none is configured.
pub open spec fn default_api_url() -> Seq<char> {
    "https://api.alloy-ci.dev/"@
}

impl AlloyConfig {
    /// Applies a `set` action to the configuration and returns the line
    /// that confirms it. `Show` changes nothing and confirms nothing.
    pub fn apply(&mut self, action: &ConfigAction) -> (line: Option<String>)
        ensures
            match *action {
                ConfigAction::SetUrl { url } => opt_view(final(self).api_url) == Some(url@)
                    && opt_view(final(self).api_key) == opt_view(old(self).api_key) && opt_view(
                    line,
                ) == Some("Updated API URL to: "@ + url@),
                ConfigAction::SetKey { key } => opt_view(final(self).api_key) == Some(key@)
                    && opt_view(final(self).api_url) == opt_view(old(self).api_url) && opt_view(
                    line,
                ) == Some("Updated API key"@),
                ConfigAction::Show => opt_view(final(self).api_url) == opt_view(
                    old(self).api_url,
                ) && opt_view(final(self).api_key) == opt_view(old(self).api_key) && line
                    is None,
            },
    {
        match action {
            ConfigAction::SetUrl { url } => {
                self.api_url = Some(url.clone());
                Some(join2("Updated API URL to: ", url.as_str()))
            },
            ConfigAction::SetKey { key } => {
                self.api_key = Some(key.clone());
                Some(String::from_str("Updated API key"))
            },
            ConfigAction::Show => None,
        }
    }

    /// The API URL in effect: that of the environment, else that of the
    /// configuration, else the default.
    pub fn effective_url(&self, env_url: Option<&str>) -> (url: String)
        ensures
            url@ == match env_url {
                Some(e) => e@,
                None => match self.api_url {
                    Some(u) => u@,
                    None => default_api_url(),
                },
            },
    {
        match env_url {
            Some(e) => String::from_str(e),
            None => match &self.api_url {
                Some(u) => u.clone(),
                None => String::from_str("https://api.alloy-ci.dev/"),
            },
        }
    }

    /// Whether an API key is in effect: in the environment or in the
    /// configuration.
    pub fn has_key(&self, env_key: Option<&str>) -> (set: bool)
        ensures
            set == (env_key is Some || self.api_key is Some),
    {
        env_key.is_some() || self.api_key.is_some()
    }
}

/// The sign that a listing shows for a status.
pub fn status_icon(status: JobStatus) -> (icon: &'static str)
    ensures
        icon@ == match status {
            JobStatus::Pending => "\u{23f3}"@,
            JobStatus::Running => "\u{25b6}"@,
            JobStatus::Completed => "\u{2713}"@,
            JobStatus::Failed => "\u{2717}"@,
            JobStatus::Cancelled => "\u{2298}"@,
        },
{
    match status {
        JobStatus::Pending => "\u{23f3}",
        JobStatus::Running => "\u{25b6}",
        JobStatus::Completed => "\u{2713}",
        JobStatus::Failed => "\u{2717}",
        JobStatus::Cancelled => "\u{2298}",
    }
}

/// What a listing shows of the work of a job: the command, or `[script]`,
/// or `-` for a job without work; the first 15 characters and `...` where
/// that is longer than 18 characters.
pub open spec fn command_summary_text(job: JobView) -> Seq<char> {
    let work = if job.command is Some {
        job.command->0
    } else if job.script is Some {
        "[script]"@
    } else {
        "-"@
    };
    if work.len() > 18 {
        work.subrange(0, 15) + "..."@
    } else {
        work
    }
}

/// What a listing shows of the work of a job.
pub fn command_summary(job: &Job) -> (text: String)
    ensures
        text@ == command_summary_text(job@),
{
    proof {
        reveal_strlit("[script]");
        reveal_strlit("-");
    }
    let work: &str = match &job.command {
        Some(c) => c.as_str(),
        None => match &job.script {
            Some(_) => "[script]",
            None => "-",
        },
    };
    let cs = chars_of(work);
    if cs.len() > 18 {
        join2(string_of(&cs, 0, 15).as_str(), "...")
    } else {
        assert(cs@.subrange(0, cs@.len() as int) =~= cs@);
        string_of(&cs, 0, cs.len())
    }
}

/// The decimal numeral of a whole number, with a minus sign where it is
/// negative.
pub open spec fn signed_decimal(n: int) -> Seq<char> {
    if n < 0 {
        seq!['-'] + decimal((-n) as nat)
    } else {
        decimal(n as nat)
    }
}

/// Appends the decimal numeral of `n`.
pub fn push_signed(out: &mut String, n: i64)
    ensures
        final(out)@ == old(out)@ + signed_decimal(n as int),
{
    if n < 0 {
        out.push('-');
        let magnitude: u64 = if n == i64::MIN {
            0x8000_0000_0000_0000
        } else {
            (-n) as u64
        };
        push_decimal(out, magnitude);
        assert(out@ =~= old(out)@ + signed_decimal(n as int));
    } else {
        push_decimal(out, n as u64);
    }
}

/// The colour in which a line is shown.
#[derive(Debug, Clone, Copy, PartialEq, Eq, Structural)]
pub enum Tint {
    White,
    Yellow,
    Green,
    Red,
}

/// A frame of a job's log stream, as the client reads it.
#[derive(Debug, Clone)]
pub enum WatchFrame {
    /// A line of output.
    Log { stream: LogStream, content: String },
    /// The job has ended.
    Complete { status: String, exit_code: i64, build_millis: u64 },
    /// The server reports an error.
    Error { message: String },
    /// Anything else.
    Other,
}

/// What the client shows for a frame, and whether the watch ends with it.
#[derive(Debug)]
pub struct FrameOutput {
    /// The lines to print, each in its colour.
    pub lines: Vec<(Tint, String)>,
    /// Whether no further frame is read.
    pub ends: bool,
}

/// The line that reports the end of a job.
pub open spec fn completion_line(status: Seq<char>, exit_code: i64) -> Seq<char> {
    (if exit_code == 0 {
        "\n\u{2713} Job "@
    } else {
        "\n\u{2717} Job "@
    }) + status + " with exit code "@ + signed_decimal(exit_code as int) + "\n"@
}

/// What the client shows for a frame of a log stream. A line of output is
/// shown as it is, standard error in yellow. The frame of completion is
/// shown as a verdict, green for exit code zero and red otherwise, with
/// the build time, and ends the watch. An error frame is shown in red, and
/// ends the watch where `stop_on_error` says so. Other frames show
/// nothing.
pub fn show_frame(frame: &WatchFrame, stop_on_error: bool) -> (out: FrameOutput)
    ensures
        match *frame {
            WatchFrame::Log { stream, content } => {
                &&& !out.ends
                &&& out.lines@.len() == 1
                &&& out.lines@[0].0 == if stream == LogStream::Stdout {
                    Tint::White
                } else {
                    Tint::Yellow
                }
                &&& out.lines@[0].1@ == content@ + "\n"@
            },
            WatchFrame::Complete { status, exit_code, build_millis } => {
                &&& out.ends
                &&& out.lines@.len() == 2
                &&& out.lines@[0].0 == if exit_code == 0 {
                    Tint::Green
                } else {
                    Tint::Red
                }
                &&& out.lines@[0].1@ == completion_line(status@, exit_code)
                &&& out.lines@[1].0 == Tint::White
                &&& out.lines@[1].1@ == "   Build time: "@ + build_time_text(
                    ((build_millis + 500) / 1000) as nat,
                ) + "\n"@
            },
            WatchFrame::Error { message } => {
                &&& out.ends == stop_on_error
                &&& out.lines@.len() == 1
                &&& out.lines@[0].0 == Tint::Red
                &&& out.lines@[0].1@ == "Error: "@ + message@ + "\n"@
            },
            WatchFrame::Other => !out.ends && out.lines@.len() == 0,
        },
{
    let mut lines: Vec<(Tint, String)> = Vec::new();
    match frame {
        WatchFrame::Log { stream, content } => {
            let tint = match stream {
                LogStream::Stdout => Tint::White,
                LogStream::Stderr => Tint::Yellow,
            };
            lines.push((tint, join2(content.as_str(), "\n")));
            FrameOutput { lines, ends: false }
        },
        WatchFrame::Complete { status, exit_code, build_millis } => {
            let (tint, mut verdict) = if *exit_code == 0 {
                (Tint::Green, String::from_str("\n\u{2713} Job "))
            } else {
                (Tint::Red, String::from_str("\n\u{2717} Job "))
            };
            verdict.push_str(status.as_str());
            verdict.push_str(" with exit code ");
            push_signed(&mut verdict, *exit_code);
            verdict.push_str("\n");
            lines.push((tint, verdict));
            let time = format_build_time(build_seconds(*build_millis));
            lines.push((Tint::White, join3("   Build time: ", time.as_str(), "\n")));
            FrameOutput { lines, ends: true }
        },
        WatchFrame::Error { message } => {
            lines.push((Tint::Red, join3("Error: ", message.as_str(), "\n")));
            FrameOutput { lines, ends: stop_on_error }
        },
        WatchFrame::Other => FrameOutput { lines, ends: false },
    }
}

/// Whether the `run` command has work to submit: a command, or a script
/// file, or both.
pub fn check_run(command: &Option<String>, script_path: &Option<String>) -> (r: Result<
    (),
    &'static str,
>)
    ensures
        match r {
            Ok(()) => command is Some || script_path is Some,
            Err(m) => command is None && script_path is None && m@
                == "Either a command or --script is required"@,
        },
{
    if command.is_none() && script_path.is_none() {
        Err("Either a command or --script is required")
    } else {
        Ok(())
    }
}

} // verus!
