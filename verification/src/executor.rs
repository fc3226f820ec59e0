//! What a worker runs for a job: the commands sent to the VM, the lines
//! written to the log file, and the artifacts found afterwards.

use vstd::prelude::*;
use crate::models::{
    artifact_views, Artifact, ArtifactView, Job, JobView, LogStream, SourceType,
};
use crate::text::{
    chars_of, decimal, has_prefix, join2, join3, lines, lines_of, matches_at, parse_unsigned,
    parsed_unsigned, push_decimal, string_views, words, words_of,
};
use crate::vm_pool::ssh_target;

verus! {

/// The user of the VM images.
pub const VM_USER: &'static str = "admin";

/// The password of the VM images.
pub const VM_PASSWORD: &'static str = "admin";

/// The exit code reported for a run that ended without one, and for a job
/// that failed on the worker.
pub const NO_EXIT_CODE: i32 = -1;

/// The command that brings the source into the VM.
pub open spec fn fetch_command_text(source_type: SourceType, url: Seq<char>) -> Seq<char> {
    match source_type {
        SourceType::Git => "cd ~ && git clone --depth 1 '"@ + url + "' workspace && cd workspace"@,
        SourceType::Upload => "cd ~ && curl -sL '"@ + url
            + "' -o source.zip && unzip -q source.zip -d workspace && cd workspace"@,
    }
}

/// The command that brings the source of a job into the VM: a shallow
/// clone for a git source, a download and unzip for an uploaded archive.
/// `None` for a job without source URL.
pub fn fetch_command(job: &Job) -> (cmd: Option<String>)
    ensures
        match cmd {
            Some(c) => job@.source_url is Some && c@ == fetch_command_text(
                job.source_type,
                job@.source_url->0,
            ),
            None => job@.source_url is None,
        },
{
    match &job.source_url {
        Some(url) => Some(
            match job.source_type {
                SourceType::Git => join3(
                    "cd ~ && git clone --depth 1 '",
                    url.as_str(),
                    "' workspace && cd workspace",
                ),
                SourceType::Upload => join3(
                    "cd ~ && curl -sL '",
                    url.as_str(),
                    "' -o source.zip && unzip -q source.zip -d workspace && cd workspace",
                ),
            },
        ),
        None => None,
    }
}

/// The command that runs the work of a job in the workspace: a script is
/// written to a file through a here-document and executed; a command is
/// run directly.
pub open spec fn run_command_text(job: JobView) -> Seq<char> {
    if job.script is Some {
        "cat > /tmp/build_script.sh << 'SCRIPT_EOF'\n"@ + job.executable()->0
            + "\nSCRIPT_EOF\nchmod +x /tmp/build_script.sh && cd ~/workspace && /tmp/build_script.sh"@
    } else {
        "cd ~/workspace && "@ + job.executable()->0
    }
}

/// The command that runs the work of a job in the workspace. `None` for a
/// job with neither command nor script.
pub fn run_command(job: &Job) -> (cmd: Option<String>)
    ensures
        match cmd {
            Some(c) => job@.executable() is Some && c@ == run_command_text(job@),
            None => job@.executable() is None,
        },
{
    let work = match job.executable() {
        Some(w) => w,
        None => {
            return None;
        },
    };
    if job.script.is_some() {
        Some(
            join3(
                "cat > /tmp/build_script.sh << 'SCRIPT_EOF'\n",
                work,
                "\nSCRIPT_EOF\nchmod +x /tmp/build_script.sh && cd ~/workspace && /tmp/build_script.sh",
            ),
        )
    } else {
        Some(join2("cd ~/workspace && ", work))
    }
}

/// The line that the log file gets for a line of output: the mark of the
/// stream, the line, and a line feed.
pub open spec fn log_file_line_text(stream: LogStream, line: Seq<char>) -> Seq<char> {
    "["@ + stream.spec_name() + "] "@ + line + "\n"@
}

/// The line that the log file gets for a line of output.
pub fn log_file_line(stream: LogStream, line: &str) -> (out: String)
    ensures
        out@ == log_file_line_text(stream, line@),
{
    let mut out = join3("[", stream.name(), "] ");
    out.push_str(line);
    out.push_str("\n");
    out
}

/// The message of a job that ran into its deadline.
pub open spec fn timeout_message_text(minutes: u64) -> Seq<char> {
    "Job timed out after "@ + decimal(minutes as nat) + " minutes"@
}

/// The message of a job that ran into its deadline.
pub fn timeout_message(minutes: u64) -> (msg: String)
    ensures
        msg@ == timeout_message_text(minutes),
{
    let mut msg = String::from_str("Job timed out after ");
    push_decimal(&mut msg, minutes);
    msg.push_str(" minutes");
    msg
}

/// The deadline of a job in seconds: sixty for each minute of the
/// timeout, or the greatest number of seconds where that is beyond it.
pub fn timeout_seconds(minutes: u64) -> (secs: u64)
    ensures
        secs == if minutes * 60 <= u64::MAX {
            minutes * 60
        } else {
            u64::MAX as int
        },
{
    if minutes <= u64::MAX / 60 {
        minutes * 60
    } else {
        u64::MAX
    }
}

/// The log line that reports a failure of the worker itself.
pub fn worker_failure_message(reason: &str) -> (msg: String)
    ensures
        msg@ == "Job execution failed on worker: "@ + reason@,
{
    join2("Job execution failed on worker: ", reason)
}

/// The exit code to report for a run: its own, or -1 where it ended
/// without one.
pub fn exit_code_of(code: Option<i32>) -> (r: i32)
    ensures
        r == match code {
            Some(c) => c,
            None => -1i32,
        },
{
    match code {
        Some(c) => c,
        None => NO_EXIT_CODE,
    }
}

/// The build time between two instants, in milliseconds, counted in whole
/// seconds; nothing where the clock went backwards.
pub open spec fn build_millis_between(started: i64, ended: i64) -> u64 {
    if ended <= started {
        0
    } else {
        (((ended - started) / 1_000_000) * 1000) as u64
    }
}

/// The build time between two instants.
pub fn build_millis(started: i64, ended: i64) -> (r: u64)
    ensures
        r == build_millis_between(started, ended),
{
    if ended <= started {
        0
    } else {
        let span: i128 = ended as i128 - started as i128;
        let secs: i128 = span / 1_000_000;
        (secs * 1000) as u64
    }
}

/// The places where artifacts are looked for.
pub open spec fn artifact_patterns_text() -> Seq<Seq<char>> {
    seq![
        "~/Library/Developer/Xcode/DerivedData/**/*.xcresult"@,
        "~/build/*.app"@,
        "~/build/*.ipa"@,
    ]
}

/// The places where artifacts are looked for, in the order in which they
/// are searched.
pub fn artifact_patterns() -> (patterns: Vec<&'static str>)
    ensures
        patterns@.len() == 3,
        forall|i: int| 0 <= i < 3 ==> (#[trigger] patterns@[i])@ == artifact_patterns_text()[i],
{
    let mut patterns: Vec<&'static str> = Vec::new();
    patterns.push("~/Library/Developer/Xcode/DerivedData/**/*.xcresult");
    patterns.push("~/build/*.app");
    patterns.push("~/build/*.ipa");
    patterns
}

/// The command that lists the files of a pattern.
pub fn list_command(pattern: &str) -> (cmd: String)
    ensures
        cmd@ == "ls -la "@ + pattern@ + " 2>/dev/null || true"@,
{
    join3("ls -la ", pattern, " 2>/dev/null || true")
}

/// The arguments of the `sshpass` call that runs a command in a VM.
pub open spec fn ssh_args_text(ip: Seq<char>, command: Seq<char>, tty: bool, password_only: bool) -> Seq<
    Seq<char>,
> {
    seq!["-p"@, "admin"@, "ssh"@] + (if tty {
        seq!["-tt"@]
    } else {
        Seq::empty()
    }) + seq!["-o"@, "StrictHostKeyChecking=no"@, "-o"@, "UserKnownHostsFile=/dev/null"@] + (
    if password_only {
        seq!["-o"@, "PubkeyAuthentication=no"@]
    } else {
        Seq::empty()
    }) + seq!["admin@"@ + ip, command]
}

/// The arguments of the `sshpass` call that runs a command in the VM at
/// `ip`: the password, the `ssh` options, the login and the command. With
/// `tty` a terminal is forced, so that tools print their output line by
/// line; with `password_only` public keys are not tried.
pub fn ssh_args(ip: &str, command: &str, tty: bool, password_only: bool) -> (args: Vec<String>)
    ensures
        string_views(args@) == ssh_args_text(ip@, command@, tty, password_only),
{
    let mut args: Vec<String> = Vec::new();
    args.push(String::from_str("-p"));
    args.push(String::from_str(VM_PASSWORD));
    args.push(String::from_str("ssh"));
    if tty {
        args.push(String::from_str("-tt"));
    }
    args.push(String::from_str("-o"));
    args.push(String::from_str("StrictHostKeyChecking=no"));
    args.push(String::from_str("-o"));
    args.push(String::from_str("UserKnownHostsFile=/dev/null"));
    if password_only {
        args.push(String::from_str("-o"));
        args.push(String::from_str("PubkeyAuthentication=no"));
    }
    args.push(ssh_target(ip));
    args.push(String::from_str(command));
    assert(string_views(args@) =~= ssh_args_text(ip@, command@, tty, password_only));
    args
}

/// The arguments of the `sshpass` call that copies a file into a VM.
pub open spec fn scp_args_text(path: Seq<char>, target: Seq<char>) -> Seq<Seq<char>> {
    seq![
        "-p"@,
        "admin"@,
        "scp"@,
        "-o"@,
        "StrictHostKeyChecking=no"@,
        "-o"@,
        "UserKnownHostsFile=/dev/null"@,
        "-o"@,
        "PubkeyAuthentication=no"@,
        path,
        target,
    ]
}

/// The arguments of the `sshpass` call that copies the file at `path` to
/// `target`, a login and a path in a VM.
pub fn scp_args(path: &str, target: &str) -> (args: Vec<String>)
    ensures
        string_views(args@) == scp_args_text(path@, target@),
{
    let mut args: Vec<String> = Vec::new();
    args.push(String::from_str("-p"));
    args.push(String::from_str(VM_PASSWORD));
    args.push(String::from_str("scp"));
    args.push(String::from_str("-o"));
    args.push(String::from_str("StrictHostKeyChecking=no"));
    args.push(String::from_str("-o"));
    args.push(String::from_str("UserKnownHostsFile=/dev/null"));
    args.push(String::from_str("-o"));
    args.push(String::from_str("PubkeyAuthentication=no"));
    args.push(String::from_str(path));
    args.push(String::from_str(target));
    assert(string_views(args@) =~= scp_args_text(path@, target@));
    args
}

/// What a line of a long listing tells of a file: nothing for an empty
/// line, for the line of the total, and for a line of white space;
/// otherwise the file named by the last word, found under `pattern`, with
/// the size that the fifth word gives, or zero where there is no fifth
/// word or it is not a number.
pub open spec fn parsed_ls_line(line: Seq<char>, pattern: Seq<char>) -> Option<ArtifactView> {
    if line.len() == 0 || has_prefix(line, "total"@) || words_of(line).len() == 0 {
        None
    } else {
        Some(
            ArtifactView {
                name: words_of(line).last(),
                path: pattern,
                size_bytes: if words_of(line).len() >= 5 {
                    match parsed_unsigned(words_of(line)[4], u64::MAX as nat) {
                        Some(n) => n as u64,
                        None => 0,
                    }
                } else {
                    0
                },
                download_url: None,
            },
        )
    }
}

/// Reads one line of a long listing.
pub fn parse_ls_line(line: &str, pattern: &str) -> (r: Option<Artifact>)
    ensures
        match r {
            Some(a) => parsed_ls_line(line@, pattern@) == Some(a@),
            None => parsed_ls_line(line@, pattern@) is None,
        },
{
    let cs = chars_of(line);
    let total = chars_of("total");
    if cs.len() == 0 || matches_at(&cs, &total, 0) {
        return None;
    }
    let parts = words(line);
    if parts.len() == 0 {
        return None;
    }
    assert(string_views(parts@).last() == parts@[parts@.len() - 1]@);
    let name = parts[parts.len() - 1].clone();
    let size_bytes: u64 = if parts.len() >= 5 {
        assert(string_views(parts@)[4] == parts@[4]@);
        match parse_unsigned(parts[4].as_str(), u64::MAX) {
            Some(n) => n,
            None => 0,
        }
    } else {
        0
    };
    Some(Artifact { name, path: String::from_str(pattern), size_bytes, download_url: None })
}

/// The artifacts that the lines of a listing tell of, in order.
pub open spec fn artifacts_in(listing: Seq<Seq<char>>, pattern: Seq<char>) -> Seq<ArtifactView>
    decreases listing.len(),
{
    if listing.len() == 0 {
        Seq::empty()
    } else {
        match parsed_ls_line(listing.last(), pattern) {
            Some(a) => artifacts_in(listing.drop_last(), pattern).push(a),
            None => artifacts_in(listing.drop_last(), pattern),
        }
    }
}

/// Adds to `found` the artifacts that a listing of `pattern` tells of, one
/// for each line that names a file.
pub fn collect_from_listing(found: &mut Vec<Artifact>, listing: &str, pattern: &str)
    ensures
        artifact_views(final(found)@) == artifact_views(old(found)@) + artifacts_in(
            lines_of(listing@),
            pattern@,
        ),
{
    let all = lines(listing);
    let ghost start = artifact_views(found@);
    let mut i: usize = 0;
    assert(start + artifacts_in(lines_of(listing@).take(0), pattern@) =~= start);
    while i < all.len()
        invariant
            i <= all.len(),
            string_views(all@) == lines_of(listing@),
            artifact_views(found@) == start + artifacts_in(
                lines_of(listing@).take(i as int),
                pattern@,
            ),
        decreases all.len() - i,
    {
        let ghost before = artifact_views(found@);
        let ghost seen = lines_of(listing@).take(i as int);
        assert(string_views(all@)[i as int] == all@[i as int]@);
        assert(lines_of(listing@).take(i + 1).drop_last() =~= seen);
        assert(lines_of(listing@).take(i + 1).last() == all@[i as int]@);
        match parse_ls_line(all[i].as_str(), pattern) {
            Some(a) => {
                found.push(a);
                assert(artifact_views(found@) =~= before.push(a@));
                assert(start + artifacts_in(seen, pattern@).push(a@) =~= (start + artifacts_in(
                    seen,
                    pattern@,
                )).push(a@));
            },
            None => {},
        }
        i += 1;
    }
    assert(lines_of(listing@).take(i as int) =~= lines_of(listing@));
}

} // verus!
