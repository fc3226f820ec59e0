//! Log streaming: push from the worker, fan-out to watchers, stored logs.

use vstd::prelude::*;
use crate::api::{failure, ApiFailure, STATUS_INTERNAL_SERVER_ERROR};
use crate::ids::{is_random_id, new_id};
use crate::log_hub::{
    after_poll, after_push, after_subscribe, after_unsubscribe, poll_reply, subscribe_reply,
    Delivery,
};
use crate::models::{JobLog, LogEntry, LogStream};
use crate::state::AppState;
use crate::text::{chars_of, has_prefix, lines, lines_of, matches_at, string_of, string_views};

verus! {

/// The frame sent to a watcher of a job that has no stream.
pub open spec fn not_found_frame_text() -> Seq<char> {
    "{\"error\":\"Job not found or already completed\"}"@
}

/// The frame sent to a watcher of a job that has no stream: a JSON object
/// with the one member `error`.
pub fn not_found_frame() -> (frame: &'static str)
    ensures
        frame@ == not_found_frame_text(),
{
    "{\"error\":\"Job not found or already completed\"}"
}

/// Takes a log line from a worker: `frame`, the encoded entry, is fanned
/// out to the watchers of the entry's job. Where the job has no stream the
/// line is dropped; the worker is never failed for it. Returns whether the
/// job has a stream.
pub fn push_log(state: &mut AppState, entry: &LogEntry, frame: &str) -> (streamed: bool)
    requires
        old(state).wf(),
    ensures
        final(state).wf(),
        final(state).config == old(state).config,
        final(state).jobs@ == old(state).jobs@,
        final(state).workers@ == old(state).workers@,
        final(state).artifacts@ == old(state).artifacts@,
        final(state).log_streams@ == after_push(old(state).log_streams@, entry.job_id, frame@),
        streamed == old(state).log_streams@.open.contains(entry.job_id),
{
    state.log_streams.push(entry.job_id, frame)
}

/// Opens a watcher's session on the log stream of a job. Where the job
/// has a stream, the watcher is subscribed and its slot returned: it gets
/// the frames pushed from now on. Where it has none, nothing changes and
/// the watcher is to be sent the frame of [`not_found_frame`].
pub fn stream_logs(state: &mut AppState, job_id: u128) -> (slot: Option<usize>)
    requires
        old(state).wf(),
    ensures
        final(state).wf(),
        final(state).config == old(state).config,
        final(state).jobs@ == old(state).jobs@,
        final(state).workers@ == old(state).workers@,
        final(state).artifacts@ == old(state).artifacts@,
        final(state).log_streams@ == after_subscribe(old(state).log_streams@, job_id),
        match slot {
            Some(i) => subscribe_reply(old(state).log_streams@, job_id) == Some(i as int),
            None => subscribe_reply(old(state).log_streams@, job_id) is None,
        },
{
    state.log_streams.subscribe(job_id)
}

/// The next frame for a watcher, or the reason why there is none.
pub fn next_frame(state: &mut AppState, slot: usize) -> (r: Delivery)
    requires
        old(state).wf(),
    ensures
        final(state).wf(),
        final(state).config == old(state).config,
        final(state).jobs@ == old(state).jobs@,
        final(state).workers@ == old(state).workers@,
        final(state).artifacts@ == old(state).artifacts@,
        final(state).log_streams@ == after_poll(old(state).log_streams@, slot as int),
        r@ == poll_reply(old(state).log_streams@, slot as int),
{
    state.log_streams.poll(slot)
}

/// Ends a watcher's session, as when its connection closes. The stream and
/// its other watchers are not affected.
pub fn stop_watching(state: &mut AppState, slot: usize)
    requires
        old(state).wf(),
    ensures
        final(state).wf(),
        final(state).config == old(state).config,
        final(state).jobs@ == old(state).jobs@,
        final(state).workers@ == old(state).workers@,
        final(state).artifacts@ == old(state).artifacts@,
        final(state).log_streams@ == after_unsubscribe(old(state).log_streams@, slot as int),
{
    state.log_streams.unsubscribe(slot)
}

/// The mark that a log file puts before a line of standard output.
pub open spec fn stdout_mark() -> Seq<char> {
    "[stdout] "@
}

/// The mark that a log file puts before a line of standard error.
pub open spec fn stderr_mark() -> Seq<char> {
    "[stderr] "@
}

/// The stream that a line of a log file came from: standard error where
/// the line is marked so, standard output otherwise.
pub open spec fn stored_stream(line: Seq<char>) -> LogStream {
    if !has_prefix(line, stdout_mark()) && has_prefix(line, stderr_mark()) {
        LogStream::Stderr
    } else {
        LogStream::Stdout
    }
}

/// The content of a line of a log file: the line without its mark, or the
/// whole line where it has none.
pub open spec fn stored_content(line: Seq<char>) -> Seq<char> {
    if has_prefix(line, stdout_mark()) || has_prefix(line, stderr_mark()) {
        line.subrange(9, line.len() as int)
    } else {
        line
    }
}

/// Splits a line of a log file into its stream and its content.
pub fn parse_stored_line(line: &str) -> (r: (LogStream, String))
    ensures
        r.0 == stored_stream(line@),
        r.1@ == stored_content(line@),
{
    proof {
        reveal_strlit("[stdout] ");
        reveal_strlit("[stderr] ");
    }
    let cs = chars_of(line);
    let out_mark = chars_of("[stdout] ");
    let err_mark = chars_of("[stderr] ");
    if matches_at(&cs, &out_mark, 0) {
        (LogStream::Stdout, string_of(&cs, 9, cs.len()))
    } else if matches_at(&cs, &err_mark, 0) {
        (LogStream::Stderr, string_of(&cs, 9, cs.len()))
    } else {
        assert(cs@.subrange(0, cs@.len() as int) =~= cs@);
        (LogStream::Stdout, string_of(&cs, 0, cs.len()))
    }
}

/// The stored log of a job, line by line, from the content of its log
/// file (`None` where the job has no log file yet, which gives no lines).
/// Each line loses its stream mark; each entry gets a fresh identifier and
/// `now` as its time, since the file records neither.
pub fn get_stored_logs(job_id: u128, content: Option<&str>, now: i64) -> (logs: Vec<JobLog>)
    ensures
        match content {
            Some(text) => {
                &&& logs@.len() == lines_of(text@).len()
                &&& forall|i: int|
                    0 <= i < logs@.len() ==> {
                        &&& (#[trigger] logs@[i]).job_id == job_id
                        &&& logs@[i].created_at == now
                        &&& logs@[i].content@ == stored_content(lines_of(text@)[i])
                        &&& is_random_id(logs@[i].id)
                    }
            },
            None => logs@.len() == 0,
        },
{
    let mut logs: Vec<JobLog> = Vec::new();
    let text = match content {
        Some(text) => text,
        None => {
            return logs;
        },
    };
    let all = lines(text);
    let mut i: usize = 0;
    while i < all.len()
        invariant
            i <= all.len(),
            string_views(all@) == lines_of(text@),
            logs@.len() == i,
            forall|k: int|
                0 <= k < i ==> {
                    &&& (#[trigger] logs@[k]).job_id == job_id
                    &&& logs@[k].created_at == now
                    &&& logs@[k].content@ == stored_content(lines_of(text@)[k])
                    &&& is_random_id(logs@[k].id)
                },
        decreases all.len() - i,
    {
        assert(string_views(all@)[i as int] == all@[i as int]@);
        let parsed = parse_stored_line(all[i].as_str());
        logs.push(JobLog { id: new_id(), job_id, content: parsed.1, created_at: now });
        i += 1;
    }
    logs
}

/// What the answer of the storage service to the upload of a log file
/// means: success, or a failure that carries the service's own words.
pub fn upload_logs(stored: bool, error_text: &str) -> (r: Result<(), ApiFailure>)
    ensures
        match r {
            Ok(()) => stored,
            Err(f) => !stored && f@ == failure(500, error_text@, "upload_error"@),
        },
{
    if stored {
        Ok(())
    } else {
        Err(ApiFailure::new(STATUS_INTERNAL_SERVER_ERROR, error_text, "upload_error"))
    }
}

} // verus!
