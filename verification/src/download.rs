//! Resumable model downloads: URLs, the partial file, the HTTP range request and
//! how its answer is read, and the state the download ends in.
//!
//! The network and file work is done by the application; these functions decide
//! what to ask for and what the answers mean.

use crate::decimal::{decimal, parse_u64, parse_u64_spec, u64_to_decimal};
use crate::text::{chars_of, concat, str_eq, string_of, sub_chars};
use vstd::prelude::*;

verus! {

/// Where a download stands.
#[derive(Clone, Debug, PartialEq, Eq)]
pub enum DlState {
    NotStarted,
    Downloading,
    Paused,
    Completed,
    Failed(String),
    Cancelled,
}

/// Commands from the settings UI to a running download.
#[derive(Clone, Copy, Debug, PartialEq, Eq, Structural)]
pub enum DownloadCmd {
    Pause,
    Cancel,
}

/// The Hugging Face URL of `filename` in `repo` (main branch).
pub open spec fn hf_url_spec(repo: Seq<char>, filename: Seq<char>) -> Seq<char> {
    "https://huggingface.co/"@ + repo + "/resolve/main/"@ + filename
}

/// The Hugging Face URL of `filename` in `repo`.
pub fn hf_url(repo: &str, filename: &str) -> (r: String)
    ensures
        r@ == hf_url_spec(repo@, filename@),
{
    let a = concat("https://huggingface.co/", repo);
    let b = concat(a.as_str(), "/resolve/main/");
    concat(b.as_str(), filename)
}

/// The file a download is written to until it completes: the destination with
/// `.partial` appended.
pub fn partial_path(dest: &str) -> (r: String)
    ensures
        r@ == dest@ + ".partial"@,
{
    concat(dest, ".partial")
}

/// The `Range` header asking for the rest of a file of which `existing` bytes are
/// already here; none when nothing is.
pub fn range_header(existing: u64) -> (r: Option<String>)
    ensures
        existing == 0 ==> r is None,
        existing > 0 ==> (r matches Some(h) && h@ == "bytes="@ + decimal(existing as nat) + "-"@),
{
    if existing == 0 {
        return None;
    }
    let digits = u64_to_decimal(existing);
    let a = concat("bytes=", digits.as_str());
    Some(concat(a.as_str(), "-"))
}

/// The part of `s` after its last `/` (all of `s` when it has none), as
/// `s.split('/').last()` gives it.
pub open spec fn after_last_slash(s: Seq<char>) -> Seq<char>
    decreases s.len(),
{
    if s.len() == 0 {
        s
    } else if s.last() == '/' {
        Seq::empty()
    } else {
        after_last_slash(s.drop_last()).push(s.last())
    }
}

/// The total size announced by a `Content-Range: bytes a-b/total` header; 0 when
/// there is none or it does not parse.
pub open spec fn content_range_total_spec(header: Option<Seq<char>>) -> u64 {
    match header {
        Some(h) => match parse_u64_spec(after_last_slash(h)) {
            Some(t) => t,
            None => 0,
        },
        None => 0,
    }
}

/// The size announced by a `Content-Length` header; 0 when there is none or it does
/// not parse.
pub open spec fn content_length_spec(header: Option<Seq<char>>) -> u64 {
    match header {
        Some(h) => match parse_u64_spec(h) {
            Some(t) => t,
            None => 0,
        },
        None => 0,
    }
}

/// The characters of `s` after its last `/`.
fn after_last_slash_chars(s: &Vec<char>) -> (r: Vec<char>)
    ensures
        r@ == after_last_slash(s@),
{
    let mut i: usize = s.len();
    assert(s@.take(i as int) =~= s@);
    assert(after_last_slash(s@) + s@.subrange(i as int, s@.len() as int) =~= after_last_slash(s@));
    while i > 0 && s[i - 1] != '/'
        invariant
            i <= s.len(),
            after_last_slash(s@) == after_last_slash(s@.take(i as int)) + s@.subrange(i as int, s@.len() as int),
        decreases i,
    {
        proof {
            let t = s@.take(i as int);
            assert(t.drop_last() =~= s@.take(i - 1));
            assert(after_last_slash(s@.take(i - 1)) + s@.subrange(i - 1, s@.len() as int)
                =~= after_last_slash(s@.take(i - 1)).push(t.last()) + s@.subrange(i as int, s@.len() as int));
        }
        i = i - 1;
    }
    proof {
        if i > 0 {
            assert(after_last_slash(s@.take(i as int)) =~= Seq::<char>::empty());
        } else {
            assert(s@.take(0) =~= Seq::<char>::empty());
        }
        assert(Seq::<char>::empty() + s@.subrange(i as int, s@.len() as int) =~= s@.subrange(i as int, s@.len() as int));
    }
    sub_chars(s, i, s.len())
}

/// The total size from a `Content-Range` header (0 when absent or unreadable).
pub fn content_range_total(header: Option<&str>) -> (r: u64)
    ensures
        r == content_range_total_spec(match header { Some(h) => Some(h@), None => None }),
{
    match header {
        Some(h) => {
            let tail = string_of(&after_last_slash_chars(&chars_of(h)));
            match parse_u64(tail.as_str()) {
                Some(t) => t,
                None => 0,
            }
        },
        None => 0,
    }
}

/// The size from a `Content-Length` header (0 when absent or unreadable).
pub fn content_length_total(header: Option<&str>) -> (r: u64)
    ensures
        r == content_length_spec(match header { Some(h) => Some(h@), None => None }),
{
    match header {
        Some(h) => match parse_u64(h) {
            Some(t) => t,
            None => 0,
        },
        None => 0,
    }
}

/// The size a `HEAD` request reports through `Content-Length`, if readable.
pub fn remote_size(content_length: Option<&str>) -> (r: Option<u64>)
    ensures
        r == (match content_length { Some(h) => parse_u64_spec(h@), None => None }),
{
    match content_length {
        Some(h) => parse_u64(h),
        None => None,
    }
}

/// How to continue after the server answered: the total size to show, the offset
/// the received bytes start at, and whether they are appended to the partial file
/// (otherwise it is started over).
#[derive(Clone, Copy, Debug, PartialEq, Eq, Structural)]
pub struct ResumePlan {
    pub total: u64,
    pub start_offset: u64,
    pub append: bool,
}

/// A `206 Partial Content` answer continues after the `existing` bytes, with the
/// total from `Content-Range`; any other answer is the whole file, with the total
/// from `Content-Length`.
pub open spec fn resume_plan_spec(
    status: u16,
    existing: u64,
    content_range: Option<Seq<char>>,
    content_length: Option<Seq<char>>,
) -> ResumePlan {
    if status == 206 {
        ResumePlan {
            total: content_range_total_spec(content_range),
            start_offset: existing,
            append: existing > 0,
        }
    } else {
        ResumePlan { total: content_length_spec(content_length), start_offset: 0, append: false }
    }
}

/// Reads the server's answer to a (range) request.
pub fn resume_plan(
    status: u16,
    existing: u64,
    content_range: Option<&str>,
    content_length: Option<&str>,
) -> (r: ResumePlan)
    ensures
        r == resume_plan_spec(
            status,
            existing,
            match content_range { Some(h) => Some(h@), None => None },
            match content_length { Some(h) => Some(h@), None => None },
        ),
{
    if status == 206 {
        ResumePlan {
            total: content_range_total(content_range),
            start_offset: existing,
            append: existing > 0,
        }
    } else {
        ResumePlan { total: content_length_total(content_length), start_offset: 0, append: false }
    }
}

/// The reason a running transfer stops at a command: `"paused"` or `"cancelled"`.
pub open spec fn stop_reason_spec(cmd: DownloadCmd) -> Seq<char> {
    match cmd {
        DownloadCmd::Pause => "paused"@,
        DownloadCmd::Cancel => "cancelled"@,
    }
}

/// The error a running transfer stops with when a command arrives.
pub fn stop_reason(cmd: Option<DownloadCmd>) -> (r: Option<String>)
    ensures
        cmd is None ==> r is None,
        cmd matches Some(c) ==> (r matches Some(e) && e@ == stop_reason_spec(c)),
{
    match cmd {
        Some(DownloadCmd::Pause) => Some(String::from_str("paused")),
        Some(DownloadCmd::Cancel) => Some(String::from_str("cancelled")),
        None => None,
    }
}

/// The state a finished transfer leaves, and whether the partial file is deleted:
/// success completes; `"paused"` pauses (keeping the partial file for a resume);
/// `"cancelled"` cancels and deletes it; any other error fails with its message.
pub fn final_state(outcome: &Result<(), String>) -> (r: (DlState, bool))
    ensures
        outcome is Ok ==> r.0 is Completed && !r.1,
        outcome matches Err(e) ==> {
            if e@ == "paused"@ {
                r.0 is Paused && !r.1
            } else if e@ == "cancelled"@ {
                r.0 is Cancelled && r.1
            } else {
                (r.0 matches DlState::Failed(m) && m@ == e@) && !r.1
            }
        },
{
    match outcome {
        Ok(()) => (DlState::Completed, false),
        Err(e) => {
            if str_eq(e.as_str(), "paused") {
                (DlState::Paused, false)
            } else if str_eq(e.as_str(), "cancelled") {
                (DlState::Cancelled, true)
            } else {
                (DlState::Failed(e.clone()), false)
            }
        },
    }
}

// ---------------------------------------------------------------- laws

/// The reasons a pause and a cancel stop a transfer with are `"paused"` and
/// `"cancelled"`, and they differ, so the end state tells them apart: Paused with
/// the partial file kept, or Cancelled with it deleted (see `final_state`).
pub proof fn law_stop_commands_end_states()
    ensures
        stop_reason_spec(DownloadCmd::Pause) == "paused"@,
        stop_reason_spec(DownloadCmd::Cancel) == "cancelled"@,
        stop_reason_spec(DownloadCmd::Pause) != stop_reason_spec(DownloadCmd::Cancel),
{
    reveal_strlit("paused");
    reveal_strlit("cancelled");
    assert("paused"@.len() != "cancelled"@.len());
}

/// A resumed download asks for exactly the bytes after those already here, and a
/// `206` answer continues the count from there, appending.
pub proof fn law_resume_continues(existing: u64, content_range: Option<Seq<char>>, content_length: Option<Seq<char>>)
    requires
        existing > 0,
    ensures
        resume_plan_spec(206, existing, content_range, content_length).start_offset == existing,
        resume_plan_spec(206, existing, content_range, content_length).append,
        parse_u64_spec(decimal(existing as nat)) == Some(existing),
{
    crate::decimal::law_parse_after_format(existing);
}

/// A server that ignores the range (any answer but `206`) sends the whole file:
/// the count restarts at zero and the partial file is rewritten.
pub proof fn law_full_answer_restarts(status: u16, existing: u64, content_range: Option<Seq<char>>, content_length: Option<Seq<char>>)
    requires
        status != 206,
    ensures
        resume_plan_spec(status, existing, content_range, content_length).start_offset == 0,
        !resume_plan_spec(status, existing, content_range, content_length).append,
{
}

} // verus!
