//! The filesystem decisions of an update: how a removal or copy that fails is
//! retried while the old process exits, and where the new release is downloaded.
use vstd::prelude::*;
use crate::text::{chars_of, push_str, string_of};

verus! {

/// How many times a failed removal or copy is retried before it is reported.
pub const MAX_RETRIES: u32 = 10;

/// The delay between two attempts, in milliseconds.
pub const RETRY_DELAY_MILLIS: u64 = 500;

/// A destructive filesystem operation of the replace and cleanup phases.
#[derive(Debug, Clone, Copy, PartialEq, Eq, Structural)]
pub enum FileOperation {
    /// Remove a file.
    Delete,
    /// Copy a file over another.
    Copy,
}

/// How one attempt at an operation went.
#[derive(Debug, Clone, Copy, PartialEq, Eq, Structural)]
pub enum AttemptOutcome {
    Succeeded,
    /// The operation failed because a file does not exist.
    NotFound,
    /// The operation failed for another reason (such as a lock).
    Failed,
}

/// What to do after an attempt.
#[derive(Debug, Clone, Copy, PartialEq, Eq, Structural)]
pub enum RetryDecision {
    /// The operation is complete.
    Done,
    /// Report the failure: the retries are used up.
    GiveUp,
    /// Wait `delay_millis`, then make attempt number `attempt` (counting from 0).
    RetryAfter { attempt: u32, delay_millis: u64 },
}

/// Decide what follows attempt number `attempt` (counting from 0) of `op`.
/// A file that is already gone counts as deleted; any other failure is
/// retried after a delay until `MAX_RETRIES` retries were made.
pub fn after_attempt(op: FileOperation, outcome: AttemptOutcome, attempt: u32) -> (r: RetryDecision)
    ensures
        outcome == AttemptOutcome::Succeeded ==> r == RetryDecision::Done,
        outcome == AttemptOutcome::NotFound && op == FileOperation::Delete ==> r
            == RetryDecision::Done,
        (outcome == AttemptOutcome::Failed || (outcome == AttemptOutcome::NotFound && op
            == FileOperation::Copy)) ==> r == (if attempt >= MAX_RETRIES {
            RetryDecision::GiveUp
        } else {
            RetryDecision::RetryAfter { attempt: (attempt + 1) as u32, delay_millis: RETRY_DELAY_MILLIS }
        }),
{
    match outcome {
        AttemptOutcome::Succeeded => RetryDecision::Done,
        AttemptOutcome::NotFound if op == FileOperation::Delete => RetryDecision::Done,
        _ => {
            if attempt >= MAX_RETRIES {
                RetryDecision::GiveUp
            } else {
                RetryDecision::RetryAfter { attempt: attempt + 1, delay_millis: RETRY_DELAY_MILLIS }
            }
        },
    }
}

/// The decision after an attempt, as a function of its inputs.
pub open spec fn retry_decision(op: FileOperation, outcome: AttemptOutcome, attempt: u32) -> RetryDecision {
    if outcome == AttemptOutcome::Succeeded || (outcome == AttemptOutcome::NotFound && op
        == FileOperation::Delete) {
        RetryDecision::Done
    } else if attempt >= MAX_RETRIES {
        RetryDecision::GiveUp
    } else {
        RetryDecision::RetryAfter { attempt: (attempt + 1) as u32, delay_millis: RETRY_DELAY_MILLIS }
    }
}

/// The number of attempts still possible from attempt number `attempt`.
pub open spec fn attempts_left(attempt: u32) -> int {
    if attempt >= MAX_RETRIES { 1 } else { MAX_RETRIES - attempt + 1 }
}

/// Retrying always ends: each retry is the next attempt, and no more than
/// `MAX_RETRIES` retries follow the first attempt, so an operation is tried at
/// most `MAX_RETRIES + 1` times before it is done or reported.
pub proof fn law_retries_end(op: FileOperation, outcome: AttemptOutcome, attempt: u32)
    requires
        attempt <= MAX_RETRIES,
    ensures
        retry_decision(op, outcome, attempt) matches RetryDecision::RetryAfter { attempt: next, .. }
            ==> next == attempt + 1 && next <= MAX_RETRIES && attempts_left(next) < attempts_left(
            attempt,
        ),
        attempts_left(attempt) <= MAX_RETRIES + 1,
        attempt == MAX_RETRIES ==> !(retry_decision(op, outcome, attempt) is RetryAfter),
{
}

/// The file name the new release is downloaded to: the application's file
/// stem (or `update` when it has none), a dash, the release id, and the
/// application's extension (or `.exe` on Windows when it has none), so it is
/// unique per application and release.
pub open spec fn temp_app_name(
    stem: Option<Seq<char>>,
    extension: Option<Seq<char>>,
    release_id: Seq<char>,
    windows: bool,
) -> Seq<char> {
    let stem = match stem {
        Some(s) => s,
        None => "update"@,
    };
    let ext = match extension {
        Some(e) => seq!['.'] + e,
        None => if windows {
            ".exe"@
        } else {
            Seq::empty()
        },
    };
    stem + seq!['-'] + release_id + ext
}

/// The temporary name is the application's stem (`update` without one), a
/// hyphen and the release id, then the application's own extension where it
/// has one, on every platform; without an extension, Windows adds `.exe` and
/// other platforms add nothing.
pub proof fn law_temp_name_keeps_the_extension(
    stem: Option<Seq<char>>,
    extension: Option<Seq<char>>,
    release_id: Seq<char>,
)
    ensures
        ({
            let base = match stem {
                Some(s) => s,
                None => "update"@,
            } + seq!['-'] + release_id;
            &&& extension matches Some(e) ==> temp_app_name(stem, extension, release_id, true)
                == base + seq!['.'] + e
            &&& extension matches Some(e) ==> temp_app_name(stem, extension, release_id, false)
                == base + seq!['.'] + e
            &&& extension is None ==> temp_app_name(stem, extension, release_id, false) == base
            &&& extension is None ==> temp_app_name(stem, extension, release_id, true) == base
                + seq!['.', 'e', 'x', 'e']
        }),
{
    reveal_strlit(".exe");
}

/// Build the temporary file name for the new release (see [`temp_app_name`]);
/// `stem` and `extension` are those of the application's path, `windows` tells
/// whether executables need the `.exe` extension.
pub fn temp_app_file_name(stem: Option<&str>, extension: Option<&str>, release_id: &str, windows: bool) -> (r: String)
    ensures
        r@ == temp_app_name(
            match stem { Some(s) => Some(s@), None => None },
            match extension { Some(e) => Some(e@), None => None },
            release_id@,
            windows,
        ),
{
    let mut out: Vec<char> = Vec::new();
    match stem {
        Some(s) => push_str(&mut out, s),
        None => push_str(&mut out, "update"),
    }
    out.push('-');
    push_str(&mut out, release_id);
    match extension {
        Some(e) => {
            out.push('.');
            push_str(&mut out, e);
        },
        None => {
            if windows {
                push_str(&mut out, ".exe");
            }
        },
    }
    proof {
        let ghost expected = temp_app_name(
            match stem { Some(s) => Some(s@), None => None },
            match extension { Some(e) => Some(e@), None => None },
            release_id@,
            windows,
        );
        assert(out@ =~= expected);
    }
    string_of(out.as_slice())
}

} // verus!
