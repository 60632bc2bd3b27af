//! Relaying a compile log to the browser, and judging the replies of the
//! collaborative editing service when it is asked to write documents to disk.
use vstd::prelude::*;
use crate::text::{contains_seq, str_contains};

verus! {

/// The line the render service writes after the last line of a compile log.
pub open spec fn end_marker() -> Seq<char> {
    "====END===="@
}

/// What to do with one piece of a compile log.
pub enum LogAction {
    /// Send this text to the browser as a log message.
    Send(String),
    /// The log is complete: send the compile result and stop reading.
    Finish,
    /// The relay has finished; drop the piece.
    Ignore,
}

/// Relays the pieces of one compile log until its end marker.
pub struct CompileLogRelay {
    pub finished: bool,
}

/// The text of a log message read from the stream: the decoded `msg` field
/// when it is present and not empty, a single space otherwise.
pub open spec fn message_content(msg: Option<Seq<char>>) -> Seq<char> {
    match msg {
        Some(s) => if s.len() > 0 {
            s
        } else {
            " "@
        },
        None => " "@,
    }
}

/// The text of a log message read from the stream, given its `msg` field
/// (`None` when the field is absent or cannot be decoded as text).
pub fn extract_message_content(msg: Option<String>) -> (r: String)
    ensures
        r@ == message_content(
            match msg {
                Some(s) => Some(s@),
                None => None,
            },
        ),
{
    match msg {
        Some(s) => {
            if s.as_str().unicode_len() > 0 {
                s
            } else {
                String::from_str(" ")
            }
        },
        None => String::from_str(" "),
    }
}

/// The suffix put after each message relayed from the stream.
pub open spec fn stream_line_suffix() -> Seq<char> {
    "\n换行"@
}

impl CompileLogRelay {
    /// A relay that has seen nothing yet.
    pub fn new() -> (r: Self)
        ensures
            !r.finished,
    {
        CompileLogRelay { finished: false }
    }

    /// One message read from the compile-log stream: it ends the log when it
    /// holds the end marker; otherwise it is relayed with a line break and
    /// the `换行` marker appended.
    pub fn on_stream_message(&mut self, content: &str) -> (r: LogAction)
        ensures
            final(self).finished == (old(self).finished || stream_text(content@) is None),
            sent_text(r) == (if old(self).finished {
                None
            } else {
                stream_text(content@)
            }),
            old(self).finished ==> final(self).finished && r is Ignore,
            !old(self).finished ==> (if contains_seq(content@, end_marker()) {
                final(self).finished && r is Finish
            } else {
                &&& !final(self).finished
                &&& r matches LogAction::Send(text) && text@ == content@ + stream_line_suffix()
            }),
    {
        if self.finished {
            return LogAction::Ignore;
        }
        if str_contains(content, "====END====") {
            self.finished = true;
            LogAction::Finish
        } else {
            let mut text = String::from_str(content);
            text.append("\n换行");
            LogAction::Send(text)
        }
    }

    /// One line of the compile log file: a line break is appended; it ends
    /// the log when it holds the end marker, otherwise it is relayed.
    pub fn on_log_line(&mut self, line: &str) -> (r: LogAction)
        ensures
            final(self).finished == (old(self).finished || log_line_text(line@) is None),
            sent_text(r) == (if old(self).finished {
                None
            } else {
                log_line_text(line@)
            }),
            old(self).finished ==> final(self).finished && r is Ignore,
            !old(self).finished ==> (if contains_seq(line@ + "\n"@, end_marker()) {
                final(self).finished && r is Finish
            } else {
                &&& !final(self).finished
                &&& r matches LogAction::Send(text) && text@ == line@ + "\n"@
            }),
    {
        if self.finished {
            return LogAction::Ignore;
        }
        let mut text = String::from_str(line);
        text.append("\n");
        if str_contains(text.as_str(), "====END====") {
            self.finished = true;
            LogAction::Finish
        } else {
            LogAction::Send(text)
        }
    }
}

/// The text a relay sends for an action: the log text of `Send`, none
/// otherwise.
pub open spec fn sent_text(a: LogAction) -> Option<Seq<char>> {
    match a {
        LogAction::Send(t) => Some(t@),
        _ => None,
    }
}

/// What a message of the compile-log stream asks to send: none when it holds
/// the end marker, else its text with the line suffix.
pub open spec fn stream_text(content: Seq<char>) -> Option<Seq<char>> {
    if contains_seq(content, end_marker()) {
        None
    } else {
        Some(content + stream_line_suffix())
    }
}

/// What a line of the compile log file asks to send: none when it holds the
/// end marker, else the line with a line break.
pub open spec fn log_line_text(line: Seq<char>) -> Option<Seq<char>> {
    if contains_seq(line + "\n"@, end_marker()) {
        None
    } else {
        Some(line + "\n"@)
    }
}

/// The texts a relay sends for successive pieces of a log, given what each
/// piece asks to send (`None` for the end marker): one entry per piece, the
/// text sent or `None` when nothing is sent.
pub open spec fn relay_run(finished: bool, asked: Seq<Option<Seq<char>>>) -> Seq<Option<Seq<char>>>
    decreases asked.len(),
{
    if asked.len() == 0 {
        Seq::empty()
    } else if finished || asked[0] is None {
        seq![None] + relay_run(true, asked.drop_first())
    } else {
        seq![asked[0]] + relay_run(false, asked.drop_first())
    }
}

proof fn lemma_finished_run_sends_nothing(asked: Seq<Option<Seq<char>>>)
    ensures
        relay_run(true, asked).len() == asked.len(),
        forall|j: int| 0 <= j < asked.len() ==> #[trigger] relay_run(true, asked)[j] is None,
    decreases asked.len(),
{
    if asked.len() > 0 {
        lemma_finished_run_sends_nothing(asked.drop_first());
        let rest = relay_run(true, asked.drop_first());
        assert forall|j: int| 0 <= j < asked.len() implies #[trigger] relay_run(true, asked)[j] is None by {
            if j > 0 {
                assert(relay_run(true, asked)[j] == rest[j - 1]);
            }
        }
    }
}

/// A relayed compile log: every piece before the first end marker is sent
/// as it asks, and nothing is sent from the end marker on.
pub proof fn lemma_relay_stops_at_end_marker(asked: Seq<Option<Seq<char>>>)
    ensures
        relay_run(false, asked).len() == asked.len(),
        forall|i: int, j: int|
            0 <= i <= j < asked.len() && #[trigger] asked[i] is None
                ==> #[trigger] relay_run(false, asked)[j] is None,
        forall|j: int|
            0 <= j < asked.len() && (forall|i: int| 0 <= i <= j ==> #[trigger] asked[i] is Some)
                ==> #[trigger] relay_run(false, asked)[j] == asked[j],
    decreases asked.len(),
{
    if asked.len() > 0 {
        let rest = asked.drop_first();
        let run = relay_run(false, asked);
        lemma_relay_stops_at_end_marker(rest);
        lemma_finished_run_sends_nothing(rest);
        if asked[0] is None {
            assert forall|i: int, j: int|
                0 <= i <= j < asked.len() && #[trigger] asked[i] is None
                    implies #[trigger] run[j] is None by {
                if j > 0 {
                    assert(run[j] == relay_run(true, rest)[j - 1]);
                }
            }
        } else {
            assert forall|i: int, j: int|
                0 <= i <= j < asked.len() && #[trigger] asked[i] is None
                    implies #[trigger] run[j] is None by {
                assert(i > 0);
                assert(rest[i - 1] == asked[i]);
                assert(run[j] == relay_run(false, rest)[j - 1]);
            }
            assert forall|j: int|
                0 <= j < asked.len() && (forall|i: int| 0 <= i <= j ==> #[trigger] asked[i] is Some)
                    implies #[trigger] run[j] == asked[j] by {
                if j > 0 {
                    assert forall|i: int| 0 <= i <= j - 1 implies #[trigger] rest[i] is Some by {
                        assert(rest[i] == asked[i + 1]);
                    }
                    assert(run[j] == relay_run(false, rest)[j - 1]);
                    assert(rest[j - 1] == asked[j]);
                }
            }
        }
    }
}

/// Feeding a relay one piece at a time gives `relay_run`: whatever state it
/// starts in, the first piece is answered as the run's first entry and the
/// state after it is the one the run continues from.
pub proof fn lemma_relay_run_step(finished: bool, asked: Seq<Option<Seq<char>>>)
    requires
        asked.len() > 0,
    ensures
        relay_run(finished, asked)[0] == (if finished {
            None
        } else {
            asked[0]
        }),
        relay_run(finished, asked).drop_first() == relay_run(
            finished || asked[0] is None,
            asked.drop_first(),
        ),
{
    let run = relay_run(finished, asked);
    assert(run.drop_first() =~= relay_run(finished || asked[0] is None, asked.drop_first()));
}

/// What the reply to a flush request says, once read.
pub struct FlushReply {
    /// The `code` field, when it is an integer.
    pub code: Option<i64>,
    /// The length of the `result.failed` list, when there is one.
    pub failed_files: Option<usize>,
}

/// Why a flush request failed.
pub enum FlushFailure {
    /// The HTTP status was not a success.
    Status,
    /// The reply could not be read as JSON.
    Unreadable,
    /// The reply's code, -1 when it had none, was not 200.
    Code(i64),
    /// Some files could not be written; the number of them.
    FilesFailed(usize),
}

/// The outcome of a flush request: `status_ok` is whether the HTTP status
/// was a success, `reply` the reply read as JSON (`None` when unreadable),
/// and `check_failed_files` whether files that failed to flush make the
/// request fail (they do before a compilation, not before showing history).
pub open spec fn flush_outcome(
    status_ok: bool,
    reply: Option<(Option<i64>, Option<usize>)>,
    check_failed_files: bool,
) -> Result<(), FlushFailure> {
    if !status_ok {
        Err(FlushFailure::Status)
    } else {
        match reply {
            None => Err(FlushFailure::Unreadable),
            Some((code, failed)) => {
                let c = match code {
                    Some(c) => c,
                    None => -1i64,
                };
                let f: usize = match failed {
                    Some(f) => f,
                    None => 0,
                };
                if c != 200 {
                    Err(FlushFailure::Code(c))
                } else if check_failed_files && f > 0 {
                    Err(FlushFailure::FilesFailed(f))
                } else {
                    Ok(())
                }
            },
        }
    }
}

/// Judges the reply to a flush request.
pub fn judge_flush_reply(status_ok: bool, reply: Option<FlushReply>, check_failed_files: bool) -> (r:
    Result<(), FlushFailure>)
    ensures
        r == flush_outcome(
            status_ok,
            match reply {
                Some(rp) => Some((rp.code, rp.failed_files)),
                None => None,
            },
            check_failed_files,
        ),
{
    if !status_ok {
        return Err(FlushFailure::Status);
    }
    let rp = match reply {
        Some(rp) => rp,
        None => return Err(FlushFailure::Unreadable),
    };
    let code = match rp.code {
        Some(c) => c,
        None => -1,
    };
    if code != 200 {
        return Err(FlushFailure::Code(code));
    }
    let failed: usize = match rp.failed_files {
        Some(f) => f,
        None => 0,
    };
    if check_failed_files && failed > 0 {
        return Err(FlushFailure::FilesFailed(failed));
    }
    Ok(())
}

/// Showing history tolerates more than compiling does: a reply that lets a
/// compilation go ahead lets the history be shown too, and how many files
/// failed to flush never matters to the history.
pub proof fn lemma_history_flush_is_more_tolerant(
    status_ok: bool,
    reply: Option<(Option<i64>, Option<usize>)>,
)
    ensures
        flush_outcome(status_ok, reply, true) is Ok ==> flush_outcome(status_ok, reply, false) is Ok,
        match reply {
            Some((code, _failed)) => flush_outcome(status_ok, reply, false) == flush_outcome(
                status_ok,
                Some((code, None::<usize>)),
                false,
            ),
            None => true,
        },
{
}

/// Before a compilation, a reply is accepted only when the status is a
/// success, the code is 200 and no file failed to flush: with `f >= 1`
/// failed files the outcome is `FilesFailed(f)`, and with none (or no
/// `failed` list) it is `Ok`. A bad status fails first, then an unreadable
/// reply, then a code other than 200 (-1 when there is none).
pub proof fn lemma_flush_accepts_only_clean_replies(
    status_ok: bool,
    reply: Option<(Option<i64>, Option<usize>)>,
    check_failed_files: bool,
    f: usize,
)
    ensures
        f >= 1 ==> flush_outcome(true, Some((Some(200i64), Some(f))), true) == Err::<(), FlushFailure>(
            FlushFailure::FilesFailed(f),
        ),
        flush_outcome(true, Some((Some(200i64), Some(0usize))), check_failed_files) is Ok,
        flush_outcome(true, Some((Some(200i64), None::<usize>)), check_failed_files) is Ok,
        flush_outcome(true, Some((Some(200i64), Some(f))), false) is Ok,
        flush_outcome(status_ok, reply, check_failed_files) is Ok <==> (status_ok && match reply {
            Some((code, failed)) => code == Some(200i64) && !(check_failed_files && match failed {
                Some(n) => n >= 1,
                None => false,
            }),
            None => false,
        }),
        !status_ok ==> flush_outcome(status_ok, reply, check_failed_files) == Err::<(), FlushFailure>(
            FlushFailure::Status,
        ),
        status_ok && reply is None ==> flush_outcome(status_ok, reply, check_failed_files) == Err::<
            (),
            FlushFailure,
        >(FlushFailure::Unreadable),
        status_ok && reply == Some((None::<i64>, Some(f))) ==> flush_outcome(
            status_ok,
            reply,
            check_failed_files,
        ) == Err::<(), FlushFailure>(FlushFailure::Code(-1i64)),
{
}

} // verus!
