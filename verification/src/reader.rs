//! The response side of the wire protocol: reading lines from the worker's
//! output pipe until a sentinel ends the exchange, forwarding or discarding
//! the pass-through lines in between.

use vstd::prelude::*;
use crate::failure::{is_protocol_failure, protocol_failure, CompileFailure};
use crate::protocol::{classify_line, is_failure_line, is_success_line, ProtocolLine};

verus! {

/// Where pass-through lines go for one call: forwarded to the caller's
/// standard output, or discarded. Chosen per call by the caller; sentinel
/// handling is the same either way.
#[derive(Debug, Clone, Copy, PartialEq, Eq)]
pub enum OutputSink {
    Forward,
    Discard,
}

/// One event observed on the worker's output pipe: a line was read, or the
/// stream closed before any further line.
#[derive(Debug, PartialEq, Eq)]
pub enum ResponseEvent {
    Line(String),
    Closed,
}

/// What the reader must do after one event: print the carried line and keep
/// reading, keep reading silently, or stop with the exchange's result.
#[derive(Debug, PartialEq, Eq)]
pub enum ReaderStep {
    Emit(String),
    Quiet,
    Done(Result<(), CompileFailure>),
}

/// Whether a response stream that produced exactly `lines` before closing
/// ends in success: the first sentinel line decides, and a stream with no
/// sentinel at all is a failure.
pub open spec fn stream_ok(lines: Seq<Seq<char>>) -> bool
    decreases lines.len(),
{
    if lines.len() == 0 {
        false
    } else if is_success_line(lines[0]) {
        true
    } else if is_failure_line(lines[0]) {
        false
    } else {
        stream_ok(lines.drop_first())
    }
}

/// The pass-through lines of a response stream: everything before the first
/// sentinel, verbatim and in order.
pub open spec fn forwarded_of(lines: Seq<Seq<char>>) -> Seq<Seq<char>>
    decreases lines.len(),
{
    if lines.len() == 0 {
        Seq::empty()
    } else if is_success_line(lines[0]) || is_failure_line(lines[0]) {
        Seq::empty()
    } else {
        seq![lines[0]] + forwarded_of(lines.drop_first())
    }
}

/// Handles one event of the response stream. The `ok` sentinel ends the
/// exchange with success and the `err` sentinel with the no-detail failure;
/// a closed stream is reported exactly as `err` is. A pass-through line is
/// emitted verbatim when the sink forwards and dropped when it discards,
/// and reading continues either way.
pub fn response_step(event: ResponseEvent, sink: OutputSink) -> (r: ReaderStep)
    ensures
        event matches ResponseEvent::Line(l) && is_success_line(l@) ==> (r matches
            ReaderStep::Done(res) && res is Ok),
        event matches ResponseEvent::Line(l) && is_failure_line(l@) ==> (r matches
            ReaderStep::Done(res) && res matches Err(f) && is_protocol_failure(f)),
        event matches ResponseEvent::Line(l) ==> (!is_success_line(l@) && !is_failure_line(l@)
            && sink is Forward ==> (r matches ReaderStep::Emit(t) && t == l)),
        event matches ResponseEvent::Line(l) && !is_success_line(l@) && !is_failure_line(l@)
            && sink is Discard ==> r is Quiet,
        event is Closed ==> (r matches ReaderStep::Done(res) && res matches Err(f)
            && is_protocol_failure(f)),
{
    match event {
        ResponseEvent::Line(line) => match classify_line(line) {
            ProtocolLine::Success => ReaderStep::Done(Ok(())),
            ProtocolLine::Failure => ReaderStep::Done(Err(protocol_failure())),
            ProtocolLine::PassThrough(text) => match sink {
                OutputSink::Forward => ReaderStep::Emit(text),
                OutputSink::Discard => ReaderStep::Quiet,
            },
        },
        ResponseEvent::Closed => ReaderStep::Done(Err(protocol_failure())),
    }
}

/// Reads a whole response given as the lines the stream produced before it
/// closed: the exchange succeeds exactly when the first sentinel is `ok`,
/// every failure (explicit `err` or no sentinel at all) carries the same
/// no-detail error, and the pass-through lines before the first sentinel
/// come back in order when the sink forwards, or not at all when it
/// discards.
pub fn read_response(lines: &Vec<String>, sink: OutputSink) -> (r: (
    Result<(), CompileFailure>,
    Vec<String>,
))
    ensures
        r.0 is Ok <==> stream_ok(lines.deep_view()),
        r.0 matches Err(f) ==> is_protocol_failure(f),
        sink is Forward ==> r.1.deep_view() == forwarded_of(lines.deep_view()),
        sink is Discard ==> r.1@.len() == 0,
{
    let ghost all = lines.deep_view();
    let mut fwd: Vec<String> = Vec::new();
    let mut i: usize = 0;
    proof {
        assert(all.skip(0) =~= all);
        assert(fwd.deep_view() =~= Seq::<Seq<char>>::empty());
        assert(Seq::<Seq<char>>::empty() + forwarded_of(all) =~= forwarded_of(all));
    }
    while i < lines.len()
        invariant
            i <= lines.len(),
            all == lines.deep_view(),
            all.len() == lines.len(),
            stream_ok(all) == stream_ok(all.skip(i as int)),
            sink is Forward ==> forwarded_of(all) == fwd.deep_view() + forwarded_of(
                all.skip(i as int),
            ),
            sink is Discard ==> fwd@.len() == 0,
        decreases lines.len() - i,
    {
        let line = lines[i].clone();
        let ghost lv = line@;
        proof {
            assert(all[i as int] == lines@[i as int]@);
            assert(all.skip(i as int)[0] == all[i as int]);
            assert(all.skip(i as int).drop_first() =~= all.skip(i as int + 1));
        }
        let step = response_step(ResponseEvent::Line(line), sink);
        match step {
            ReaderStep::Done(res) => {
                proof {
                    assert(is_success_line(lv) || is_failure_line(lv));
                    if sink is Forward {
                        assert(forwarded_of(all.skip(i as int)) =~= Seq::<Seq<char>>::empty());
                        assert(fwd.deep_view() + Seq::<Seq<char>>::empty() =~= fwd.deep_view());
                    }
                }
                return (res, fwd);
            },
            ReaderStep::Emit(t) => {
                proof {
                    assert(!is_success_line(lv) && !is_failure_line(lv));
                    assert(sink is Forward);
                    assert(forwarded_of(all.skip(i as int)) == seq![lv] + forwarded_of(
                        all.skip(i as int + 1),
                    ));
                }
                let ghost fv = fwd.deep_view();
                fwd.push(t);
                proof {
                    assert(fwd.deep_view() =~= fv.push(lv));
                    assert(forwarded_of(all) =~= fwd.deep_view() + forwarded_of(
                        all.skip(i as int + 1),
                    ));
                }
            },
            ReaderStep::Quiet => {
                proof {
                    assert(!is_success_line(lv) && !is_failure_line(lv));
                }
            },
        }
        i += 1;
    }
    proof {
        assert(all.skip(i as int) =~= Seq::<Seq<char>>::empty());
        if sink is Forward {
            assert(fwd.deep_view() + Seq::<Seq<char>>::empty() =~= fwd.deep_view());
        }
    }
    (Err(protocol_failure()), fwd)
}

} // verus!
