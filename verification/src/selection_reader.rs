//! Retrieval of the current primary text selection.
//!
//! Capture never fails: on any inability to retrieve a selection the result
//! is the empty string, which callers treat as "nothing to do". The
//! underlying mechanisms are tried in a fixed fallback order — the primary
//! clipboard of the live display connection first, then external
//! selection-reading utilities — and the first non-empty result wins. The
//! asynchronous clipboard read is waited for under a fixed bound, after
//! which the capture falls through to the next mechanism.

use vstd::prelude::*;

verus! {

/// Bound on the wait for an asynchronous clipboard read, in milliseconds.
pub const SELECTION_WAIT_TIMEOUT_MS: u64 = 2000;

/// One way of reading the selection, in the order tried.
#[derive(Clone, Copy, Debug, PartialEq, Eq, Structural)]
pub enum SelectionMethod {
    /// The primary-selection clipboard of the live display connection.
    PrimaryClipboard,
    /// The external X11 selection-reading utility.
    X11Tool,
    /// The external Wayland selection-reading utility.
    WaylandTool,
    /// The X11 utility run with the Wayland display setting suppressed, to
    /// catch compatibility-layer sessions.
    X11ToolNoWaylandEnv,
}

/// The fallback order of capture: each mechanism is attempted only if the
/// previous ones yielded no text.
pub fn capture_plan() -> (r: Vec<SelectionMethod>)
    ensures
        r@ == seq![
            SelectionMethod::PrimaryClipboard,
            SelectionMethod::X11Tool,
            SelectionMethod::WaylandTool,
            SelectionMethod::X11ToolNoWaylandEnv,
        ],
{
    let mut v: Vec<SelectionMethod> = Vec::new();
    v.push(SelectionMethod::PrimaryClipboard);
    v.push(SelectionMethod::X11Tool);
    v.push(SelectionMethod::WaylandTool);
    v.push(SelectionMethod::X11ToolNoWaylandEnv);
    assert(v@ =~= seq![
        SelectionMethod::PrimaryClipboard,
        SelectionMethod::X11Tool,
        SelectionMethod::WaylandTool,
        SelectionMethod::X11ToolNoWaylandEnv,
    ]);
    v
}

/// An attempt yielded nothing: the mechanism failed, or it returned no
/// text.
pub open spec fn attempt_blank(o: Option<Seq<char>>) -> bool {
    o is None || o.unwrap().len() == 0
}

/// The text of the first attempt that yielded any, or the empty string.
pub open spec fn spec_first_capture(rs: Seq<Option<Seq<char>>>) -> Seq<char>
    decreases rs.len(),
{
    if rs.len() == 0 {
        Seq::empty()
    } else if !attempt_blank(rs[0]) {
        rs[0].unwrap()
    } else {
        spec_first_capture(rs.skip(1))
    }
}

/// Skipping blank attempts does not change the capture.
proof fn lemma_first_capture_skip_blanks(rs: Seq<Option<Seq<char>>>, i: int)
    requires
        0 <= i <= rs.len(),
        forall|j: int| 0 <= j < i ==> attempt_blank(#[trigger] rs[j]),
    ensures
        spec_first_capture(rs) == spec_first_capture(rs.skip(i)),
    decreases i,
{
    if i > 0 {
        assert(attempt_blank(rs[0]));
        assert(forall|j: int| 0 <= j < i - 1 ==> attempt_blank(#[trigger] rs.skip(1)[j])) by {
            assert(forall|j: int| 0 <= j < i - 1 ==> rs.skip(1)[j] == rs[j + 1]);
        }
        lemma_first_capture_skip_blanks(rs.skip(1), i - 1);
        assert(rs.skip(1).skip(i - 1) =~= rs.skip(i));
    } else {
        assert(rs.skip(0) =~= rs);
    }
}

/// The capture is empty exactly when every attempt was blank.
pub proof fn lemma_first_capture_empty(rs: Seq<Option<Seq<char>>>)
    ensures
        spec_first_capture(rs).len() == 0 <==> (forall|j: int|
            0 <= j < rs.len() ==> attempt_blank(#[trigger] rs[j])),
    decreases rs.len(),
{
    if rs.len() > 0 {
        lemma_first_capture_empty(rs.skip(1));
        if attempt_blank(rs[0]) {
            assert(forall|j: int| 1 <= j < rs.len() ==> rs.skip(1)[j - 1] == rs[j]);
            assert(forall|j: int| 0 <= j < rs.skip(1).len() ==> rs.skip(1)[j] == rs[j + 1]);
        }
    }
}

/// Combine the attempt outcomes: the first non-empty text wins, and when
/// every mechanism failed or yielded nothing, the capture is the empty
/// string rather than an error.
pub fn capture_from(results: &Vec<Option<String>>) -> (r: String)
    ensures
        r@ == spec_first_capture(results.deep_view()),
        r@.len() == 0 <==> (forall|j: int|
            0 <= j < results@.len() ==> attempt_blank(#[trigger] results.deep_view()[j])),
{
    let ghost dv = results.deep_view();
    let mut i: usize = 0;
    while i < results.len()
        invariant
            dv == results.deep_view(),
            dv.len() == results@.len(),
            i <= results@.len(),
            forall|j: int| 0 <= j < i ==> attempt_blank(#[trigger] dv[j]),
            forall|j: int| 0 <= j < dv.len() ==> dv[j] == results@[j].deep_view(),
        decreases results@.len() - i,
    {
        match &results[i] {
            Some(text) => {
                if text.as_str().unicode_len() > 0 {
                    proof {
                        lemma_first_capture_skip_blanks(dv, i as int);
                        assert(dv.skip(i as int)[0] == dv[i as int]);
                        lemma_first_capture_empty(dv);
                    }
                    return text.clone();
                }
            },
            None => {},
        }
        i = i + 1;
    }
    proof {
        lemma_first_capture_skip_blanks(dv, dv.len() as int);
        assert(dv.skip(dv.len() as int) =~= Seq::<Option<Seq<char>>>::empty());
    }
    String::new()
}

/// Whether the bounded wait for the asynchronous clipboard read goes on:
/// only while the read has not completed and the elapsed time is within the
/// bound, so the wait always ends even if the completion callback never
/// fires.
pub fn should_keep_waiting(done: bool, elapsed_ms: u64) -> (r: bool)
    ensures
        r == (!done && elapsed_ms <= SELECTION_WAIT_TIMEOUT_MS),
{
    !done && elapsed_ms <= SELECTION_WAIT_TIMEOUT_MS
}

} // verus!
