//! The render-pass recording protocol.
//!
//! A command-recording buffer is, at any time, either idle (no active
//! pass) or inside exactly one open render pass. Draw commands are legal
//! only inside an open pass, passes do not nest, and a buffer may be
//! submitted only while idle. This module gives the protocol as a state
//! machine over command traces; the typestate session types are proved to
//! record only traces this machine accepts.

use vstd::prelude::*;

verus! {

/// One recorded command of a recording session.
#[derive(Clone, Copy, Debug, PartialEq, Eq, Structural)]
pub enum Cmd {
    /// Open a render pass targeting one acquired texture view.
    BeginPass,
    /// Issue one fixed-topology draw call inside the open pass.
    Draw,
    /// Close the open render pass.
    EndPass,
}

/// The protocol's transition relation: from `in_pass` and one command to
/// the next state, or `None` when the command is illegal in that state.
pub open spec fn spec_step(in_pass: bool, c: Cmd) -> Option<bool> {
    match c {
        Cmd::BeginPass => if in_pass {
            None
        } else {
            Some(true)
        },
        Cmd::Draw => if in_pass {
            Some(true)
        } else {
            None
        },
        Cmd::EndPass => if in_pass {
            Some(false)
        } else {
            None
        },
    }
}

/// Run the protocol over a whole trace, starting idle: `Some(in_pass)` if
/// every command was legal, `None` otherwise.
pub open spec fn run(t: Seq<Cmd>) -> Option<bool>
    decreases t.len(),
{
    if t.len() == 0 {
        Some(false)
    } else {
        match run(t.drop_last()) {
            None => None,
            Some(in_pass) => spec_step(in_pass, t.last()),
        }
    }
}

/// The protocol's transition function, executable: the decision the
/// recording session makes on each command.
pub fn step(in_pass: bool, c: Cmd) -> (r: Option<bool>)
    ensures
        r == spec_step(in_pass, c),
{
    match c {
        Cmd::BeginPass => if in_pass {
            None
        } else {
            Some(true)
        },
        Cmd::Draw => if in_pass {
            Some(true)
        } else {
            None
        },
        Cmd::EndPass => if in_pass {
            Some(false)
        } else {
            None
        },
    }
}

/// Run the protocol over a recorded trace, executable.
pub fn check_trace(t: &Vec<Cmd>) -> (r: Option<bool>)
    ensures
        r == run(t@),
{
    let mut state: bool = false;
    let mut i: usize = 0;
    while i < t.len()
        invariant
            0 <= i <= t.len(),
            run(t@.take(i as int)) == Some(state),
        decreases t.len() - i,
    {
        proof {
            assert(t@.take(i + 1).drop_last() =~= t@.take(i as int));
            assert(t@.take(i + 1).last() == t@[i as int]);
        }
        match step(state, t[i]) {
            Some(next) => {
                state = next;
            },
            None => {
                proof {
                    lemma_run_extends_none(t@, i as int);
                }
                return None;
            },
        }
        i += 1;
    }
    proof {
        assert(t@.take(t.len() as int) =~= t@);
    }
    Some(state)
}

/// Once a trace is illegal at some prefix, every extension stays illegal.
proof fn lemma_run_extends_none(t: Seq<Cmd>, i: int)
    requires
        0 <= i < t.len(),
        run(t.take(i + 1)) == None::<bool>,
    ensures
        run(t) == None::<bool>,
    decreases t.len(),
{
    if t.len() == i + 1 {
        assert(t.take(i + 1) =~= t);
    } else {
        assert(t.drop_last().take(i + 1) =~= t.take(i + 1));
        lemma_run_extends_none(t.drop_last(), i);
    }
}

/// Every prefix of a legal trace is legal.
pub proof fn lemma_run_prefix_some(t: Seq<Cmd>, n: int)
    requires
        run(t) is Some,
        0 <= n <= t.len(),
    ensures
        run(t.take(n)) is Some,
    decreases t.len() - n,
{
    if n == t.len() {
        assert(t.take(n) =~= t);
    } else {
        lemma_run_prefix_some(t, n + 1);
        assert(t.take(n + 1).drop_last() =~= t.take(n));
        assert(run(t.take(n + 1)) is Some);
    }
}

/// The trace one complete frame records: open the pass, issue the one
/// fixed draw, close the pass.
pub open spec fn frame_trace() -> Seq<Cmd> {
    seq![Cmd::BeginPass, Cmd::Draw, Cmd::EndPass]
}

/// One complete frame is a legal trace that ends idle, so it may be
/// submitted.
pub proof fn lemma_frame_trace_legal()
    ensures
        run(frame_trace()) == Some(false),
{
    let t = frame_trace();
    let t2 = t.drop_last();
    let t1 = t2.drop_last();
    assert(t1.drop_last() =~= Seq::<Cmd>::empty());
    assert(run(Seq::<Cmd>::empty()) == Some(false));
    assert(t1.last() == Cmd::BeginPass);
    assert(run(t1) == Some(true));
    assert(t2.last() == Cmd::Draw);
    assert(run(t2) == Some(true));
    assert(t.last() == Cmd::EndPass);
}

/// A pass is open at `j` in `t`: `j` opened a pass that no later command
/// of `t` has closed.
pub open spec fn open_at(t: Seq<Cmd>, j: int) -> bool {
    &&& 0 <= j < t.len()
    &&& t[j] == Cmd::BeginPass
    &&& forall|k: int| j < k < t.len() ==> t[k] != Cmd::EndPass
}

/// A legal trace that ends inside a pass has an open `BeginPass`: some
/// earlier command opened the pass and no later one closed it.
pub proof fn lemma_in_pass_has_open_begin(t: Seq<Cmd>)
    requires
        run(t) == Some(true),
    ensures
        exists|j: int| open_at(t, j),
    decreases t.len(),
{
    let prefix = t.drop_last();
    match t.last() {
        Cmd::BeginPass => {
            assert(open_at(t, t.len() - 1));
        },
        Cmd::Draw => {
            assert(run(prefix) == Some(true));
            lemma_in_pass_has_open_begin(prefix);
            let j = choose|j: int| open_at(prefix, j);
            assert(t[j] == prefix[j]);
            assert forall|k: int| j < k < t.len() implies t[k] != Cmd::EndPass by {
                if k < t.len() - 1 {
                    assert(t[k] == prefix[k]);
                } else {
                    assert(t[k] == t.last());
                }
            }
            assert(open_at(t, j));
        },
        Cmd::EndPass => {
            assert(false);
        },
    }
}

/// The ordering guarantee of the recording protocol: in every legal trace,
/// each draw command lies strictly after a `BeginPass` with no intervening
/// `EndPass` - a draw is never recorded while idle.
pub proof fn lemma_draw_only_in_pass(t: Seq<Cmd>, i: int)
    requires
        run(t) is Some,
        0 <= i < t.len(),
        t[i] == Cmd::Draw,
    ensures
        exists|j: int|
            0 <= j < i && t[j] == Cmd::BeginPass && (forall|k: int|
                j < k < i ==> t[k] != Cmd::EndPass),
{
    lemma_run_prefix_some(t, i + 1);
    let upto = t.take(i + 1);
    assert(upto.drop_last() =~= t.take(i));
    assert(upto.last() == t[i]);
    assert(run(t.take(i)) == Some(true));
    lemma_in_pass_has_open_begin(t.take(i));
    let j = choose|j: int| open_at(t.take(i), j);
    assert(t[j] == t.take(i)[j]);
    assert forall|k: int| j < k < i implies t[k] != Cmd::EndPass by {
        assert(t.take(i)[k] != Cmd::EndPass);
        assert(t[k] == t.take(i)[k]);
    }
    assert(0 <= j < i && t[j] == Cmd::BeginPass && (forall|k: int|
        j < k < i ==> t[k] != Cmd::EndPass));
}

/// A nonempty legal trace that ends idle ends with `EndPass`: only closing
/// a pass returns the recording to the idle state.
proof fn lemma_closed_trace_ends_with_end(t: Seq<Cmd>)
    requires
        run(t) == Some(false),
        t.len() > 0,
    ensures
        t.last() == Cmd::EndPass,
{
}

/// There is a first `EndPass` after `i` whenever there is any.
proof fn lemma_first_end_after(t: Seq<Cmd>, i: int, k: int)
    requires
        0 <= i < k < t.len(),
        t[k] == Cmd::EndPass,
    ensures
        exists|k0: int|
            i < k0 < t.len() && t[k0] == Cmd::EndPass && (forall|m: int|
                i < m < k0 ==> t[m] != Cmd::EndPass),
    decreases k,
{
    if forall|m: int| i < m < k ==> t[m] != Cmd::EndPass {
        assert(i < k < t.len() && t[k] == Cmd::EndPass && (forall|m: int|
            i < m < k ==> t[m] != Cmd::EndPass));
    } else {
        let k1 = choose|k1: int| i < k1 < k && t[k1] == Cmd::EndPass;
        lemma_first_end_after(t, i, k1);
    }
}

/// The full ordering guarantee for a submitted recording: in every legal
/// trace that ends idle, each draw command lies strictly between a
/// `BeginPass` and the next `EndPass` after it - within one frame,
/// `begin_pass` precedes every draw, which precedes `end_pass`.
pub proof fn lemma_draw_between_begin_and_next_end(t: Seq<Cmd>, i: int) -> (jk: (int, int))
    requires
        run(t) == Some(false),
        0 <= i < t.len(),
        t[i] == Cmd::Draw,
    ensures
        0 <= jk.0 < i < jk.1 < t.len(),
        t[jk.0] == Cmd::BeginPass,
        t[jk.1] == Cmd::EndPass,
        forall|m: int| jk.0 < m < jk.1 ==> t[m] != Cmd::EndPass,
{
    lemma_draw_only_in_pass(t, i);
    let j = choose|j: int|
        0 <= j < i && t[j] == Cmd::BeginPass && (forall|k: int|
            j < k < i ==> t[k] != Cmd::EndPass);
    lemma_closed_trace_ends_with_end(t);
    assert(t[t.len() - 1] == Cmd::EndPass);
    assert(i < t.len() - 1);
    lemma_first_end_after(t, i, t.len() - 1);
    let k = choose|k0: int|
        i < k0 < t.len() && t[k0] == Cmd::EndPass && (forall|m: int|
            i < m < k0 ==> t[m] != Cmd::EndPass);
    assert forall|m: int| j < m < k implies t[m] != Cmd::EndPass by {
        if m < i {
            assert(t[m] != Cmd::EndPass);
        } else if m == i {
            assert(t[m] == Cmd::Draw);
        } else {
            assert(t[m] != Cmd::EndPass);
        }
    }
    (j, k)
}

} // verus!
