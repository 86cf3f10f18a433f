use vstd::prelude::*;

use crate::pipeline::{DrawCall, DRAW_VERTEX_COUNT};

verus! {

/// The start-up steps, in the order they run before the frame loop.
#[derive(Copy, Clone, PartialEq, Eq, Structural, Debug)]
pub enum SetupStep {
    CreateWindow,
    CreateDevice,
    CreateRenderTarget,
    CreateDepthStencil,
    SetViewport,
    CreateVertexBuffer,
    CreateShaders,
    CreateInputLayout,
    BindPipeline,
    EnableDebugQueue,
}

/// Where the program stands: each state awaits the outcome of the action
/// that led into it.
#[derive(Copy, Clone, PartialEq, Eq, Structural, Debug)]
pub enum State {
    Setup(SetupStep),
    /// A non-blocking poll of the window message queue is under way.
    Pumping,
    /// The number of buffered debug messages is being read.
    Counting,
    /// The size of debug message `index` of `count` is being queried.
    Sizing { index: u64, count: u64 },
    /// Debug message `index` of `count` is being fetched into `size` bytes.
    Fetching { index: u64, count: u64, size: usize },
    /// The debug message queue is being cleared.
    ClearingMessages,
    /// The render and depth targets are being cleared.
    ClearingTargets,
    Drawing,
    Presenting,
    /// A quit message was seen: the loop is over.
    Exited,
    /// A native call failed: the program terminates.
    Aborted,
}

/// What the program asks of the platform next.
#[derive(Copy, Clone, PartialEq, Eq, Structural, Debug)]
pub enum Action {
    Run(SetupStep),
    /// Poll the message queue without blocking; translate and dispatch what
    /// comes out.
    PeekMessage,
    CountMessages,
    /// Ask for the byte size of debug message `index`.
    QueryMessageSize { index: u64 },
    /// Fetch debug message `index` into a fresh buffer of `buffer_len` bytes
    /// and print its description.
    FetchMessage { index: u64, buffer_len: usize },
    ClearMessages,
    /// Clear the render target to gray and the depth buffer to far depth.
    ClearTargets,
    Draw(DrawCall),
    Present { sync_interval: u32, flags: u32 },
    Exit,
    Abort,
}

/// The outcome of the last action.
#[derive(Copy, Clone, PartialEq, Eq, Structural, Debug)]
pub enum Event {
    /// The action completed.
    Done,
    /// The native call failed.
    Failed,
    /// The poll found no message.
    NoMessage,
    /// The poll took a message, which was dispatched; `quit` tells whether it
    /// was the quit message.
    Message { quit: bool },
    /// The debug queue holds this many messages.
    MessageCount(u64),
    /// The queried debug message takes this many bytes.
    MessageSize(usize),
}

pub open spec fn next_setup(s: SetupStep) -> Option<SetupStep> {
    match s {
        SetupStep::CreateWindow => Some(SetupStep::CreateDevice),
        SetupStep::CreateDevice => Some(SetupStep::CreateRenderTarget),
        SetupStep::CreateRenderTarget => Some(SetupStep::CreateDepthStencil),
        SetupStep::CreateDepthStencil => Some(SetupStep::SetViewport),
        SetupStep::SetViewport => Some(SetupStep::CreateVertexBuffer),
        SetupStep::CreateVertexBuffer => Some(SetupStep::CreateShaders),
        SetupStep::CreateShaders => Some(SetupStep::CreateInputLayout),
        SetupStep::CreateInputLayout => Some(SetupStep::BindPipeline),
        SetupStep::BindPipeline => Some(SetupStep::EnableDebugQueue),
        SetupStep::EnableDebugQueue => None,
    }
}

pub open spec fn frame_draw() -> DrawCall {
    DrawCall { vertex_count: DRAW_VERTEX_COUNT, start_vertex: 0 }
}

/// One transition: the state and event give the next state and the action
/// that leads into it. Any failure, and any event that does not fit the
/// state, aborts.
pub open spec fn step_spec(s: State, e: Event) -> (State, Action) {
    match s {
        State::Setup(st) => match e {
            Event::Done => match next_setup(st) {
                Some(t) => (State::Setup(t), Action::Run(t)),
                None => (State::Pumping, Action::PeekMessage),
            },
            _ => (State::Aborted, Action::Abort),
        },
        State::Pumping => match e {
            Event::NoMessage => (State::Counting, Action::CountMessages),
            Event::Message { quit } => if quit {
                (State::Exited, Action::Exit)
            } else {
                (State::Counting, Action::CountMessages)
            },
            _ => (State::Aborted, Action::Abort),
        },
        State::Counting => match e {
            Event::MessageCount(n) => if n == 0 {
                (State::ClearingMessages, Action::ClearMessages)
            } else {
                (State::Sizing { index: 0, count: n }, Action::QueryMessageSize { index: 0 })
            },
            _ => (State::Aborted, Action::Abort),
        },
        State::Sizing { index, count } => match e {
            Event::MessageSize(size) => (
                State::Fetching { index, count, size },
                Action::FetchMessage { index, buffer_len: size },
            ),
            _ => (State::Aborted, Action::Abort),
        },
        State::Fetching { index, count, size } => match e {
            Event::Done => if index + 1 < count {
                (
                    State::Sizing { index: (index + 1) as u64, count },
                    Action::QueryMessageSize { index: (index + 1) as u64 },
                )
            } else {
                (State::ClearingMessages, Action::ClearMessages)
            },
            _ => (State::Aborted, Action::Abort),
        },
        State::ClearingMessages => match e {
            Event::Done => (State::ClearingTargets, Action::ClearTargets),
            _ => (State::Aborted, Action::Abort),
        },
        State::ClearingTargets => match e {
            Event::Done => (State::Drawing, Action::Draw(frame_draw())),
            _ => (State::Aborted, Action::Abort),
        },
        State::Drawing => match e {
            Event::Done => (State::Presenting, Action::Present { sync_interval: 0, flags: 0 }),
            _ => (State::Aborted, Action::Abort),
        },
        State::Presenting => match e {
            Event::Done => (State::Pumping, Action::PeekMessage),
            _ => (State::Aborted, Action::Abort),
        },
        State::Exited => (State::Exited, Action::Exit),
        State::Aborted => (State::Aborted, Action::Abort),
    }
}

/// The state after a sequence of events, and the actions taken on the way.
pub open spec fn run(s: State, events: Seq<Event>) -> (State, Seq<Action>)
    decreases events.len(),
{
    if events.len() == 0 {
        (s, seq![])
    } else {
        let (s1, a) = step_spec(s, events[0]);
        let (s2, rest) = run(s1, events.drop_first());
        (s2, seq![a] + rest)
    }
}

pub open spec fn renders(a: Action) -> bool {
    a is Draw || a is Present
}

/// The first state and the action that leads into it.
pub fn start() -> (r: (State, Action))
    ensures
        r == (State::Setup(SetupStep::CreateWindow), Action::Run(SetupStep::CreateWindow)),
{
    (State::Setup(SetupStep::CreateWindow), Action::Run(SetupStep::CreateWindow))
}

/// The step after `s` in start-up order, `None` after the last.
pub fn setup_successor(s: SetupStep) -> (r: Option<SetupStep>)
    ensures
        r == next_setup(s),
{
    match s {
        SetupStep::CreateWindow => Some(SetupStep::CreateDevice),
        SetupStep::CreateDevice => Some(SetupStep::CreateRenderTarget),
        SetupStep::CreateRenderTarget => Some(SetupStep::CreateDepthStencil),
        SetupStep::CreateDepthStencil => Some(SetupStep::SetViewport),
        SetupStep::SetViewport => Some(SetupStep::CreateVertexBuffer),
        SetupStep::CreateVertexBuffer => Some(SetupStep::CreateShaders),
        SetupStep::CreateShaders => Some(SetupStep::CreateInputLayout),
        SetupStep::CreateInputLayout => Some(SetupStep::BindPipeline),
        SetupStep::BindPipeline => Some(SetupStep::EnableDebugQueue),
        SetupStep::EnableDebugQueue => None,
    }
}

/// Takes the outcome `e` of the last action in state `s`; gives the next
/// state and the action to perform.
pub fn step(s: State, e: Event) -> (r: (State, Action))
    ensures
        r == step_spec(s, e),
{
    match s {
        State::Setup(st) => match e {
            Event::Done => match setup_successor(st) {
                Some(t) => (State::Setup(t), Action::Run(t)),
                None => (State::Pumping, Action::PeekMessage),
            },
            _ => (State::Aborted, Action::Abort),
        },
        State::Pumping => match e {
            Event::NoMessage => (State::Counting, Action::CountMessages),
            Event::Message { quit } => if quit {
                (State::Exited, Action::Exit)
            } else {
                (State::Counting, Action::CountMessages)
            },
            _ => (State::Aborted, Action::Abort),
        },
        State::Counting => match e {
            Event::MessageCount(n) => if n == 0 {
                (State::ClearingMessages, Action::ClearMessages)
            } else {
                (State::Sizing { index: 0, count: n }, Action::QueryMessageSize { index: 0 })
            },
            _ => (State::Aborted, Action::Abort),
        },
        State::Sizing { index, count } => match e {
            Event::MessageSize(size) => (
                State::Fetching { index, count, size },
                Action::FetchMessage { index, buffer_len: size },
            ),
            _ => (State::Aborted, Action::Abort),
        },
        State::Fetching { index, count, size } => match e {
            Event::Done => if index < count && count - index > 1 {
                (
                    State::Sizing { index: index + 1, count },
                    Action::QueryMessageSize { index: index + 1 },
                )
            } else {
                (State::ClearingMessages, Action::ClearMessages)
            },
            _ => (State::Aborted, Action::Abort),
        },
        State::ClearingMessages => match e {
            Event::Done => (State::ClearingTargets, Action::ClearTargets),
            _ => (State::Aborted, Action::Abort),
        },
        State::ClearingTargets => match e {
            Event::Done => (
                State::Drawing,
                Action::Draw(DrawCall { vertex_count: DRAW_VERTEX_COUNT, start_vertex: 0 }),
            ),
            _ => (State::Aborted, Action::Abort),
        },
        State::Drawing => match e {
            Event::Done => (State::Presenting, Action::Present { sync_interval: 0, flags: 0 }),
            _ => (State::Aborted, Action::Abort),
        },
        State::Presenting => match e {
            Event::Done => (State::Pumping, Action::PeekMessage),
            _ => (State::Aborted, Action::Abort),
        },
        State::Exited => (State::Exited, Action::Exit),
        State::Aborted => (State::Aborted, Action::Abort),
    }
}

/// The events of draining `sizes.len()` debug messages of the given sizes,
/// after the count: for each message its size, then the fetch's completion.
pub open spec fn fetch_events(sizes: Seq<usize>) -> Seq<Event>
    decreases sizes.len(),
{
    if sizes.len() == 0 {
        seq![]
    } else {
        seq![Event::MessageSize(sizes[0]), Event::Done] + fetch_events(sizes.drop_first())
    }
}

/// The actions of draining messages `index`, `index + 1`, ... of the given
/// sizes: for each, a size query and then a fetch into a buffer of exactly
/// that size; then one clear of the queue.
pub open spec fn drain_actions(index: u64, sizes: Seq<usize>) -> Seq<Action>
    decreases sizes.len(),
{
    if sizes.len() == 0 {
        seq![Action::ClearMessages]
    } else {
        seq![
            Action::QueryMessageSize { index },
            Action::FetchMessage { index, buffer_len: sizes[0] },
        ] + drain_actions((index + 1) as u64, sizes.drop_first())
    }
}

/// Once aborted, the program only aborts.
pub proof fn lemma_aborted_stays(events: Seq<Event>)
    ensures
        run(State::Aborted, events).0 == State::Aborted,
        run(State::Aborted, events).1.len() == events.len(),
        forall|k: int|
            0 <= k < events.len() ==> run(State::Aborted, events).1[k] == Action::Abort,
    decreases events.len(),
{
    if events.len() > 0 {
        lemma_aborted_stays(events.drop_first());
    }
}

/// Once exited, the program only exits.
pub proof fn lemma_exited_stays(events: Seq<Event>)
    ensures
        run(State::Exited, events).0 == State::Exited,
        run(State::Exited, events).1.len() == events.len(),
        forall|k: int| 0 <= k < events.len() ==> run(State::Exited, events).1[k] == Action::Exit,
    decreases events.len(),
{
    if events.len() > 0 {
        lemma_exited_stays(events.drop_first());
    }
}

/// A native call that fails during start-up terminates the program before
/// the frame loop: whatever comes after, every action is an abort, so no
/// message is polled and no frame is drawn or presented.
pub proof fn lemma_setup_failure_aborts(st: SetupStep, e: Event, rest: Seq<Event>)
    requires
        e != Event::Done,
    ensures
        run(State::Setup(st), seq![e] + rest).0 == State::Aborted,
        forall|k: int|
            0 <= k < 1 + rest.len() ==> run(State::Setup(st), seq![e] + rest).1[k]
                == Action::Abort,
        forall|k: int|
            0 <= k < 1 + rest.len() ==> !renders(run(State::Setup(st), seq![e] + rest).1[k]),
{
    assert((seq![e] + rest).drop_first() =~= rest);
    lemma_aborted_stays(rest);
}

/// A quit message taken by the poll ends the loop at once: the next action
/// is the exit, and no draw or present follows, whatever comes after.
pub proof fn lemma_quit_ends_loop(rest: Seq<Event>)
    ensures
        run(State::Pumping, seq![Event::Message { quit: true }] + rest).0 == State::Exited,
        run(State::Pumping, seq![Event::Message { quit: true }] + rest).1[0] == Action::Exit,
        forall|k: int|
            0 <= k < 1 + rest.len() ==> !renders(
                run(State::Pumping, seq![Event::Message { quit: true }] + rest).1[k],
            ),
{
    assert((seq![Event::Message { quit: true }] + rest).drop_first() =~= rest);
    lemma_exited_stays(rest);
}

/// Every draw the program issues, from any state and on any events, is of
/// three vertices from vertex 0.
pub proof fn lemma_draw_is_fixed(s: State, events: Seq<Event>)
    ensures
        run(s, events).1.len() == events.len(),
        forall|k: int|
            0 <= k < events.len() && (#[trigger] run(s, events).1[k]) is Draw ==> run(
                s,
                events,
            ).1[k] == Action::Draw(frame_draw()),
    decreases events.len(),
{
    if events.len() > 0 {
        let (s1, a) = step_spec(s, events[0]);
        lemma_draw_is_fixed(s1, events.drop_first());
        assert forall|k: int|
            0 <= k < events.len() && (#[trigger] run(s, events).1[k]) is Draw implies run(
                s,
                events,
            ).1[k] == Action::Draw(frame_draw()) by {
            if k > 0 {
                assert(run(s, events).1[k] == run(s1, events.drop_first()).1[k - 1]);
            }
        }
    }
}

/// Running one event and then the rest.
pub proof fn lemma_run_cons(s: State, e: Event, rest: Seq<Event>)
    ensures
        run(s, seq![e] + rest) == ({
            let (s1, a) = step_spec(s, e);
            let (s2, x) = run(s1, rest);
            (s2, seq![a] + x)
        }),
{
    assert((seq![e] + rest).drop_first() =~= rest);
}

proof fn lemma_drain_from(index: u64, count: u64, sizes: Seq<usize>)
    requires
        sizes.len() > 0,
        index + sizes.len() == count,
    ensures
        run(State::Sizing { index, count }, fetch_events(sizes)) == (
            State::ClearingMessages,
            drain_actions(index, sizes).drop_first(),
        ),
    decreases sizes.len(),
{
    let s0 = State::Sizing { index, count };
    let s1 = State::Fetching { index, count, size: sizes[0] };
    let rest = sizes.drop_first();
    let fe = fetch_events(rest);
    let fetch = Action::FetchMessage { index, buffer_len: sizes[0] };
    assert(fetch_events(sizes) =~= seq![Event::MessageSize(sizes[0])] + (seq![Event::Done] + fe));
    lemma_run_cons(s0, Event::MessageSize(sizes[0]), seq![Event::Done] + fe);
    lemma_run_cons(s1, Event::Done, fe);
    if rest.len() == 0 {
        assert(fe =~= Seq::<Event>::empty());
        assert(drain_actions((index + 1) as u64, rest) =~= seq![Action::ClearMessages]);
        assert(drain_actions(index, sizes).drop_first() =~= seq![fetch, Action::ClearMessages]);
        assert(run(State::ClearingMessages, fe).1 =~= Seq::<Action>::empty());
        assert(seq![fetch] + (seq![Action::ClearMessages] + Seq::<Action>::empty()) =~= seq![
            fetch,
            Action::ClearMessages,
        ]);
    } else {
        let next = (index + 1) as u64;
        lemma_drain_from(next, count, rest);
        let tail = drain_actions(next, rest);
        let q = Action::QueryMessageSize { index: next };
        assert(tail =~= seq![q] + tail.drop_first());
        assert(drain_actions(index, sizes).drop_first() =~= seq![fetch] + tail);
        assert(seq![fetch] + (seq![q] + tail.drop_first()) =~= seq![fetch] + tail);
    }
}

/// Draining the debug queue: when the queue reports `sizes.len()` messages
/// of the given byte sizes, each message's size is queried before it is
/// fetched, it is fetched into a buffer of exactly that size, in order, and
/// then the queue is cleared, which is the last action of the drain.
pub proof fn lemma_drain(sizes: Seq<usize>)
    requires
        sizes.len() <= u64::MAX,
    ensures
        run(State::Counting, seq![Event::MessageCount(sizes.len() as u64)] + fetch_events(sizes))
            == (State::ClearingMessages, drain_actions(0, sizes)),
{
    let n = sizes.len() as u64;
    let fe = fetch_events(sizes);
    lemma_run_cons(State::Counting, Event::MessageCount(n), fe);
    if sizes.len() == 0 {
        assert(fe =~= Seq::<Event>::empty());
        assert(drain_actions(0, sizes) =~= seq![Action::ClearMessages]);
        assert(seq![Action::ClearMessages] + run(State::ClearingMessages, fe).1 =~= seq![
            Action::ClearMessages,
        ]);
    } else {
        lemma_drain_from(0, n, sizes);
        let d = drain_actions(0, sizes);
        assert(d =~= seq![Action::QueryMessageSize { index: 0 }] + d.drop_first());
    }
}

/// The actions of a drain: a size query and a fetch per message, the fetch
/// for message `j` into a buffer of `sizes[j]` bytes, and a final clear.
pub proof fn lemma_drain_actions_shape(index: u64, sizes: Seq<usize>)
    requires
        index + sizes.len() <= u64::MAX,
    ensures
        drain_actions(index, sizes).len() == 2 * sizes.len() + 1,
        drain_actions(index, sizes).last() == Action::ClearMessages,
        forall|j: int|
            0 <= j < sizes.len() ==> drain_actions(index, sizes)[2 * j] == (Action::QueryMessageSize {
                index: (index + j) as u64,
            }) && drain_actions(index, sizes)[2 * j + 1] == (Action::FetchMessage {
                index: (index + j) as u64,
                buffer_len: sizes[j],
            }),
    decreases sizes.len(),
{
    if sizes.len() > 0 {
        let rest = sizes.drop_first();
        let next = (index + 1) as u64;
        lemma_drain_actions_shape(next, rest);
        let d = drain_actions(index, sizes);
        let t = drain_actions(next, rest);
        assert forall|j: int| 0 <= j < sizes.len() implies d[2 * j] == (Action::QueryMessageSize {
            index: (index + j) as u64,
        }) && d[2 * j + 1] == (Action::FetchMessage {
            index: (index + j) as u64,
            buffer_len: sizes[j],
        }) by {
            if j > 0 {
                assert(d[2 * j] == t[2 * (j - 1)]);
                assert(d[2 * j + 1] == t[2 * (j - 1) + 1]);
                assert(rest[j - 1] == sizes[j]);
            }
        }
    }
}

} // verus!
