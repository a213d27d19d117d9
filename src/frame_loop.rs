//! The decisions of the main loop: which events stop it, when a frame is
//! rendered, the throughput report, and the single disposal of the graph.
use vstd::prelude::*;

verus! {

/// Nanoseconds in one second.
pub const NANOS_PER_SEC: u128 = 1_000_000_000;

/// A key of the keyboard, as far as the loop cares.
#[derive(Clone, Copy, Debug, PartialEq, Eq, Structural)]
pub enum Key {
    Escape,
    Other,
}

/// An event polled from the window.
#[derive(Clone, Copy, Debug, PartialEq, Eq, Structural)]
pub enum WindowEvent {
    CloseRequested,
    KeyDown(Key),
    Other,
}

/// Whether the event ends the loop: a close request or the Escape key.
pub open spec fn is_terminating(e: WindowEvent) -> bool {
    e == WindowEvent::CloseRequested || e == WindowEvent::KeyDown(Key::Escape)
}

/// Whether any of the events ends the loop.
pub open spec fn any_terminating(events: Seq<WindowEvent>) -> bool {
    exists|i: int| 0 <= i < events.len() && is_terminating(#[trigger] events[i])
}

/// Whether the event ends the loop.
pub fn terminates(e: &WindowEvent) -> (r: bool)
    ensures
        r == is_terminating(*e),
{
    match e {
        WindowEvent::CloseRequested => true,
        WindowEvent::KeyDown(Key::Escape) => true,
        _ => false,
    }
}

/// The time elapsed, in nanoseconds, of a duration given as whole seconds and
/// the nanoseconds beyond them.
pub fn elapsed_nanos(secs: u64, subsec_nanos: u32) -> (r: u128)
    ensures
        r == secs as int * NANOS_PER_SEC as int + subsec_nanos as int,
{
    secs as u128 * NANOS_PER_SEC + subsec_nanos as u128
}

/// Frames per second, rounded down: `frames * 1e9 / elapsed_ns`. `None` when
/// no time has elapsed.
pub fn frames_per_second(frames: u64, elapsed_ns: u128) -> (r: Option<u128>)
    ensures
        r is None <==> elapsed_ns == 0,
        r matches Some(v) ==> v == fps_spec(frames as nat, elapsed_ns as nat),
{
    if elapsed_ns == 0 {
        None
    } else {
        Some(frames as u128 * NANOS_PER_SEC / elapsed_ns)
    }
}

/// Frames per second, rounded down.
pub open spec fn fps_spec(frames: nat, elapsed_ns: nat) -> nat
    recommends
        elapsed_ns > 0,
{
    (frames * NANOS_PER_SEC as nat) / elapsed_ns
}

/// What the loop does in a tick, once the events are handled.
#[derive(Clone, Copy, Debug, PartialEq, Eq, Structural)]
pub enum FrameStep {
    /// Maintain the device and run the graph for one frame.
    Render,
    /// Leave the loop.
    Stop,
}

/// The summary reported when the loop ends.
#[derive(Clone, Copy, Debug, PartialEq, Eq, Structural)]
pub struct FrameReport {
    pub elapsed_ns: u128,
    pub frames: u64,
    /// `None` when no time was measured.
    pub fps: Option<u128>,
}

/// Why the loop refused to end.
#[derive(Clone, Copy, Debug, PartialEq, Eq, Structural)]
pub enum LoopError {
    /// No terminating event has been seen: the graph must stay alive.
    StillRunning,
    /// The graph was already disposed of.
    AlreadyDisposed,
}

/// The model of the loop.
pub struct LoopState {
    pub running: bool,
    pub frames: u64,
    pub elapsed_ns: u128,
    pub disposed: bool,
}

/// The loop after the events of one tick.
pub open spec fn after_events(s: LoopState, events: Seq<WindowEvent>) -> LoopState {
    LoopState { running: s.running && !any_terminating(events), ..s }
}

/// What a tick decides, and the loop after it. A loop that runs when the
/// tick begins renders one frame in it, also when the tick's events stop it;
/// the loop ends before the next tick.
pub open spec fn tick_spec(s: LoopState, events: Seq<WindowEvent>) -> (FrameStep, LoopState) {
    let t = after_events(s, events);
    if s.running {
        (FrameStep::Render, LoopState { frames: (t.frames + 1) as u64, ..t })
    } else {
        (FrameStep::Stop, t)
    }
}

/// What ending the loop returns, and the loop after it.
pub open spec fn finish_spec(s: LoopState) -> (Result<FrameReport, LoopError>, LoopState) {
    if s.running {
        (Err(LoopError::StillRunning), s)
    } else if s.disposed {
        (Err(LoopError::AlreadyDisposed), s)
    } else {
        (
            Ok(
                FrameReport {
                    elapsed_ns: s.elapsed_ns,
                    frames: s.frames,
                    fps: if s.elapsed_ns == 0 {
                        None
                    } else {
                        Some(fps_spec(s.frames as nat, s.elapsed_ns as nat) as u128)
                    },
                },
            ),
            LoopState { disposed: true, ..s },
        )
    }
}

/// The main loop's state: whether it runs, the frames rendered, the time
/// elapsed since it started, and whether the graph was disposed of.
pub struct FrameLoop {
    running: bool,
    frames: u64,
    elapsed_ns: u128,
    disposed: bool,
}

impl View for FrameLoop {
    type V = LoopState;

    closed spec fn view(&self) -> LoopState {
        LoopState {
            running: self.running,
            frames: self.frames,
            elapsed_ns: self.elapsed_ns,
            disposed: self.disposed,
        }
    }
}

impl FrameLoop {
    /// A loop that runs, has rendered nothing, and holds a live graph.
    pub fn new() -> (r: Self)
        ensures
            r@ == (LoopState { running: true, frames: 0, elapsed_ns: 0, disposed: false }),
    {
        FrameLoop { running: true, frames: 0, elapsed_ns: 0, disposed: false }
    }

    pub fn is_running(&self) -> (r: bool)
        ensures
            r == self@.running,
    {
        self.running
    }

    pub fn frame_count(&self) -> (r: u64)
        ensures
            r == self@.frames,
    {
        self.frames
    }

    pub fn elapsed_ns(&self) -> (r: u128)
        ensures
            r == self@.elapsed_ns,
    {
        self.elapsed_ns
    }

    pub fn is_disposed(&self) -> (r: bool)
        ensures
            r == self@.disposed,
    {
        self.disposed
    }

    /// Handles one polled event: a close request or Escape stops the loop;
    /// any other event changes nothing.
    pub fn handle_event(&mut self, e: &WindowEvent)
        ensures
            final(self)@ == after_events(old(self)@, seq![*e]),
    {
        if terminates(e) {
            self.running = false;
        }
        proof {
            let es = seq![*e];
            if is_terminating(*e) {
                assert(is_terminating(es[0]));
            }
        }
    }

    /// One tick: handles the events polled in it, then renders a frame if the
    /// loop was running when the tick began, counting it. A terminating event
    /// stops the loop after this tick's frame.
    pub fn tick(&mut self, events: &Vec<WindowEvent>) -> (r: FrameStep)
        requires
            old(self)@.frames < u64::MAX,
        ensures
            (r, final(self)@) == tick_spec(old(self)@, events@),
    {
        let was_running = self.running;
        let mut i: usize = 0;
        while i < events.len()
            invariant
                i <= events@.len(),
                self@ == after_events(old(self)@, events@.take(i as int)),
            decreases events@.len() - i,
        {
            self.handle_event(&events[i]);
            proof {
                let pre = events@.take(i as int);
                let post = events@.take(i as int + 1);
                assert(post =~= pre.push(events@[i as int]));
                if any_terminating(post) {
                    let k = choose|k: int| 0 <= k < post.len() && is_terminating(#[trigger] post[k]);
                    if k < i {
                        assert(pre[k] == post[k]);
                    } else {
                        assert(seq![events@[i as int]][0] == post[k]);
                    }
                }
                if any_terminating(pre) {
                    let k = choose|k: int| 0 <= k < pre.len() && is_terminating(#[trigger] pre[k]);
                    assert(post[k] == pre[k]);
                }
                if is_terminating(events@[i as int]) {
                    assert(post[i as int] == events@[i as int]);
                }
            }
            i = i + 1;
        }
        proof {
            assert(events@.take(i as int) =~= events@);
        }
        if was_running {
            self.frames = self.frames + 1;
            FrameStep::Render
        } else {
            FrameStep::Stop
        }
    }

    /// Records the time elapsed since the loop started.
    pub fn record_elapsed(&mut self, elapsed_ns: u128)
        ensures
            final(self)@ == (LoopState { elapsed_ns, ..old(self)@ }),
    {
        self.elapsed_ns = elapsed_ns;
    }

    /// Ends the loop: reports the frames, the time and the throughput, and
    /// marks the graph disposed of. Refused while the loop runs, and after the
    /// graph was disposed of once.
    pub fn finish(&mut self) -> (r: Result<FrameReport, LoopError>)
        ensures
            (r, final(self)@) == finish_spec(old(self)@),
    {
        if self.running {
            return Err(LoopError::StillRunning);
        }
        if self.disposed {
            return Err(LoopError::AlreadyDisposed);
        }
        let fps = frames_per_second(self.frames, self.elapsed_ns);
        self.disposed = true;
        Ok(FrameReport { elapsed_ns: self.elapsed_ns, frames: self.frames, fps })
    }
}

} // verus!
