//! Decisions of the capture and playback tasks: which samples are collected
//! into hops, which hops are analysed, when the note labels are refreshed,
//! how the frame queue applies back-pressure, and which frame the
//! synthesiser plays when the queue runs dry.
use std::collections::VecDeque;
use vstd::prelude::*;

use crate::config::FrameConfig;

verus! {

/// A new frame is queued only while at most this many are waiting.
pub const HIGH_WATER: usize = 1000;

/// Playback synthesises only while at most this many frames stay queued.
pub const PLAYBACK_BACKLOG: usize = 10;

/// The note labels are refreshed once every this many hops.
pub const LABEL_PERIOD: usize = 20;

/// The queue `q` after offering `frame`: kept when at most `HIGH_WATER`
/// frames wait, dropped otherwise.
pub open spec fn after_offer<T>(q: Seq<T>, frame: T) -> Seq<T> {
    if q.len() <= HIGH_WATER {
        q.push(frame)
    } else {
        q
    }
}

/// The queue `q` after offering each of `frames` in turn.
pub open spec fn after_offers<T>(q: Seq<T>, frames: Seq<T>) -> Seq<T>
    decreases frames.len(),
{
    if frames.len() == 0 {
        q
    } else {
        after_offers(after_offer(q, frames[0]), frames.subrange(1, frames.len() as int))
    }
}

/// What the playback task does on one request of the speakers.
#[derive(Debug, PartialEq, Eq)]
pub enum PlaybackStep<T> {
    /// Synthesise one step, from this frame or, when absent, from the last one.
    Synthesise(Option<T>),
    /// Too many frames are queued: emit nothing this time.
    Silence,
}

/// The spectral frames waiting between the analyser and the synthesiser,
/// oldest first.
pub struct FrameQueue<T> {
    frames: VecDeque<T>,
}

impl<T> FrameQueue<T> {
    pub closed spec fn view(&self) -> Seq<T> {
        self.frames@
    }

    /// A queue never holds more than `HIGH_WATER + 1` frames.
    pub open spec fn wf(&self) -> bool {
        self.view().len() <= HIGH_WATER + 1
    }

    pub fn new() -> (r: FrameQueue<T>)
        ensures
            r.wf(),
            r.view() == Seq::<T>::empty(),
    {
        FrameQueue { frames: VecDeque::new() }
    }

    pub fn len(&self) -> (r: usize)
        ensures
            r == self.view().len(),
    {
        self.frames.len()
    }

    /// Whether a frame offered now would be queued.
    pub fn has_room(&self) -> (r: bool)
        ensures
            r == (self.view().len() <= HIGH_WATER),
    {
        self.frames.len() <= HIGH_WATER
    }

    /// Queues `frame` at the back when at most `HIGH_WATER` frames wait, and
    /// drops it otherwise; returns whether it was queued.
    pub fn offer(&mut self, frame: T) -> (queued: bool)
        requires
            old(self).wf(),
        ensures
            final(self).wf(),
            queued == (old(self).view().len() <= HIGH_WATER),
            final(self).view() == after_offer(old(self).view(), frame),
    {
        if self.frames.len() <= HIGH_WATER {
            self.frames.push_back(frame);
            true
        } else {
            false
        }
    }

    /// Takes the oldest frame, if any, and decides whether playback
    /// synthesises from it: only while at most `PLAYBACK_BACKLOG` frames
    /// remain queued.
    pub fn next_for_playback(&mut self) -> (r: PlaybackStep<T>)
        requires
            old(self).wf(),
        ensures
            final(self).wf(),
            old(self).view().len() == 0 ==> final(self).view() == old(self).view(),
            old(self).view().len() > 0 ==> final(self).view() == old(self).view().subrange(
                1,
                old(self).view().len() as int,
            ),
            r == (if final(self).view().len() <= PLAYBACK_BACKLOG {
                PlaybackStep::Synthesise(
                    if old(self).view().len() == 0 {
                        None
                    } else {
                        Some(old(self).view()[0])
                    },
                )
            } else {
                PlaybackStep::Silence
            }),
    {
        let frame = self.frames.pop_front();
        if self.frames.len() <= PLAYBACK_BACKLOG {
            PlaybackStep::Synthesise(frame)
        } else {
            PlaybackStep::Silence
        }
    }
}

/// Offering frames one by one to a valid queue keeps the frames already
/// queued and, in order, as many of the new ones as fit under the
/// high-water mark, dropping the rest; so the queue never holds more than
/// `HIGH_WATER + 1` frames, however many are offered.
pub proof fn lemma_back_pressure<T>(q: Seq<T>, frames: Seq<T>)
    requires
        q.len() <= HIGH_WATER + 1,
    ensures
        after_offers(q, frames) == q + frames.subrange(
            0,
            if q.len() > HIGH_WATER {
                0
            } else if q.len() + frames.len() <= HIGH_WATER + 1 {
                frames.len() as int
            } else {
                HIGH_WATER + 1 - q.len()
            },
        ),
        after_offers(q, frames).len() <= HIGH_WATER + 1,
    decreases frames.len(),
{
    if frames.len() == 0 {
        assert(q + frames.subrange(0, 0) =~= q);
    } else {
        let rest = frames.subrange(1, frames.len() as int);
        let q1 = after_offer(q, frames[0]);
        lemma_back_pressure(q1, rest);
        if q.len() > HIGH_WATER {
            assert(q + frames.subrange(0, 0) =~= q);
            assert(q1 + rest.subrange(0, 0) =~= q);
        } else {
            let k: int = if q.len() + frames.len() <= HIGH_WATER + 1 {
                frames.len() as int
            } else {
                HIGH_WATER + 1 - q.len()
            };
            assert(q1 + rest.subrange(0, k - 1) =~= q + frames.subrange(0, k));
        }
    }
}

/// What the capture task does with one recorded sample.
#[derive(Debug, PartialEq, Eq)]
pub enum CaptureStep<T> {
    /// The pipeline is stopped: the sample is discarded.
    Ignored,
    /// The sample was added to the pending hop, which is not full yet.
    Collected,
    /// A hop was completed while the frame queue was full: it is discarded.
    Dropped,
    /// A hop was completed: analyse it, and refresh the note labels when asked.
    Analyse { hop: Vec<T>, refresh_labels: bool },
}

/// The capture task's state: the run gate, the samples of the hop being
/// collected, and the count of completed hops modulo `LABEL_PERIOD`.
pub struct Capture<T> {
    pending: Vec<T>,
    step: usize,
    running: bool,
    phase: usize,
}

impl<T: Copy> Capture<T> {
    pub closed spec fn pending(&self) -> Seq<T> {
        self.pending@
    }

    pub closed spec fn spec_step(&self) -> nat {
        self.step as nat
    }

    pub closed spec fn spec_running(&self) -> bool {
        self.running
    }

    pub closed spec fn spec_phase(&self) -> nat {
        self.phase as nat
    }

    pub closed spec fn wf(&self) -> bool {
        &&& 0 < self.step
        &&& self.pending@.len() < self.step
        &&& self.phase < LABEL_PERIOD
    }

    /// A stopped capture collecting hops of `H` samples.
    pub fn new(config: &FrameConfig) -> (r: Capture<T>)
        ensures
            r.wf(),
            r.pending() == Seq::<T>::empty(),
            r.spec_step() == config.spec_step_size(),
            !r.spec_running(),
            r.spec_phase() == 0,
    {
        Capture { pending: Vec::new(), step: config.step_size(), running: false, phase: 0 }
    }

    pub fn is_running(&self) -> (r: bool)
        ensures
            r == self.spec_running(),
    {
        self.running
    }

    /// Opens the run gate; the pending hop and the count are kept.
    pub fn start(&mut self)
        requires
            old(self).wf(),
        ensures
            final(self).wf(),
            final(self).spec_running(),
            final(self).pending() == old(self).pending(),
            final(self).spec_step() == old(self).spec_step(),
            final(self).spec_phase() == old(self).spec_phase(),
    {
        self.running = true;
    }

    /// Closes the run gate; the pending hop and the count are kept.
    pub fn stop(&mut self)
        requires
            old(self).wf(),
        ensures
            final(self).wf(),
            !final(self).spec_running(),
            final(self).pending() == old(self).pending(),
            final(self).spec_step() == old(self).spec_step(),
            final(self).spec_phase() == old(self).spec_phase(),
    {
        self.running = false;
    }

    /// Handles one recorded sample. While stopped it is ignored. Otherwise it
    /// joins the pending hop; when that completes the hop is counted, and it
    /// is handed out for analysis if `queue_has_room`, else dropped. The
    /// labels are refreshed on every `LABEL_PERIOD`-th completed hop.
    pub fn on_sample(&mut self, sample: T, queue_has_room: bool) -> (r: CaptureStep<T>)
        requires
            old(self).wf(),
        ensures
            final(self).wf(),
            final(self).spec_step() == old(self).spec_step(),
            final(self).spec_running() == old(self).spec_running(),
            !old(self).spec_running() ==> {
                &&& r is Ignored
                &&& final(self).pending() == old(self).pending()
                &&& final(self).spec_phase() == old(self).spec_phase()
            },
            old(self).spec_running() && old(self).pending().len() + 1 < old(self).spec_step()
                ==> {
                &&& r is Collected
                &&& final(self).pending() == old(self).pending().push(sample)
                &&& final(self).spec_phase() == old(self).spec_phase()
            },
            old(self).spec_running() && old(self).pending().len() + 1 == old(self).spec_step()
                ==> {
                &&& final(self).pending() == Seq::<T>::empty()
                &&& final(self).spec_phase() == (old(self).spec_phase() + 1) % (LABEL_PERIOD as nat)
                &&& !queue_has_room ==> r is Dropped
                &&& queue_has_room ==> (r matches CaptureStep::Analyse { hop, refresh_labels }
                    && hop@ == old(self).pending().push(sample)
                    && refresh_labels == (final(self).spec_phase() == 0))
            },
    {
        if !self.running {
            return CaptureStep::Ignored;
        }
        self.pending.push(sample);
        if self.pending.len() < self.step {
            return CaptureStep::Collected;
        }
        self.phase = if self.phase + 1 == LABEL_PERIOD {
            0
        } else {
            self.phase + 1
        };
        let mut hop: Vec<T> = Vec::new();
        std::mem::swap(&mut hop, &mut self.pending);
        if queue_has_room {
            CaptureStep::Analyse { hop, refresh_labels: self.phase == 0 }
        } else {
            CaptureStep::Dropped
        }
    }
}

/// The frame the synthesiser plays: the last one supplied, or the initial
/// silent frame before any was.
pub struct FrameCache<T> {
    last: T,
}

impl<T> FrameCache<T> {
    pub closed spec fn view(&self) -> T {
        self.last
    }

    pub fn new(initial: T) -> (r: FrameCache<T>)
        ensures
            r.view() == initial,
    {
        FrameCache { last: initial }
    }

    /// Keeps a supplied frame; without one the cached frame is held.
    pub fn remember(&mut self, frame: Option<T>)
        ensures
            final(self).view() == (match frame {
                Some(f) => f,
                None => old(self).view(),
            }),
    {
        if let Some(f) = frame {
            self.last = f;
        }
    }

    /// The frame to play now.
    pub fn current(&self) -> (r: &T)
        ensures
            *r == self.view(),
    {
        &self.last
    }
}

/// Whether the user has the pipeline playing.
#[derive(Debug, Clone, Copy, PartialEq, Eq, Structural)]
pub enum PlayState {
    Idle,
    Playing,
}

/// What pressing the play button asks of the run gate.
#[derive(Debug, Clone, Copy, PartialEq, Eq, Structural)]
pub enum GateAction {
    Start,
    Stop,
}

impl PlayState {
    pub fn is_playing(&self) -> (r: bool)
        ensures
            r == (*self == PlayState::Playing),
    {
        match self {
            PlayState::Playing => true,
            PlayState::Idle => false,
        }
    }

    /// The play button toggles between idle and playing: starting the
    /// pipeline from idle, stopping it while playing.
    pub fn press(&self) -> (r: (PlayState, GateAction))
        ensures
            *self == PlayState::Idle ==> r == (PlayState::Playing, GateAction::Start),
            *self == PlayState::Playing ==> r == (PlayState::Idle, GateAction::Stop),
    {
        match self {
            PlayState::Idle => (PlayState::Playing, GateAction::Start),
            PlayState::Playing => (PlayState::Idle, GateAction::Stop),
        }
    }
}

} // verus!
