//! The consumer side of a running encode: a session that holds the
//! receiving end of the line queue while the job runs, drains it in bounded
//! passes without blocking, and treats the queue's disconnection as the end
//! of the job.

use vstd::prelude::*;
use crate::progress::ProgressState;
use crate::progress::ProgressStateModel;
use crate::progress::apply_snapshot;
use crate::progress::parse_line;
use crate::progress::spec_apply_line;

verus! {

/// What one poll of the line queue yields: a line from either stream, an
/// empty queue, or the queue's disconnection once every producer is gone.
pub enum PollEvent {
    Line(String),
    Empty,
    Disconnected,
}

/// A poll event with its line as a character sequence.
pub ghost enum PollEventModel {
    Line(Seq<char>),
    Empty,
    Disconnected,
}

impl View for PollEvent {
    type V = PollEventModel;

    open spec fn view(&self) -> PollEventModel {
        match self {
            PollEvent::Line(l) => PollEventModel::Line(l@),
            PollEvent::Empty => PollEventModel::Empty,
            PollEvent::Disconnected => PollEventModel::Disconnected,
        }
    }
}

/// How a job ends: the subprocess exited with a status, it could not be
/// spawned or read, or it was cancelled by request. Every outcome is
/// terminal for the job; nothing retries.
#[derive(Debug, Clone, PartialEq, Eq)]
pub enum EncodeOutcome {
    Completed(i32),
    Failed(String),
    Canceled,
}

/// The consumer's view of one encode job: whether a job is running, whether
/// the queue's receiving end is still held, and the progress seen so far.
pub struct EncodeSession {
    pub encoding_in_progress: bool,
    pub has_receiver: bool,
    pub progress: ProgressState,
}

/// The session with its progress state as a model.
pub ghost struct SessionModel {
    pub encoding_in_progress: bool,
    pub has_receiver: bool,
    pub progress: ProgressStateModel,
}

impl View for EncodeSession {
    type V = SessionModel;

    open spec fn view(&self) -> SessionModel {
        SessionModel {
            encoding_in_progress: self.encoding_in_progress,
            has_receiver: self.has_receiver,
            progress: self.progress@,
        }
    }
}

impl SessionModel {
    /// A session counts as encoding only while it still holds the queue's
    /// receiving end.
    pub open spec fn wf(self) -> bool {
        self.encoding_in_progress ==> self.has_receiver
    }
}

/// The session once the queue has disconnected: the job is over and the
/// receiving end is dropped.
pub open spec fn spec_stopped(st: SessionModel) -> SessionModel {
    SessionModel { encoding_in_progress: false, has_receiver: false, ..st }
}

/// What one drain pass does, and whether it observed the disconnection.
/// A session that is not encoding, or holds no receiver, polls nothing.
/// Otherwise events are consumed in order until an empty poll stops the
/// pass, a disconnection ends the job, or the events run out: each line
/// feeds the progress state, and a disconnection drops the receiver.
pub open spec fn spec_drain(st: SessionModel, evs: Seq<PollEventModel>) -> (SessionModel, bool)
    decreases evs.len(),
{
    if !st.encoding_in_progress || !st.has_receiver {
        (st, false)
    } else if evs.len() == 0 {
        (st, false)
    } else {
        match evs.first() {
            PollEventModel::Line(l) => spec_drain(
                SessionModel { progress: spec_apply_line(st.progress, l), ..st },
                evs.drop_first(),
            ),
            PollEventModel::Empty => (st, false),
            PollEventModel::Disconnected => (spec_stopped(st), true),
        }
    }
}

impl Default for EncodeSession {
    /// No job running, no receiver held, no progress seen.
    fn default() -> (r: Self)
        ensures
            !r@.encoding_in_progress,
            !r@.has_receiver,
            r@.progress.encoded_frames is None,
            r@.progress.total_frames is None,
            r@.progress.fps_milli is None,
            r@.progress.eta_time is None,
            r@.wf(),
    {
        EncodeSession {
            encoding_in_progress: false,
            has_receiver: false,
            progress: ProgressState::default(),
        }
    }
}

impl EncodeSession {
    /// Marks a freshly spawned job as running: the session now holds the
    /// queue's receiving end. The progress seen so far is kept.
    pub fn start(&mut self)
        ensures
            final(self)@.encoding_in_progress,
            final(self)@.has_receiver,
            final(self)@.progress == old(self)@.progress,
            final(self)@.wf(),
    {
        self.encoding_in_progress = true;
        self.has_receiver = true;
    }

    /// One bounded, non-blocking drain pass: `events` are what successive
    /// polls of the queue yielded, in order. Returns whether this pass
    /// observed the queue's disconnection.
    pub fn drain(&mut self, events: &Vec<PollEvent>) -> (observed_disconnect: bool)
        ensures
            ({
                let r = spec_drain(old(self)@, events@.map_values(|e: PollEvent| e@));
                final(self)@ == r.0 && observed_disconnect == r.1
            }),
    {
        if !self.encoding_in_progress || !self.has_receiver {
            return false;
        }
        let n = events.len();
        let mut i: usize = 0;
        proof {
            assert(events@.map_values(|e: PollEvent| e@).skip(0) =~= events@.map_values(
                |e: PollEvent| e@,
            ));
        }
        while i < n
            invariant
                i <= n,
                n == events.len(),
                self.encoding_in_progress,
                self.has_receiver,
                spec_drain(old(self)@, events@.map_values(|e: PollEvent| e@)) == spec_drain(
                    self@,
                    events@.map_values(|e: PollEvent| e@).skip(i as int),
                ),
            decreases n - i,
        {
            let ghost evs = events@.map_values(|e: PollEvent| e@);
            proof {
                assert(evs.skip(i as int).first() == evs[i as int]);
                assert(evs.skip(i as int).drop_first() =~= evs.skip(i as int + 1));
            }
            match &events[i] {
                PollEvent::Line(l) => {
                    match parse_line(l.as_str()) {
                        Some(snap) => {
                            apply_snapshot(&mut self.progress, &snap);
                        },
                        None => {},
                    }
                },
                PollEvent::Empty => {
                    return false;
                },
                PollEvent::Disconnected => {
                    self.encoding_in_progress = false;
                    self.has_receiver = false;
                    return true;
                },
            }
            i = i + 1;
        }
        false
    }
}

/// A session that is no longer encoding ignores every poll: nothing changes
/// and no disconnection is observed.
pub proof fn lemma_stopped_stays_stopped(st: SessionModel, evs: Seq<PollEventModel>)
    requires
        !st.encoding_in_progress || !st.has_receiver,
    ensures
        spec_drain(st, evs) == (st, false),
{
}

/// A pass that observes the disconnection leaves the session stopped, with
/// the receiver dropped.
proof fn lemma_drain_disconnect_stops(st: SessionModel, evs: Seq<PollEventModel>)
    ensures
        spec_drain(st, evs).1 ==> !spec_drain(st, evs).0.encoding_in_progress && !spec_drain(
            st,
            evs,
        ).0.has_receiver,
    decreases evs.len(),
{
    if st.encoding_in_progress && st.has_receiver && evs.len() > 0 {
        match evs.first() {
            PollEventModel::Line(l) => {
                lemma_drain_disconnect_stops(
                    SessionModel { progress: spec_apply_line(st.progress, l), ..st },
                    evs.drop_first(),
                );
            },
            PollEventModel::Empty => {},
            PollEventModel::Disconnected => {},
        }
    }
}

/// The consumer observes the disconnection at most once: a pass that
/// observes it leaves the session out of the encoding state with the
/// receiver dropped, so no later pass can observe it again — across any two
/// consecutive passes it is never observed twice.
pub proof fn lemma_disconnect_observed_once(
    st: SessionModel,
    evs1: Seq<PollEventModel>,
    evs2: Seq<PollEventModel>,
)
    ensures
        ({
            let r1 = spec_drain(st, evs1);
            let r2 = spec_drain(r1.0, evs2);
            &&& r1.1 ==> !r1.0.encoding_in_progress && !r1.0.has_receiver
            &&& r1.1 ==> r2 == (r1.0, false)
            &&& !(r1.1 && r2.1)
        }),
{
    lemma_drain_disconnect_stops(st, evs1);
    let r1 = spec_drain(st, evs1);
    if r1.1 {
        lemma_stopped_stays_stopped(r1.0, evs2);
    }
}

/// Draining keeps the session well-formed.
pub proof fn lemma_drain_wf(st: SessionModel, evs: Seq<PollEventModel>)
    requires
        st.wf(),
    ensures
        spec_drain(st, evs).0.wf(),
    decreases evs.len(),
{
    if st.encoding_in_progress && st.has_receiver && evs.len() > 0 {
        match evs.first() {
            PollEventModel::Line(l) => {
                lemma_drain_wf(
                    SessionModel { progress: spec_apply_line(st.progress, l), ..st },
                    evs.drop_first(),
                );
            },
            PollEventModel::Empty => {},
            PollEventModel::Disconnected => {},
        }
    }
}

} // verus!
