//! The per-tick coordinator: once per display frame it pulls the newest
//! captured frame, hands it to every idle worker, collects whatever
//! responses are ready, and passes the frame on to the texture uploader —
//! all through non-blocking calls, so the render loop never stalls.

use vstd::prelude::*;

use crate::analysis::AnalysisResult;
use crate::analysis::WorkerKind;
use crate::frame::Frame;
use crate::source::FrameSource;
use crate::texture::TextureUploader;
use crate::texture::UploadBuffer;
use crate::worker::AsyncWorker;
use crate::worker::WorkerState;

verus! {

/// One configured worker: its kind, its dispatch/poll endpoint, and the
/// latest completed result of that kind. The stored result is replaced only
/// by the next completed result of the same worker; no history is kept.
pub struct WorkerSlot {
    kind: WorkerKind,
    worker: AsyncWorker<Frame, AnalysisResult>,
    latest: Option<AnalysisResult>,
}

impl WorkerSlot {
    /// The analysis pass this slot is configured for.
    pub closed spec fn kind(self) -> WorkerKind {
        self.kind
    }

    /// Whether this slot's worker has a request in flight.
    pub closed spec fn state(self) -> WorkerState {
        self.worker.state()
    }

    /// Requests this slot's worker has been given.
    pub closed spec fn accepted(self) -> nat {
        self.worker.accepted()
    }

    /// Responses this slot has collected.
    pub closed spec fn completed(self) -> nat {
        self.worker.completed()
    }

    /// Whether the worker thread was still reachable at the last use.
    pub closed spec fn connected(self) -> bool {
        self.worker.connected()
    }

    /// The latest completed result, if any arrived yet.
    pub closed spec fn latest(self) -> Option<AnalysisResult> {
        self.latest
    }

    /// The worker's bookkeeping invariant.
    pub closed spec fn wf(self) -> bool {
        self.worker.wf()
    }

    /// A slot for a freshly spawned worker thread: no result yet.
    pub fn new(kind: WorkerKind, worker: AsyncWorker<Frame, AnalysisResult>) -> (r: WorkerSlot)
        requires
            worker.wf(),
        ensures
            r.wf(),
            r.kind() == kind,
            r.state() == worker.state(),
            r.accepted() == worker.accepted(),
            r.completed() == worker.completed(),
            r.latest() is None,
    {
        WorkerSlot { kind, worker, latest: None }
    }

    /// The analysis pass this slot is configured for.
    pub fn pass_kind(&self) -> (k: WorkerKind)
        ensures
            k == self.kind(),
    {
        self.kind
    }

    /// The latest completed result.
    pub fn latest_result(&self) -> (r: &Option<AnalysisResult>)
        ensures
            r == self.latest(),
    {
        &self.latest
    }

    /// One tick's worth of service for this slot: dispatch a copy of the
    /// frame if the worker is idle (best effort — a busy or dead worker is
    /// skipped, never queued behind), then collect a response if one is
    /// ready.
    fn service(&mut self, frame: &Frame)
        requires
            old(self).wf(),
        ensures
            final(self).wf(),
            serviced(*old(self), *final(self)),
    {
        if self.worker.is_finished() {
            let _ = self.worker.dispatch(frame.duplicate());
        }
        match self.worker.poll() {
            Some(resp) => {
                self.latest = Some(resp);
            },
            None => {},
        }
    }
}

/// Relates a slot before and after one tick of service: the kind is kept;
/// nothing is dispatched past a pending request; an idle worker whose
/// thread is alive is owed a dispatch, which either goes through or finds
/// the thread dead; at most one request goes out and at most one response
/// comes in; and the stored result changes only when a fresh response
/// arrived.
pub open spec fn serviced(before: WorkerSlot, after: WorkerSlot) -> bool {
    &&& after.kind() == before.kind()
    &&& (before.state() is Pending ==> after.accepted() == before.accepted())
    &&& (before.state() is Idle && before.connected() ==> (after.accepted() == before.accepted()
        + 1 || (after.accepted() == before.accepted() && !after.connected())))
    &&& after.accepted() <= before.accepted() + 1
    &&& after.completed() <= before.completed() + 1
    &&& (after.latest() == before.latest() || (after.latest() is Some && after.completed()
        == before.completed() + 1))
}

/// The coordinator: the configured workers, their stored results, the
/// texture uploader, and the frame currently on display.
pub struct Coordinator {
    workers: Vec<WorkerSlot>,
    uploader: TextureUploader,
    current: Option<Frame>,
}

impl Coordinator {
    /// The configured worker slots.
    pub closed spec fn slots(self) -> Seq<WorkerSlot> {
        self.workers@
    }

    /// How many workers are configured.
    pub open spec fn worker_count(self) -> nat {
        self.slots().len()
    }

    /// The uploader's in-flight state.
    pub closed spec fn uploader_state(self) -> WorkerState {
        self.uploader.state()
    }

    /// Frames handed to the uploader thread.
    pub closed spec fn uploader_accepted(self) -> nat {
        self.uploader.accepted()
    }

    /// Buffers collected from the uploader thread.
    pub closed spec fn uploader_completed(self) -> nat {
        self.uploader.completed()
    }

    /// Whether the uploader thread was still reachable at the last use.
    pub closed spec fn uploader_connected(self) -> bool {
        self.uploader.connected()
    }

    /// The frame of the current tick, kept for the renderer.
    pub closed spec fn current_frame(self) -> Option<Frame> {
        self.current
    }

    /// Every slot's and the uploader's bookkeeping invariants.
    pub closed spec fn wf(self) -> bool {
        &&& self.uploader.wf()
        &&& forall|i: int| 0 <= i < self.slots().len() ==> (#[trigger] self.slots()[i]).wf()
    }

    /// A coordinator with no workers yet and nothing on display.
    pub fn new(uploader: TextureUploader) -> (r: Coordinator)
        requires
            uploader.wf(),
        ensures
            r.wf(),
            r.worker_count() == 0,
            r.current_frame() is None,
            r.uploader_state() == uploader.state(),
            r.uploader_accepted() == uploader.accepted(),
            r.uploader_completed() == uploader.completed(),
    {
        Coordinator { workers: Vec::new(), uploader, current: None }
    }

    /// Adds a configured worker. The fixed set is assembled at startup;
    /// workers are never pooled or resized afterwards.
    pub fn add_worker(&mut self, kind: WorkerKind, worker: AsyncWorker<Frame, AnalysisResult>)
        requires
            old(self).wf(),
            worker.wf(),
        ensures
            final(self).wf(),
            final(self).worker_count() == old(self).worker_count() + 1,
            final(self).slots().drop_last() == old(self).slots(),
            final(self).slots().last().kind() == kind,
            final(self).slots().last().latest() is None,
            final(self).current_frame() == old(self).current_frame(),
            final(self).uploader_state() == old(self).uploader_state(),
            final(self).uploader_accepted() == old(self).uploader_accepted(),
            final(self).uploader_completed() == old(self).uploader_completed(),
    {
        let slot = WorkerSlot::new(kind, worker);
        self.workers.push(slot);
        proof {
            assert(self.workers@.drop_last() =~= old(self).workers@);
            assert forall|i: int| 0 <= i < self.slots().len() implies (#[trigger] self.slots()[i]).wf() by {
                if i < old(self).slots().len() {
                    assert(old(self).slots()[i].wf());
                    assert(self.slots()[i] == old(self).slots()[i]);
                } else {
                    assert(self.slots()[i] == slot);
                }
            }
        }
    }

    /// How many workers are configured.
    pub fn num_workers(&self) -> (n: usize)
        ensures
            n == self.worker_count(),
    {
        self.workers.len()
    }

    /// The stored result of the worker at `i`.
    pub fn latest_result(&self, i: usize) -> (r: &Option<AnalysisResult>)
        requires
            i < self.worker_count(),
        ensures
            r == self.slots()[i as int].latest(),
    {
        self.workers[i].latest_result()
    }

    /// The first stored result of the given kind, or nothing when no worker
    /// of that kind has completed a pass yet.
    pub fn latest_of_kind(&self, kind: WorkerKind) -> (r: Option<&AnalysisResult>)
        ensures
            match r {
                Some(res) => exists|i: int|
                    0 <= i < self.worker_count() && (#[trigger] self.slots()[i]).kind() == kind
                        && self.slots()[i].latest() == Some(*res),
                None => forall|i: int|
                    0 <= i < self.worker_count() && (#[trigger] self.slots()[i]).kind() == kind
                        ==> self.slots()[i].latest() is None,
            },
    {
        let n = self.workers.len();
        let mut i: usize = 0;
        while i < n
            invariant
                n == self.worker_count(),
                i <= n,
                forall|j: int|
                    0 <= j < i && (#[trigger] self.slots()[j]).kind() == kind ==> self.slots()[j].latest() is None,
            decreases n - i,
        {
            let slot = &self.workers[i];
            if slot.pass_kind() == kind {
                match slot.latest_result() {
                    Some(res) => {
                        return Some(res);
                    },
                    None => {},
                }
            }
            i += 1;
        }
        None
    }

    /// The frame of the current tick, kept for the renderer.
    pub fn frame_on_display(&self) -> (r: &Option<Frame>)
        ensures
            r == self.current_frame(),
    {
        &self.current
    }

    /// Collects the uploader's converted buffer if one is ready; never
    /// blocks, never delivers the same buffer twice.
    pub fn finish_upload(&mut self) -> (r: Option<UploadBuffer>)
        requires
            old(self).wf(),
        ensures
            final(self).wf(),
            final(self).slots() == old(self).slots(),
            final(self).current_frame() == old(self).current_frame(),
            final(self).uploader_accepted() == old(self).uploader_accepted(),
            old(self).uploader_state() is Idle ==> r is None,
            r is Some ==> final(self).uploader_completed() == old(self).uploader_completed() + 1,
            r is None ==> final(self).uploader_completed() == old(self).uploader_completed(),
    {
        let r = self.uploader.finish_upload();
        proof {
            assert forall|i: int| 0 <= i < self.slots().len() implies (#[trigger] self.slots()[i]).wf() by {
                assert(old(self).slots()[i].wf());
                assert(self.slots()[i] == old(self).slots()[i]);
            }
        }
        r
    }

    /// One display tick. Never blocks: one channel poll, at most one
    /// non-blocking dispatch and one non-blocking poll per worker, one
    /// best-effort hand-off to the uploader.
    ///
    /// Pulls the newest frame from the source; with no new frame the tick
    /// is over and every worker, the stored results, the uploader and the
    /// displayed frame are untouched. With a frame: every idle worker gets
    /// a copy (busy ones are skipped, not queued behind — see
    /// [`serviced`]), ready responses replace their own slot's result and
    /// no other's, and the frame goes to the uploader and on display. A
    /// failed source simply yields no frames; the tick keeps running.
    pub fn tick(&mut self, source: &mut FrameSource) -> (advanced: bool)
        requires
            old(self).wf(),
            old(source).wf(),
        ensures
            final(self).wf(),
            final(source).wf(),
            final(source).frames().len() == 0,
            final(source).failed() == old(source).failed(),
            final(source).error_message() == old(source).error_message(),
            final(self).worker_count() == old(self).worker_count(),
            advanced == (old(source).frames().len() > 0),
            !advanced ==> {
                &&& final(self).slots() == old(self).slots()
                &&& final(self).current_frame() == old(self).current_frame()
                &&& final(self).uploader_state() == old(self).uploader_state()
                &&& final(self).uploader_accepted() == old(self).uploader_accepted()
            },
            advanced ==> {
                &&& final(self).current_frame() matches Some(f) && f@ == old(
                    source,
                ).frames().last()
                &&& (old(self).uploader_state() is Pending ==> final(self).uploader_accepted()
                    == old(self).uploader_accepted())
                &&& (old(self).uploader_state() is Idle && old(self).uploader_connected() ==> (
                final(self).uploader_accepted() == old(self).uploader_accepted() + 1
                    || !final(self).uploader_connected()))
                &&& final(self).uploader_accepted() <= old(self).uploader_accepted() + 1
            },
            final(self).uploader_completed() == old(self).uploader_completed(),
            advanced ==> forall|i: int|
                0 <= i < old(self).worker_count() ==> serviced(
                    old(self).slots()[i],
                    #[trigger] final(self).slots()[i],
                ),
    {
        let frame = match source.poll_latest() {
            Some(f) => f,
            None => {
                return false;
            },
        };
        let ghost slots_before = self.workers@;
        proof {
            assert forall|j: int| 0 <= j < self.workers@.len() implies (#[trigger] self.workers@[j]).wf() by {
                assert(old(self).slots()[j].wf());
            }
        }
        let mut serviced_slots: Vec<WorkerSlot> = Vec::new();
        while self.workers.len() > 0
            invariant
                serviced_slots@.len() + self.workers@.len() == slots_before.len(),
                self.workers@ =~= slots_before.skip(serviced_slots@.len() as int),
                forall|j: int|
                    0 <= j < serviced_slots@.len() ==> serviced(
                        slots_before[j],
                        #[trigger] serviced_slots@[j],
                    ),
                forall|j: int|
                    0 <= j < serviced_slots@.len() ==> (#[trigger] serviced_slots@[j]).wf(),
                forall|j: int| 0 <= j < self.workers@.len() ==> (#[trigger] self.workers@[j]).wf(),
                self.uploader.wf(),
                self.uploader == old(self).uploader,
                self.current == old(self).current,
            decreases self.workers@.len(),
        {
            let ghost k: int = serviced_slots@.len() as int;
            let mut slot = self.workers.remove(0);
            proof {
                assert(slots_before.skip(k).remove(0) =~= slots_before.skip(k + 1));
                assert(slot == slots_before[k]);
            }
            slot.service(&frame);
            serviced_slots.push(slot);
        }
        self.workers = serviced_slots;
        let _ = self.uploader.start_upload(&frame);
        self.current = Some(frame);
        true
    }
}

} // verus!
