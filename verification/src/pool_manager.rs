use crate::pipeline::Pipeline;
use std::collections::HashMap;
use vstd::pervasive::unreached;
use vstd::prelude::*;

verus! {

broadcast use vstd::std_specs::hash::group_hash_axioms;

/// What registering a new pipeline decided: the generation the fresh
/// pipeline owns, and the superseded predecessor (cancelled) if the call
/// id already had a live entry.
pub struct StartOutcome {
    pub generation: u64,
    pub superseded: Option<Pipeline>,
}

/// Owner of the call-id → active-pipeline map, the global admission
/// counter, and the generation counter.
///
/// The surrounding executor performs the spawned stage work; every decision
/// that touches the shared map or the counters goes through these methods.
pub struct PoolManager {
    pub pipelines: HashMap<u64, Pipeline>,
    pub max_concurrent: usize,
    pub active: usize,
    pub gen_counter: u64,
}

impl PoolManager {
    /// The manager's invariant: admissions never exceed the cap, and every
    /// registered pipeline is keyed by its own call id and carries a
    /// generation the counter has already produced.
    pub open spec fn wf(&self) -> bool {
        &&& self.active <= self.max_concurrent
        &&& forall|id: u64| #[trigger] self.pipelines@.contains_key(id) ==> {
            &&& self.pipelines@[id].id == id
            &&& 1 <= self.pipelines@[id].generation <= self.gen_counter
        }
    }

    /// The live generation registered for each call id.
    pub open spec fn generations(&self) -> Map<u64, u64> {
        self.pipelines@.map_values(|p: Pipeline| p.generation)
    }

    pub fn new(max_concurrent: usize) -> (r: Self)
        ensures
            r.pipelines@ =~= Map::<u64, Pipeline>::empty(),
            r.max_concurrent == max_concurrent,
            r.active == 0,
            r.gen_counter == 0,
            r.wf(),
    {
        PoolManager {
            pipelines: HashMap::new(),
            max_concurrent,
            active: 0,
            gen_counter: 0,
        }
    }

    /// Registers a fresh pipeline for `id` under the next generation,
    /// preempting (cancelling and removing) whatever pipeline the id had:
    /// the barge-in path. The map is left holding exactly the fresh entry
    /// for this id.
    pub fn start_pipeline(&mut self, id: u64, utterance: Vec<i16>) -> (r: StartOutcome)
        requires
            old(self).wf(),
            old(self).gen_counter < u64::MAX,
        ensures
            final(self).wf(),
            r.generation == old(self).gen_counter + 1,
            final(self).gen_counter == r.generation,
            final(self).max_concurrent == old(self).max_concurrent,
            final(self).active == old(self).active,
            final(self).pipelines@.contains_key(id),
            ({
                let p = final(self).pipelines@[id];
                &&& p.id == id
                &&& p.generation == r.generation
                &&& !p.cancelled
                &&& p.status is Pending
                &&& p.stage is Transcribe
                &&& p.utterance == utterance
                &&& p.transcripted@ =~= Seq::<crate::history_event::HistoryEventPayload>::empty()
            }),
            final(self).pipelines@ == old(self).pipelines@.insert(id, final(self).pipelines@[id]),
            final(self).generations() == old(self).generations().insert(id, r.generation),
            r.superseded is Some <==> old(self).pipelines@.contains_key(id),
            r.superseded matches Some(p) ==> p == (Pipeline {
                cancelled: true,
                ..old(self).pipelines@[id]
            }),
    {
        self.gen_counter = self.gen_counter + 1;
        let generation = self.gen_counter;

        let superseded = match self.pipelines.remove(&id) {
            Option::Some(mut prev) => {
                prev.cancel();
                Option::Some(prev)
            },
            Option::None => Option::None,
        };

        let pipeline = Pipeline::new(id, generation, utterance);
        self.pipelines.insert(id, pipeline);

        proof {
            assert(self.pipelines@ =~= old(self).pipelines@.insert(id, self.pipelines@[id]));
            assert(self.pipelines@.map_values(|p: Pipeline| p.generation) =~= old(
                self,
            ).pipelines@.map_values(|p: Pipeline| p.generation).insert(id, generation));
        }
        StartOutcome { generation, superseded }
    }

    /// Removes and cancels the entry for `id` if present; a no-op
    /// otherwise.
    pub fn stop_pipeline(&mut self, id: u64) -> (r: Option<Pipeline>)
        requires
            old(self).wf(),
        ensures
            final(self).wf(),
            final(self).pipelines@ == old(self).pipelines@.remove(id),
            final(self).max_concurrent == old(self).max_concurrent,
            final(self).active == old(self).active,
            final(self).gen_counter == old(self).gen_counter,
            r is Some <==> old(self).pipelines@.contains_key(id),
            r matches Some(p) ==> p == (Pipeline { cancelled: true, ..old(self).pipelines@[id] }),
    {
        let r = match self.pipelines.remove(&id) {
            Option::Some(mut prev) => {
                prev.cancel();
                Option::Some(prev)
            },
            Option::None => Option::None,
        };
        proof {
            assert(self.pipelines@ =~= old(self).pipelines@.remove(id));
        }
        r
    }

    /// Clears the map entry a finishing pipeline owns — and only that one.
    /// A superseded pipeline finishing late presents a stale generation and
    /// must not evict the newer entry that preempted it; this check is the
    /// race-safety invariant of the manager.
    pub fn finalize_pipeline(&mut self, id: u64, generation: u64) -> (removed: bool)
        requires
            old(self).wf(),
        ensures
            final(self).wf(),
            removed <==> (old(self).pipelines@.contains_key(id) && old(
                self,
            ).pipelines@[id].generation == generation),
            removed ==> final(self).pipelines@ == old(self).pipelines@.remove(id),
            !removed ==> final(self).pipelines@ == old(self).pipelines@,
            final(self).max_concurrent == old(self).max_concurrent,
            final(self).active == old(self).active,
            final(self).gen_counter == old(self).gen_counter,
    {
        let current_gen: Option<u64> = match self.pipelines.get(&id) {
            Option::Some(entry) => Option::Some(entry.generation),
            Option::None => Option::None,
        };
        match current_gen {
            Option::Some(g) => {
                if g == generation {
                    self.pipelines.remove(&id);
                    proof {
                        assert(self.pipelines@ =~= old(self).pipelines@.remove(id));
                    }
                    true
                } else {
                    false
                }
            },
            Option::None => false,
        }
    }

    /// Confirms end-of-turn playback for `id`: hands back copies of the
    /// transcript fragments the live pipeline has produced and moves its
    /// status to `CanSendAudio`. A no-op returning `None` when the id has
    /// no live pipeline.
    pub fn allow_playback(&mut self, id: u64) -> (transcript: Option<
        Vec<crate::history_event::HistoryEventPayload>,
    >)
        requires
            old(self).wf(),
        ensures
            final(self).wf(),
            transcript is Some <==> old(self).pipelines@.contains_key(id),
            transcript matches Some(t) ==> {
                &&& final(self).pipelines@ == old(self).pipelines@.insert(
                    id,
                    (Pipeline {
                        status: crate::pipeline::PipelineStatus::CanSendAudio,
                        ..old(self).pipelines@[id]
                    }),
                )
                &&& t@.len() == old(self).pipelines@[id].transcripted@.len()
                &&& forall|i: int| 0 <= i < t@.len() ==> crate::history_event::payload_like(
                    #[trigger] t@[i],
                    old(self).pipelines@[id].transcripted@[i],
                )
            },
            transcript is None ==> final(self).pipelines@ == old(self).pipelines@,
            final(self).max_concurrent == old(self).max_concurrent,
            final(self).active == old(self).active,
            final(self).gen_counter == old(self).gen_counter,
    {
        match self.pipelines.remove(&id) {
            Option::Some(mut p) => {
                let t = crate::history_event::clone_payloads(&p.transcripted);
                p.set_status(crate::pipeline::PipelineStatus::CanSendAudio);
                self.pipelines.insert(id, p);
                proof {
                    assert(self.pipelines@ =~= old(self).pipelines@.insert(
                        id,
                        (Pipeline {
                            status: crate::pipeline::PipelineStatus::CanSendAudio,
                            ..old(self).pipelines@[id]
                        }),
                    ));
                }
                Option::Some(t)
            },
            Option::None => Option::None,
        }
    }

    /// Atomically drains the whole map for clean termination, handing
    /// back every live pipeline with its cancellation flag set: no
    /// pipeline present at entry escapes both removal and cancellation.
    pub fn shutdown(&mut self) -> (drained: Vec<Pipeline>)
        requires
            old(self).wf(),
        ensures
            final(self).wf(),
            final(self).pipelines@ =~= Map::<u64, Pipeline>::empty(),
            drained@.len() == old(self).pipelines@.dom().len(),
            forall|i: int| 0 <= i < drained@.len() ==> {
                &&& old(self).pipelines@.contains_key((#[trigger] drained@[i]).id)
                &&& drained@[i] == (Pipeline {
                    cancelled: true,
                    ..old(self).pipelines@[drained@[i].id]
                })
            },
            forall|id: u64| #[trigger] old(self).pipelines@.contains_key(id) ==> exists|i: int|
                0 <= i < drained@.len() && drained@[i].id == id,
            final(self).max_concurrent == old(self).max_concurrent,
            final(self).active == old(self).active,
            final(self).gen_counter == old(self).gen_counter,
    {
        let mut map: HashMap<u64, Pipeline> = HashMap::new();
        core::mem::swap(&mut self.pipelines, &mut map);
        let ghost m0 = map@;

        let mut ids: Vec<u64> = Vec::new();
        for k in it: map.keys()
            invariant
                it.seq().unref().no_duplicates(),
                it.seq().unref().to_set() == m0.dom(),
                it.seq().len() == m0.dom().len(),
                ids@ =~= it.seq().unref().take(it.index()),
                it.index() == it.seq().len() ==> ids@ =~= it.seq().unref(),
        {
            ids.push(*k);
        }
        proof {
            assert(ids@.no_duplicates());
            assert(ids@.to_set() == m0.dom());
            assert(ids@.len() == m0.dom().len());
        }

        let mut drained: Vec<Pipeline> = Vec::new();
        let mut i: usize = 0;
        while i < ids.len()
            invariant
                ids@.no_duplicates(),
                ids@.to_set() == m0.dom(),
                ids@.len() == m0.dom().len(),
                i <= ids@.len(),
                drained@.len() == i,
                forall|j: int| 0 <= j < i ==> {
                    &&& m0.contains_key(#[trigger] ids@[j])
                    &&& drained@[j] == (Pipeline { cancelled: true, ..m0[ids@[j]] })
                },
                forall|j: int| i <= j < ids@.len() ==> map@.contains_key(#[trigger] ids@[j])
                    && map@[ids@[j]] == m0[ids@[j]],
            decreases ids@.len() - i,
        {
            let id = ids[i];
            let mut p = match map.remove(&id) {
                Option::Some(p) => p,
                Option::None => unreached(),
            };
            p.cancel();
            drained.push(p);
            i += 1;
        }

        proof {
            assert forall|i: int| 0 <= i < drained@.len() implies {
                &&& old(self).pipelines@.contains_key((#[trigger] drained@[i]).id)
                &&& drained@[i] == (Pipeline {
                    cancelled: true,
                    ..old(self).pipelines@[drained@[i].id]
                })
            } by {
                assert(m0.contains_key(ids@[i]));
                assert(m0[ids@[i]].id == ids@[i]);
                assert(drained@[i].id == ids@[i]);
            }
            assert forall|id: u64| old(self).pipelines@.contains_key(id) implies exists|j: int|
                0 <= j < drained@.len() && drained@[j].id == id by {
                assert(ids@.to_set().contains(id));
                let j = choose|j: int| 0 <= j < ids@.len() && ids@[j] == id;
                assert(drained@[j].id == id);
            }
        }
        drained
    }

    /// Takes one unit of the global admission cap if any is free. A
    /// pipeline performs stage work only between a successful admission
    /// and the matching release, so admissions past the cap never exist.
    pub fn try_admit(&mut self) -> (admitted: bool)
        requires
            old(self).wf(),
        ensures
            final(self).wf(),
            admitted <==> old(self).active < old(self).max_concurrent,
            admitted ==> final(self).active == old(self).active + 1,
            !admitted ==> final(self).active == old(self).active,
            final(self).active <= final(self).max_concurrent,
            final(self).pipelines@ == old(self).pipelines@,
            final(self).max_concurrent == old(self).max_concurrent,
            final(self).gen_counter == old(self).gen_counter,
    {
        if self.active < self.max_concurrent {
            self.active = self.active + 1;
            true
        } else {
            false
        }
    }

    /// Returns one admission unit when a pipeline finishes its stage work.
    pub fn release_permit(&mut self)
        requires
            old(self).wf(),
        ensures
            final(self).wf(),
            old(self).active > 0 ==> final(self).active == old(self).active - 1,
            old(self).active == 0 ==> final(self).active == 0,
            final(self).active <= final(self).max_concurrent,
            final(self).pipelines@ == old(self).pipelines@,
            final(self).max_concurrent == old(self).max_concurrent,
            final(self).gen_counter == old(self).gen_counter,
    {
        if self.active > 0 {
            self.active = self.active - 1;
        }
    }
}

/// The generations view after `n` successive starts for one call id, with
/// the number of supersession cancellations they observed. This is the
/// transition `start_pipeline` is proven to implement on the
/// `generations` view, iterated.
pub open spec fn spec_start_gens(m: Map<u64, u64>, counter: int, id: u64, n: nat) -> (
    Map<u64, u64>,
    int,
    int,
)
    decreases n,
{
    if n == 0 {
        (m, counter, 0)
    } else {
        let prev = spec_start_gens(m, counter, id, (n - 1) as nat);
        (
            prev.0.insert(id, (prev.1 + 1) as u64),
            prev.1 + 1,
            prev.2 + if prev.0.contains_key(id) {
                1int
            } else {
                0int
            },
        )
    }
}

/// Starting `n` pipelines in quick succession for one call id leaves
/// exactly one live entry for that id — carrying the newest generation —
/// and observes exactly `n − 1` cancellations.
pub proof fn lemma_restart_supersession(m: Map<u64, u64>, counter: int, id: u64, n: nat)
    requires
        !m.contains_key(id),
        n >= 1,
        0 <= counter,
        counter + n <= u64::MAX,
    ensures
        spec_start_gens(m, counter, id, n).0 =~= m.insert(id, (counter + n) as u64),
        spec_start_gens(m, counter, id, n).1 == counter + n,
        spec_start_gens(m, counter, id, n).2 == n - 1,
    decreases n,
{
    if n == 1 {
        assert(spec_start_gens(m, counter, id, 0) == (m, counter, 0int));
    } else {
        lemma_restart_supersession(m, counter, id, (n - 1) as nat);
        let prev = spec_start_gens(m, counter, id, (n - 1) as nat);
        assert(prev.0.contains_key(id));
        assert(spec_start_gens(m, counter, id, n).0 =~= m.insert(id, (counter + n) as u64));
    }
}

/// One admission-counter transition: a successful acquire takes a unit
/// only below the cap; a release returns one if any is held.
pub open spec fn spec_admission_step(active: int, cap: int, acquire: bool) -> int {
    if acquire {
        if active < cap {
            active + 1
        } else {
            active
        }
    } else {
        if active > 0 {
            active - 1
        } else {
            0
        }
    }
}

/// The admission counter after a sequence of acquire/release attempts.
pub open spec fn spec_admissions(ops: Seq<bool>, cap: int) -> int
    decreases ops.len(),
{
    if ops.len() == 0 {
        0
    } else {
        spec_admission_step(spec_admissions(ops.drop_last(), cap), cap, ops.last())
    }
}

/// The global admission cap is never exceeded: whatever sequence of
/// acquire and release attempts arrives, at most `cap` pipelines are ever
/// between admission and completion. This is the transition `try_admit`
/// and `release_permit` are proven to implement on the `active` counter.
pub proof fn lemma_admission_cap_never_exceeded(ops: Seq<bool>, cap: int)
    requires
        cap >= 0,
    ensures
        0 <= spec_admissions(ops, cap) <= cap,
    decreases ops.len(),
{
    if ops.len() > 0 {
        lemma_admission_cap_never_exceeded(ops.drop_last(), cap);
    }
}

} // verus!
