//! Which nodes have a peak-metering capture stream, and what to do when a
//! node's capture eligibility changes.
//!
//! The set of capturing nodes is held as a vector without repeats. Starting
//! and stopping the streams is done outside the library; here are the
//! decisions, as actions.

use vstd::prelude::*;

use crate::view::contains_id;
use crate::wirehose::object_id::ObjectId;

verus! {

/// A change in whether a node's peaks can be captured.
#[derive(Debug, Clone, Copy, PartialEq, Eq, Structural)]
pub enum CaptureEligibility {
    Eligible(ObjectId),
    NeedsRestart(ObjectId),
    Ineligible(ObjectId),
}

/// What the node needs for a capture stream: its serial, and whether its
/// media class is a sink or a source.
#[derive(Debug, Clone, Copy, PartialEq, Eq, Structural)]
pub struct CaptureTarget {
    pub serial: u64,
    pub capture_sink: bool,
}

/// What to do about capture streams.
#[derive(Debug, Clone, Copy, PartialEq, Eq, Structural)]
pub enum CaptureAction {
    Nothing,
    Start(ObjectId, CaptureTarget),
    Stop(ObjectId),
}

/// The nodes with a capture stream.
#[derive(Debug)]
pub struct Capturing {
    pub ids: Vec<ObjectId>,
}

/// No node occurs twice.
pub open spec fn no_repeats(s: Seq<ObjectId>) -> bool {
    forall|i: int, j: int| 0 <= i < s.len() && 0 <= j < s.len() && i != j ==> s[i] != s[j]
}

impl Capturing {
    /// The capturing nodes as a set.
    pub open spec fn set(&self) -> Set<ObjectId> {
        self.ids@.to_set()
    }

    /// The set holds no node twice.
    pub open spec fn wf(&self) -> bool {
        no_repeats(self.ids@)
    }

    /// No node is capturing.
    pub fn new() -> (r: Capturing)
        ensures
            r.wf(),
            r.set() == Set::<ObjectId>::empty(),
    {
        let r = Capturing { ids: Vec::new() };
        assert(r.ids@.to_set() =~= Set::<ObjectId>::empty());
        r
    }

    /// Whether node `id` is capturing.
    pub fn contains(&self, id: ObjectId) -> (r: bool)
        ensures
            r == self.set().contains(id),
    {
        let r = contains_id(&self.ids, id);
        proof {
            if self.set().contains(id) {
                assert(self.ids@.contains(id));
            }
        }
        r
    }

    fn insert(&mut self, id: ObjectId)
        requires
            old(self).wf(),
        ensures
            final(self).wf(),
            final(self).set() == old(self).set().insert(id),
    {
        if !contains_id(&self.ids, id) {
            let ghost before = self.ids@;
            self.ids.push(id);
            proof {
                assert forall|i: int, j: int| 0 <= i < self.ids@.len() && 0 <= j < self.ids@.len() && i != j implies self.ids@[i] != self.ids@[j] by {
                    if i < before.len() && j < before.len() {
                        assert(before[i] != before[j]);
                    } else if i == before.len() {
                        assert(self.ids@[j] == before[j]);
                    } else {
                        assert(self.ids@[i] == before[i]);
                    }
                }
                assert(self.ids@.to_set() =~= before.to_set().insert(id)) by {
                    assert forall|x: ObjectId| self.ids@.contains(x) <==> before.contains(x) || x == id by {
                        if self.ids@.contains(x) {
                            let k = choose|k: int| 0 <= k < self.ids@.len() && self.ids@[k] == x;
                            if k < before.len() {
                                assert(before[k] == x);
                            }
                        }
                        if before.contains(x) {
                            let k = choose|k: int| 0 <= k < before.len() && before[k] == x;
                            assert(self.ids@[k] == x);
                        }
                        if x == id {
                            assert(self.ids@[before.len() as int] == x);
                        }
                    }
                }
            }
        } else {
            assert(self.ids@.to_set() =~= self.ids@.to_set().insert(id));
        }
    }

    /// Removes `id`; returns whether it was capturing.
    fn remove(&mut self, id: ObjectId) -> (r: bool)
        requires
            old(self).wf(),
        ensures
            final(self).wf(),
            r == old(self).set().contains(id),
            final(self).set() == old(self).set().remove(id),
    {
        let ghost before = self.ids@;
        let mut i: usize = 0;
        while i < self.ids.len()
            invariant
                self.ids@ == before,
                old(self).ids@ == before,
                no_repeats(before),
                i <= before.len(),
                forall|j: int| 0 <= j < i ==> before[j] != id,
            decreases before.len() - i,
        {
            if self.ids[i] == id {
                self.ids.remove(i);
                proof {
                    assert(self.ids@ =~= before.remove(i as int));
                    assert forall|a: int, b: int| 0 <= a < self.ids@.len() && 0 <= b < self.ids@.len() && a != b implies self.ids@[a] != self.ids@[b] by {
                        let sa = if a < i { a } else { a + 1 };
                        let sb = if b < i { b } else { b + 1 };
                        assert(self.ids@[a] == before[sa]);
                        assert(self.ids@[b] == before[sb]);
                    }
                    assert(self.ids@.to_set() =~= before.to_set().remove(id)) by {
                        assert forall|x: ObjectId| self.ids@.contains(x) <==> (before.contains(x) && x != id) by {
                            if self.ids@.contains(x) {
                                let k = choose|k: int| 0 <= k < self.ids@.len() && self.ids@[k] == x;
                                let sk = if k < i { k } else { k + 1 };
                                assert(before[sk] == x);
                                assert(sk != i);
                            }
                            if before.contains(x) && x != id {
                                let k = choose|k: int| 0 <= k < before.len() && before[k] == x;
                                assert(k != i);
                                if k < i {
                                    assert(self.ids@[k] == x);
                                } else {
                                    assert(self.ids@[k - 1] == x);
                                }
                            }
                        }
                    }
                    assert(before.contains(id)) by {
                        assert(before[i as int] == id);
                    }
                }
                return true;
            }
            i += 1;
        }
        proof {
            assert(!before.contains(id));
            assert(before.to_set() =~= before.to_set().remove(id));
        }
        false
    }
}

/// What starting a capture for `id` does: nothing when metering is off,
/// nothing when the node already captures and no restart is forced, nothing
/// when the node cannot be captured; otherwise the node joins the set and
/// its stream is started.
pub open spec fn start_capture_v(capturing: Set<ObjectId>, peaks_on: bool, id: ObjectId, force: bool, target: Option<CaptureTarget>) -> (Set<ObjectId>, CaptureAction) {
    if !peaks_on || (!force && capturing.contains(id)) || target is None {
        (capturing, CaptureAction::Nothing)
    } else {
        (capturing.insert(id), CaptureAction::Start(id, target->0))
    }
}

/// What an eligibility change does: an eligible node starts capturing, a
/// node that needs a restart starts again, and an ineligible node that was
/// capturing stops.
pub open spec fn handle_eligibility_v(capturing: Set<ObjectId>, peaks_on: bool, e: CaptureEligibility, target: Option<CaptureTarget>) -> (Set<ObjectId>, CaptureAction) {
    match e {
        CaptureEligibility::Eligible(id) => start_capture_v(capturing, peaks_on, id, false, target),
        CaptureEligibility::NeedsRestart(id) => start_capture_v(capturing, peaks_on, id, true, target),
        CaptureEligibility::Ineligible(id) => if capturing.contains(id) {
            (capturing.remove(id), CaptureAction::Stop(id))
        } else {
            (capturing, CaptureAction::Nothing)
        },
    }
}

impl Capturing {
    /// Start (or, when `force`, restart) a capture stream for `id`, whose
    /// capture details are `target` when the node can be captured.
    pub fn start_capture(&mut self, peaks_on: bool, id: ObjectId, force: bool, target: Option<CaptureTarget>) -> (r: CaptureAction)
        requires
            old(self).wf(),
        ensures
            final(self).wf(),
            (final(self).set(), r) == start_capture_v(old(self).set(), peaks_on, id, force, target),
    {
        if !peaks_on {
            return CaptureAction::Nothing;
        }
        if !force && self.contains(id) {
            return CaptureAction::Nothing;
        }
        match target {
            Some(t) => {
                self.insert(id);
                CaptureAction::Start(id, t)
            },
            None => CaptureAction::Nothing,
        }
    }

    /// Act on a change of capture eligibility.
    pub fn handle_eligibility(&mut self, peaks_on: bool, eligibility: CaptureEligibility, target: Option<CaptureTarget>) -> (r: CaptureAction)
        requires
            old(self).wf(),
        ensures
            final(self).wf(),
            (final(self).set(), r) == handle_eligibility_v(old(self).set(), peaks_on, eligibility, target),
    {
        match eligibility {
            CaptureEligibility::Eligible(id) => self.start_capture(peaks_on, id, false, target),
            CaptureEligibility::NeedsRestart(id) => self.start_capture(peaks_on, id, true, target),
            CaptureEligibility::Ineligible(id) => {
                if self.remove(id) {
                    CaptureAction::Stop(id)
                } else {
                    CaptureAction::Nothing
                }
            },
        }
    }
}

/// Capture laws: a started node is capturing and a stopped node is not; a
/// stop is only ever issued for a node that was capturing; and a node that
/// already captures is started again only on a forced restart.
pub proof fn capture_laws(capturing: Set<ObjectId>, peaks_on: bool, e: CaptureEligibility, target: Option<CaptureTarget>)
    ensures
        ({
            let (after, action) = handle_eligibility_v(capturing, peaks_on, e, target);
            &&& action matches CaptureAction::Start(id, _) ==> after.contains(id)
            &&& action matches CaptureAction::Stop(id) ==> capturing.contains(id) && !after.contains(id)
            &&& (e matches CaptureEligibility::Eligible(id) && capturing.contains(id)) ==> action == CaptureAction::Nothing
            &&& action == CaptureAction::Nothing ==> after == capturing
        }),
{
}

} // verus!
