//! The schedule builder: accumulates system registrations before the
//! orchestrator starts and compiles them, exactly once, into a schedule.
//!
//! Build-time validation is where write conflicts are caught: two systems
//! declaring write access to the same component type must never reach a
//! running schedule, so `build` refuses them instead of racing.

use vstd::prelude::*;

use crate::application::Application;
use crate::application::Phase;
use crate::application::Resources;
use crate::schedule::Schedule;
use crate::schedule::System;
use crate::schedule::conflict_free;
use crate::store::EntityShape;
use crate::store::World;

verus! {

/// Why `build` refused to produce an orchestrator.
#[derive(Clone, Copy, PartialEq, Eq, Structural, Debug)]
pub enum BuildError {
    /// This builder has already produced its orchestrator; it is single-use.
    AlreadyBuilt,
    /// Two registered systems declare write access to the carried component
    /// type; scheduling them could race.
    ScheduleConflict(u64),
}

/// Accumulates system registrations, then compiles them into a `Schedule`
/// owned by a fresh orchestrator.
///
/// Chosen policy: the builder is single-use. The first successful `build`
/// consumes it; later calls answer `AlreadyBuilt`. A refused build (a
/// conflict) does not consume it.
pub struct ApplicationBuilder {
    pub systems: Vec<System>,
    pub consumed: bool,
}

impl Default for ApplicationBuilder {
    /// A fresh builder with no registrations.
    fn default() -> (b: ApplicationBuilder)
        ensures
            b.systems@ == Seq::<System>::empty(),
            !b.consumed,
    {
        ApplicationBuilder { systems: Vec::new(), consumed: false }
    }
}

/// Scans the registrations for two systems writing one component type;
/// answers the first such type found, `None` exactly when the list is
/// conflict-free.
fn find_conflict(systems: &Vec<System>) -> (r: Option<u64>)
    ensures
        r is None <==> conflict_free(systems@),
        r matches Some(t) ==> exists|i: int, j: int|
            0 <= i < j < systems@.len() && systems@[i].writes == t && systems@[j].writes == t,
{
    let n = systems.len();
    let mut i: usize = 0;
    while i < n
        invariant
            n == systems.len(),
            0 <= i <= n,
            forall|p: int, q: int|
                0 <= p < q < n && p < i ==> systems@[p].writes != systems@[q].writes,
        decreases n - i,
    {
        let mut j = i + 1;
        while j < n
            invariant
                n == systems.len(),
                0 <= i < n,
                i < j <= n,
                forall|q: int| i < q < j ==> systems@[i as int].writes != systems@[q].writes,
            decreases n - j,
        {
            if systems[i].writes == systems[j].writes {
                return Some(systems[i].writes);
            }
            j += 1;
        }
        i += 1;
    }
    None
}

impl ApplicationBuilder {
    /// Appends one system to the registration list. May be called any number
    /// of times before `build`.
    pub fn add_system(&mut self, system: System)
        ensures
            final(self).systems@ == old(self).systems@.push(system),
            final(self).consumed == old(self).consumed,
    {
        self.systems.push(system);
    }

    /// Validates and compiles the registrations into a schedule, and returns
    /// a fresh orchestrator owning it together with an empty store and no
    /// session state.
    ///
    /// Succeeds exactly on the first call with a conflict-free registration
    /// list; a write conflict answers `ScheduleConflict` with the contested
    /// component type, and any call after a success answers `AlreadyBuilt`.
    pub fn build(&mut self) -> (r: Result<Application, BuildError>)
        ensures
            old(self).consumed ==> r == Err::<Application, BuildError>(BuildError::AlreadyBuilt)
                && *final(self) == *old(self),
            !old(self).consumed && !conflict_free(old(self).systems@) ==> {
                &&& *final(self) == *old(self)
                &&& r matches Err(e) && (e matches BuildError::ScheduleConflict(t)
                    && exists|i: int, j: int|
                    0 <= i < j < old(self).systems@.len() && old(self).systems@[i].writes == t
                        && old(self).systems@[j].writes == t)
            },
            !old(self).consumed && conflict_free(old(self).systems@) ==> {
                &&& final(self).consumed
                &&& final(self).systems@ == old(self).systems@
                &&& r matches Ok(app) && (app.phase == Phase::Uninitialized && app.data is None
                    && app.world@ == Seq::<EntityShape>::empty() && app.world.next_id == 0
                    && app.schedule@ == old(self).systems@ && app.wf())
            },
    {
        if self.consumed {
            return Err(BuildError::AlreadyBuilt);
        }
        match find_conflict(&self.systems) {
            Some(t) => Err(BuildError::ScheduleConflict(t)),
            None => {
                let n = self.systems.len();
                let mut list: Vec<System> = Vec::new();
                let mut k: usize = 0;
                proof {
                    assert(list@ =~= self.systems@.take(0));
                }
                while k < n
                    invariant
                        n == self.systems.len(),
                        0 <= k <= n,
                        list@ == self.systems@.take(k as int),
                        self == old(self),
                    decreases n - k,
                {
                    list.push(self.systems[k]);
                    proof {
                        assert(list@ =~= self.systems@.take(k as int + 1));
                    }
                    k += 1;
                }
                proof {
                    assert(self.systems@.take(n as int) =~= self.systems@);
                }
                self.consumed = true;
                Ok(
                    Application {
                        world: World::new(),
                        resources: Resources {  },
                        schedule: Schedule { systems: list },
                        phase: Phase::Uninitialized,
                        data: None,
                    },
                )
            },
        }
    }
}

} // verus!
