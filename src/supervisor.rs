//! The supervisor's bookkeeping: one loop per configured service, each fed
//! only its own events.
use vstd::prelude::*;
use crate::config::{Config, GlobalSettings, ServiceConfig};
use crate::text::{chars_of, matches_at, same_chars, starts_with};
use crate::reconcile::{next, Event, LoopError, LoopSettings, Phase, ReconcileState, Transition};

verus! {

/// One service's loop.
#[derive(Debug, Clone)]
pub struct ServiceLoop {
    pub name: String,
    pub settings: LoopSettings,
    pub state: ReconcileState,
}

/// The loops of a run, in the order of the configuration.
#[derive(Debug, Clone)]
pub struct Supervisor {
    pub loops: Vec<ServiceLoop>,
}

/// Why a run does not start.
#[derive(Debug, Clone, Copy, PartialEq, Eq)]
pub enum SupervisorError {
    /// The service at this index has unusable settings.
    Settings(usize, LoopError),
    /// The service at this index has the name of an earlier one.
    DuplicateName(usize),
    /// The worktree of the service at this index overlaps an earlier one's.
    OverlappingPath(usize),
}

pub open spec fn loop_names(loops: Seq<ServiceLoop>) -> Seq<Seq<char>> {
    loops.map_values(|l: ServiceLoop| l.name@)
}

pub open spec fn service_names(services: Seq<ServiceConfig>) -> Seq<Seq<char>> {
    services.map_values(|s: ServiceConfig| s.name@)
}

/// The names of the loops that have not aborted, in order.
pub open spec fn running_names(loops: Seq<ServiceLoop>) -> Seq<Seq<char>>
    decreases loops.len(),
{
    if loops.len() == 0 {
        Seq::empty()
    } else if loops.last().state.phase != Phase::Aborted {
        running_names(loops.drop_last()).push(loops.last().name@)
    } else {
        running_names(loops.drop_last())
    }
}

/// No two services share a name.
pub open spec fn unique_names(services: Seq<ServiceConfig>) -> bool {
    forall|i: int, j: int|
        0 <= i < j < services.len() ==> (#[trigger] services[i]).name@ != (#[trigger] services[j]).name@
}

/// Two worktree paths overlap: they are equal, or one lies under the other.
pub open spec fn paths_overlap(a: Seq<char>, b: Seq<char>) -> bool {
    a == b || starts_with(b, a + "/"@) || starts_with(a, b + "/"@)
}

/// No two services share a worktree.
pub open spec fn disjoint_paths(services: Seq<ServiceConfig>) -> bool {
    forall|i: int, j: int|
        0 <= i < j < services.len() ==> !paths_overlap(
            (#[trigger] services[i]).local_path@,
            (#[trigger] services[j]).local_path@,
        )
}

fn under(a: &[char], b: &[char]) -> (r: bool)
    ensures
        r == starts_with(b@, a@ + "/"@),
{
    let mut prefix: Vec<char> = Vec::new();
    let mut i: usize = 0;
    while i < a.len()
        invariant
            i <= a@.len(),
            prefix@ == a@.subrange(0, i as int),
        decreases a@.len() - i,
    {
        prefix.push(a[i]);
        i += 1;
        assert(prefix@ =~= a@.subrange(0, i as int));
    }
    prefix.push('/');
    proof {
        reveal_strlit("/");
        assert(prefix@ =~= a@ + "/"@);
    }
    matches_at(b, prefix.as_slice(), 0)
}

fn overlap(a: &str, b: &str) -> (r: bool)
    ensures
        r == paths_overlap(a@, b@),
{
    let x = chars_of(a);
    let y = chars_of(b);
    same_chars(x.as_slice(), y.as_slice()) || under(x.as_slice(), y.as_slice()) || under(
        y.as_slice(),
        x.as_slice(),
    )
}

/// The first index whose service cannot run, with the reason, if any.
pub open spec fn settings_ok(services: Seq<ServiceConfig>, global: GlobalSettings) -> bool {
    forall|i: int|
        0 <= i < services.len() ==> #[trigger] LoopSettings::spec_for_service(services[i], global) is Ok
}

impl Supervisor {
    /// One fresh loop per service, in order; refused when a service's settings
    /// are unusable or a name repeats.
    pub fn start(config: &Config) -> (r: Result<Supervisor, SupervisorError>)
        ensures
            r is Ok <==> settings_ok(config.services@, config.global_settings) && unique_names(
                config.services@,
            ) && disjoint_paths(config.services@),
            r is Ok ==> loop_names(r->Ok_0.loops@) == service_names(config.services@),
            r is Ok ==> forall|i: int|
                0 <= i < r->Ok_0.loops@.len() ==> (#[trigger] r->Ok_0.loops@[i]).state.phase
                    == Phase::Init && Ok::<LoopSettings, LoopError>(r->Ok_0.loops@[i].settings)
                    == LoopSettings::spec_for_service(
                    config.services@[i],
                    config.global_settings,
                ),
    {
        let n = config.services.len();
        let mut loops: Vec<ServiceLoop> = Vec::new();
        let mut i: usize = 0;
        while i < n
            invariant
                i <= n,
                n == config.services@.len(),
                loops@.len() == i,
                forall|k: int|
                    0 <= k < i ==> #[trigger] LoopSettings::spec_for_service(
                        config.services@[k],
                        config.global_settings,
                    ) is Ok,
                forall|a: int, b: int|
                    0 <= a < b < i ==> (#[trigger] config.services@[a]).name@ != (
                    #[trigger] config.services@[b]).name@,
                forall|a: int, b: int|
                    0 <= a < b < i ==> !paths_overlap(
                        (#[trigger] config.services@[a]).local_path@,
                        (#[trigger] config.services@[b]).local_path@,
                    ),
                forall|k: int|
                    0 <= k < i ==> (#[trigger] loops@[k]).name@ == config.services@[k].name@
                        && loops@[k].state.phase == Phase::Init && Ok::<LoopSettings, LoopError>(
                        loops@[k].settings,
                    ) == LoopSettings::spec_for_service(
                        config.services@[k],
                        config.global_settings,
                    ),
            decreases n - i,
        {
            let service = &config.services[i];
            let settings = match LoopSettings::for_service(service, &config.global_settings) {
                Ok(s) => s,
                Err(e) => {
                    return Err(SupervisorError::Settings(i, e));
                },
            };
            let mut j: usize = 0;
            while j < i
                invariant
                    j <= i < n,
                    n == config.services@.len(),
                    *service == config.services@[i as int],
                    forall|a: int| 0 <= a < j ==> config.services@[a].name@ != config.services@[i as int].name@,
                    forall|a: int|
                        0 <= a < j ==> !paths_overlap(
                            config.services@[a].local_path@,
                            config.services@[i as int].local_path@,
                        ),
                decreases i - j,
            {
                if config.services[j].name == service.name {
                    assert(config.services@[j as int].name@ == config.services@[i as int].name@);
                    assert(!unique_names(config.services@));
                    return Err(SupervisorError::DuplicateName(i));
                }
                if overlap(config.services[j].local_path.as_str(), service.local_path.as_str()) {
                    assert(!disjoint_paths(config.services@));
                    return Err(SupervisorError::OverlappingPath(i));
                }
                j += 1;
            }
            loops.push(
                ServiceLoop { name: service.name.clone(), settings, state: ReconcileState::new() },
            );
            i += 1;
        }
        let r = Supervisor { loops };
        assert(loop_names(r.loops@) =~= service_names(config.services@));
        Ok(r)
    }

    /// Feeds `event` to the loop at `idx`; every other loop stays as it was.
    pub fn deliver(&mut self, idx: usize, event: &Event) -> (r: Option<Transition>)
        requires
            idx < old(self).loops@.len(),
        ensures
            r == next(
                old(self).loops@[idx as int].settings,
                old(self).loops@[idx as int].state,
                *event,
            ),
            final(self).loops@.len() == old(self).loops@.len(),
            forall|j: int|
                0 <= j < old(self).loops@.len() && j != idx ==> #[trigger] final(self).loops@[j]
                    == old(self).loops@[j],
            final(self).loops@[idx as int].name == old(self).loops@[idx as int].name,
            final(self).loops@[idx as int].settings == old(self).loops@[idx as int].settings,
            final(self).loops@[idx as int].state == match r {
                Some(t) => t.state,
                None => old(self).loops@[idx as int].state,
            },
            loop_names(final(self).loops@) == loop_names(old(self).loops@),
    {
        let r = self.loops[idx].state.step(&self.loops[idx].settings, event);
        match &r {
            Some(t) => {
                let mut l = self.loops[idx].clone_loop();
                l.state = t.state.clone_state();
                self.loops.set(idx, l);
            },
            None => {},
        }
        assert(loop_names(self.loops@) =~= loop_names(old(self).loops@));
        r
    }

    /// The names of the loops that have not aborted, in order.
    pub fn running(&self) -> (r: Vec<String>)
        ensures
            r@.map_values(|s: String| s@) == running_names(self.loops@),
    {
        let mut r: Vec<String> = Vec::new();
        let mut i: usize = 0;
        while i < self.loops.len()
            invariant
                i <= self.loops@.len(),
                r@.map_values(|s: String| s@) == running_names(self.loops@.subrange(0, i as int)),
            decreases self.loops@.len() - i,
        {
            proof {
                assert(self.loops@.subrange(0, i + 1).drop_last() =~= self.loops@.subrange(0, i as int));
            }
            if self.loops[i].state.phase != Phase::Aborted {
                r.push(self.loops[i].name.clone());
            }
            i += 1;
            assert(r@.map_values(|s: String| s@) =~= running_names(self.loops@.subrange(0, i as int)));
        }
        assert(self.loops@.subrange(0, i as int) =~= self.loops@);
        r
    }
}

impl ServiceLoop {
    fn clone_loop(&self) -> (r: Self)
        ensures
            r == *self,
    {
        ServiceLoop { name: self.name.clone(), settings: self.settings, state: self.state.clone_state() }
    }
}

/// While no loop has aborted, the loops that run are exactly the configured
/// services, in order: the supervisor starts one per service, and feeding
/// events keeps the names.
pub proof fn lemma_running_loops_are_configured(
    loops: Seq<ServiceLoop>,
    services: Seq<ServiceConfig>,
)
    requires
        loop_names(loops) == service_names(services),
        forall|i: int| 0 <= i < loops.len() ==> (#[trigger] loops[i]).state.phase != Phase::Aborted,
    ensures
        running_names(loops) == service_names(services),
    decreases loops.len(),
{
    assert(loop_names(loops).len() == service_names(services).len());
    if loops.len() > 0 {
        let a = loops.drop_last();
        let b = services.drop_last();
        assert(loop_names(a) =~= loop_names(loops).drop_last());
        assert(service_names(b) =~= service_names(services).drop_last());
        assert forall|i: int| 0 <= i < a.len() implies (#[trigger] a[i]).state.phase != Phase::Aborted by {
            assert(a[i] == loops[i]);
        }
        lemma_running_loops_are_configured(a, b);
        assert(loops.last().state.phase != Phase::Aborted);
        assert(loop_names(loops)[loops.len() - 1] == service_names(services)[loops.len() - 1]);
        assert(running_names(loops) =~= service_names(services));
    } else {
        assert(running_names(loops) =~= service_names(services));
    }
}

} // verus!
