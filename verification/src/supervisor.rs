//! The supervisor's part: the plan of a task, one monitor and one channel
//! for each storefront and for each buyer the channel to listen to, and the
//! units made and wired by it.

use vstd::prelude::*;
use crate::endpoint::excuses;
use crate::endpoint::BaseUrl;
use crate::endpoint::Outcome;
use crate::error::Error;
use crate::model::Profile;
use crate::model::TaskConfig;
use crate::monitor::channel;
use crate::monitor::receiver_capacity;
use crate::monitor::receiver_channel;
use crate::monitor::sender_capacity;
use crate::monitor::sender_channel;
use crate::monitor::Monitor;
use crate::monitor::MonitorPhase;
use crate::monitor::CHANNEL_CAPACITY;
use crate::task::initial;
use crate::task::seed_generator;
use crate::task::Task;

verus! {

/// The plan for one task. `monitors` lists, for each storefront among the
/// task's profiles, the profile that names it first; a monitor and a channel
/// are made for each entry, in this order. `workers` gives, for each
/// profile, the position in `monitors` of the channel its worker listens
/// to.
#[derive(Debug, PartialEq)]
pub struct Plan {
    pub monitors: Vec<usize>,
    pub workers: Vec<usize>,
}

/// The storefront key of each profile's delivery address.
pub open spec fn storefronts(profiles: Seq<Profile>) -> Seq<Seq<char>> {
    Seq::new(profiles.len(), |i: int| profiles[i].delivery.country.key())
}

/// Whether no earlier entry has the key of entry `i`.
pub open spec fn names_first(keys: Seq<Seq<char>>, i: int) -> bool {
    forall|j: int| 0 <= j < i ==> (#[trigger] keys[j]) != keys[i]
}

/// Whether `monitors` holds, in rising order, exactly the entries that name
/// their storefront first.
pub open spec fn one_per_storefront(keys: Seq<Seq<char>>, monitors: Seq<usize>) -> bool {
    &&& forall|m: int|
        0 <= m < monitors.len() ==> (#[trigger] monitors[m]) < keys.len() && names_first(
            keys,
            monitors[m] as int,
        )
    &&& forall|m: int, n: int|
        0 <= m < n < monitors.len() ==> (#[trigger] monitors[m]) < (#[trigger] monitors[n])
    &&& forall|i: int|
        0 <= i < keys.len() && names_first(keys, i) ==> exists|m: int|
            0 <= m < monitors.len() && #[trigger] monitors[m] == i
}

/// Whether each worker listens to the channel of its own storefront.
pub open spec fn bound_to_own(keys: Seq<Seq<char>>, monitors: Seq<usize>, workers: Seq<usize>) -> bool {
    &&& workers.len() == keys.len()
    &&& forall|i: int|
        0 <= i < keys.len() ==> (#[trigger] workers[i]) < monitors.len() && monitors[workers[i] as int]
            < keys.len() && keys[monitors[workers[i] as int] as int] == keys[i]
}

/// Whether `monitors` and `workers` are the plan for profiles with these
/// storefront keys.
pub open spec fn is_plan(keys: Seq<Seq<char>>, monitors: Seq<usize>, workers: Seq<usize>) -> bool {
    one_per_storefront(keys, monitors) && bound_to_own(keys, monitors, workers)
}

/// The position in `monitors` of the storefront of `profiles[i]`, if a
/// monitor is planned for it.
fn find_monitor(profiles: &Vec<Profile>, monitors: &Vec<usize>, i: usize) -> (found: Option<usize>)
    requires
        i < profiles.len(),
        forall|m: int| 0 <= m < monitors.len() ==> (#[trigger] monitors[m]) < profiles.len(),
    ensures
        match found {
            Some(m) => m < monitors.len() && storefronts(profiles@)[monitors[m as int] as int]
                == storefronts(profiles@)[i as int],
            None => forall|m: int|
                0 <= m < monitors.len() ==> storefronts(profiles@)[(#[trigger] monitors[m]) as int]
                    != storefronts(profiles@)[i as int],
        },
{
    let mut m: usize = 0;
    while m < monitors.len()
        invariant
            m <= monitors.len(),
            i < profiles.len(),
            forall|k: int| 0 <= k < monitors.len() ==> (#[trigger] monitors[k]) < profiles.len(),
            forall|k: int|
                0 <= k < m ==> storefronts(profiles@)[(#[trigger] monitors[k]) as int]
                    != storefronts(profiles@)[i as int],
        decreases monitors.len() - m,
    {
        let first = monitors[m];
        if profiles[first].delivery.country.same_storefront(&profiles[i].delivery.country) {
            return Some(m);
        }
        m += 1;
    }
    None
}

/// Plans a task: a monitor for each storefront that its profiles deliver
/// to, and each worker bound to the monitor of its own storefront.
pub fn plan(task: &TaskConfig) -> (plan: Plan)
    ensures
        is_plan(storefronts(task.profiles@), plan.monitors@, plan.workers@),
{
    let profiles = &task.profiles;
    let ghost keys = storefronts(profiles@);
    let mut monitors: Vec<usize> = Vec::new();
    let mut workers: Vec<usize> = Vec::new();
    let mut i: usize = 0;
    while i < profiles.len()
        invariant
            i <= profiles.len(),
            keys == storefronts(profiles@),
            keys.len() == profiles.len(),
            workers.len() == i,
            forall|m: int|
                0 <= m < monitors.len() ==> (#[trigger] monitors[m]) < i && names_first(
                    keys,
                    monitors[m] as int,
                ),
            forall|m: int, n: int|
                0 <= m < n < monitors.len() ==> (#[trigger] monitors[m]) < (#[trigger] monitors[n]),
            forall|j: int|
                0 <= j < i && names_first(keys, j) ==> exists|m: int|
                    0 <= m < monitors.len() && #[trigger] monitors[m] == j,
            forall|j: int|
                0 <= j < i ==> (#[trigger] workers[j]) < monitors.len() && monitors[workers[j] as int]
                    < keys.len() && keys[monitors[workers[j] as int] as int] == keys[j],
        decreases profiles.len() - i,
    {
        let ghost before = monitors@;
        match find_monitor(profiles, &monitors, i) {
            Some(m) => {
                workers.push(m);
                proof {
                    assert(!names_first(keys, i as int)) by {
                        assert(monitors[m as int] < i);
                    }
                }
            },
            None => {
                proof {
                    assert(names_first(keys, i as int)) by {
                        assert forall|j: int| 0 <= j < i implies (#[trigger] keys[j]) != keys[i as int] by {
                            let m = workers[j] as int;
                            assert(keys[monitors[m] as int] == keys[j]);
                        }
                    }
                }
                workers.push(monitors.len());
                monitors.push(i);
                proof {
                    assert forall|j: int| 0 <= j <= i && names_first(keys, j) implies exists|
                        m: int,
                    |
                        0 <= m < monitors.len() && #[trigger] monitors[m] == j by {
                        if j < i {
                            let m = choose|m: int| 0 <= m < before.len() && #[trigger] before[m] == j;
                            assert(monitors[m] == j);
                        } else {
                            assert(monitors[before.len() as int] == i);
                        }
                    }
                    assert forall|m: int| 0 <= m < monitors.len() implies (#[trigger] monitors[m])
                        < i + 1 && names_first(keys, monitors[m] as int) by {
                        if m < before.len() {
                            assert(monitors[m] == before[m]);
                        }
                    }
                    assert forall|m: int, n: int| 0 <= m < n < monitors.len() implies (
                    #[trigger] monitors[m]) < (#[trigger] monitors[n]) by {
                        assert(monitors[m] == before[m]);
                        if n < before.len() {
                            assert(monitors[n] == before[n]);
                        }
                    }
                }
            },
        }
        proof {
            assert forall|j: int| 0 <= j < i + 1 implies (#[trigger] workers[j]) < monitors.len()
                && monitors[workers[j] as int] < keys.len() && keys[monitors[workers[j] as int] as int]
                == keys[j] by {
                if j < i {
                    let m = workers[j] as int;
                    assert(m < before.len());
                    assert(monitors[m] == before[m]);
                }
            }
            assert forall|j: int| 0 <= j < i + 1 && names_first(keys, j) implies exists|m: int|
                0 <= m < monitors.len() && #[trigger] monitors[m] == j by {
                if j < i {
                    let m = choose|m: int| 0 <= m < before.len() && #[trigger] before[m] == j;
                    assert(monitors[m] == j);
                }
            }
        }
        i += 1;
    }
    Plan { monitors, workers }
}

/// No two monitors of a plan poll the same storefront, every profile's
/// storefront has its monitor, and the monitor that a worker listens to is
/// the only one of its storefront.
pub proof fn law_one_channel_per_storefront(
    keys: Seq<Seq<char>>,
    monitors: Seq<usize>,
    workers: Seq<usize>,
)
    requires
        is_plan(keys, monitors, workers),
    ensures
        forall|m: int, n: int|
            0 <= m < n < monitors.len() ==> keys[(#[trigger] monitors[m]) as int] != keys[(
            #[trigger] monitors[n]) as int],
        forall|i: int, m: int|
            0 <= i < keys.len() && 0 <= m < monitors.len() && keys[(#[trigger] monitors[m]) as int]
                == keys[i] ==> (#[trigger] workers[i]) == m,
{
    assert forall|m: int, n: int| 0 <= m < n < monitors.len() implies keys[(
    #[trigger] monitors[m]) as int] != keys[(#[trigger] monitors[n]) as int] by {
        assert(names_first(keys, monitors[n] as int));
        assert(monitors[m] < monitors[n]);
    }
    assert forall|i: int, m: int|
        0 <= i < keys.len() && 0 <= m < monitors.len() && keys[(#[trigger] monitors[m]) as int]
            == keys[i] implies (#[trigger] workers[i]) == m by {
        let w = workers[i] as int;
        if w < m {
            assert(keys[monitors[w] as int] != keys[monitors[m] as int]);
        } else if m < w {
            assert(keys[monitors[m] as int] != keys[monitors[w] as int]);
        }
    }
}

/// A task has one plan only.
pub proof fn law_plan_is_unique(
    keys: Seq<Seq<char>>,
    monitors: Seq<usize>,
    workers: Seq<usize>,
    others: Seq<usize>,
    listeners: Seq<usize>,
)
    requires
        is_plan(keys, monitors, workers),
        is_plan(keys, others, listeners),
    ensures
        monitors == others,
        workers == listeners,
{
    lemma_same_monitors(keys, monitors, others);
    assert(monitors =~= others);
    law_one_channel_per_storefront(keys, monitors, workers);
    assert forall|i: int| 0 <= i < keys.len() implies workers[i] == listeners[i] by {
        let m = listeners[i] as int;
        assert(keys[others[m] as int] == keys[i]);
        assert(keys[monitors[m] as int] == keys[i]);
    }
    assert(workers =~= listeners);
}

proof fn lemma_same_monitors(keys: Seq<Seq<char>>, monitors: Seq<usize>, others: Seq<usize>)
    requires
        one_per_storefront(keys, monitors),
        one_per_storefront(keys, others),
    ensures
        monitors =~= others,
    decreases monitors.len() + others.len(),
{
    if monitors.len() == 0 {
        if others.len() > 0 {
            let i = others[0];
            assert(names_first(keys, i as int));
            let m = choose|m: int| 0 <= m < monitors.len() && #[trigger] monitors[m] == i;
        }
    } else if others.len() == 0 {
        let i = monitors[0];
        assert(names_first(keys, i as int));
        let m = choose|m: int| 0 <= m < others.len() && #[trigger] others[m] == i;
    } else {
        let a = monitors.last();
        let b = others.last();
        assert(names_first(keys, a as int));
        assert(names_first(keys, b as int));
        let ma = choose|m: int| 0 <= m < others.len() && #[trigger] others[m] == a;
        let mb = choose|m: int| 0 <= m < monitors.len() && #[trigger] monitors[m] == b;
        assert(a <= b) by {
            if ma < others.len() - 1 {
                assert(others[ma] < others[others.len() - 1]);
            }
        }
        assert(b <= a) by {
            if mb < monitors.len() - 1 {
                assert(monitors[mb] < monitors[monitors.len() - 1]);
            }
        }
        let short = keys.subrange(0, a as int);
        assert(one_per_storefront(short, monitors.drop_last())) by {
            lemma_drop_last_monitor(keys, monitors);
        }
        assert(one_per_storefront(short, others.drop_last())) by {
            lemma_drop_last_monitor(keys, others);
        }
        lemma_same_monitors(short, monitors.drop_last(), others.drop_last());
        assert(monitors =~= monitors.drop_last().push(a));
        assert(others =~= others.drop_last().push(b));
    }
}

proof fn lemma_drop_last_monitor(keys: Seq<Seq<char>>, monitors: Seq<usize>)
    requires
        one_per_storefront(keys, monitors),
        monitors.len() > 0,
    ensures
        one_per_storefront(keys.subrange(0, monitors.last() as int), monitors.drop_last()),
{
    let last = monitors.last();
    let short = keys.subrange(0, last as int);
    let rest = monitors.drop_last();
    assert forall|m: int| 0 <= m < rest.len() implies (#[trigger] rest[m]) < short.len()
        && names_first(short, rest[m] as int) by {
        assert(monitors[m] < monitors[monitors.len() - 1]);
        assert(names_first(keys, monitors[m] as int));
        assert forall|j: int| 0 <= j < rest[m] implies (#[trigger] short[j]) != short[rest[m] as int] by {
            assert(keys[j] != keys[rest[m] as int]);
        }
    }
    assert forall|m: int, n: int| 0 <= m < n < rest.len() implies (#[trigger] rest[m]) < (
    #[trigger] rest[n]) by {
        assert(monitors[m] < monitors[n]);
    }
    assert forall|i: int| 0 <= i < short.len() && names_first(short, i) implies exists|m: int|
        0 <= m < rest.len() && #[trigger] rest[m] == i by {
        assert(names_first(keys, i)) by {
            assert forall|j: int| 0 <= j < i implies (#[trigger] keys[j]) != keys[i] by {
                assert(short[j] != short[i]);
            }
        }
        let m = choose|m: int| 0 <= m < monitors.len() && #[trigger] monitors[m] == i;
        assert(m < monitors.len() - 1);
        assert(rest[m] == i);
    }
}

/// The units of one task, made and wired by its plan: a monitor with its
/// own channel for each entry of the plan's `monitors`, and for each
/// profile its worker, which listens on the channel that the plan gives
/// it.
#[derive(Debug)]
pub struct Assembly {
    pub plan: Plan,
    pub monitors: Vec<Monitor>,
    pub workers: Vec<Task>,
}

/// What the API root of a profile's storefront comes to.
pub open spec fn root_of(profile: Profile) -> Outcome {
    BaseUrl::parse_outcome(profile.delivery.country.base_url@)
}

/// Whether `assembly` holds the units of `task`: its plan; for each planned
/// monitor one that has not started, of the task's product in the
/// storefront of the profile that names it first, which publishes through
/// a channel of `CHANNEL_CAPACITY`; and for each profile a worker that has
/// not started, which listens on the channel through which the monitor
/// that the plan gives it publishes.
pub open spec fn is_assembly(assembly: Assembly, task: TaskConfig) -> bool {
    &&& is_plan(storefronts(task.profiles@), assembly.plan.monitors@, assembly.plan.workers@)
    &&& assembly.monitors@.len() == assembly.plan.monitors@.len()
    &&& forall|m: int|
        0 <= m < assembly.monitors@.len() ==> {
            &&& (#[trigger] assembly.monitors@[m]).product() == task.product@
            &&& assembly.monitors@[m].phase() == MonitorPhase::Idle
            &&& root_of(task.profiles@[assembly.plan.monitors@[m] as int]) == Outcome::Url(
                assembly.monitors@[m].base_url(),
            )
            &&& sender_capacity(assembly.monitors@[m].publishes_through()) == CHANNEL_CAPACITY
        }
    &&& assembly.workers@.len() == task.profiles@.len()
    &&& forall|i: int|
        0 <= i < assembly.workers@.len() ==> {
            &&& (#[trigger] assembly.workers@[i]).profile() == task.profiles@[i]
            &&& assembly.workers@[i].progress() == initial()
            &&& root_of(task.profiles@[i]) == Outcome::Url(assembly.workers@[i].base_url())
            &&& receiver_capacity(assembly.workers@[i].listens_on()) == CHANNEL_CAPACITY
            &&& assembly.plan.workers@[i] < assembly.monitors@.len()
            &&& receiver_channel(assembly.workers@[i].listens_on()) == sender_channel(
                assembly.monitors@[assembly.plan.workers@[i] as int].publishes_through(),
            )
        }
}

/// Whether `e` is the error of the first profile of `task` whose
/// storefront has no URL for its API root.
pub open spec fn refuses(e: Error, task: TaskConfig) -> bool {
    exists|i: int|
        0 <= i < task.profiles@.len() && excuses(e, #[trigger] root_of(task.profiles@[i]))
            && forall|j: int| 0 <= j < i ==> (#[trigger] root_of(task.profiles@[j])) is Url
}

/// Whether `e` is the error for a task whose units could not be made: the
/// error of the first profile whose storefront has no URL for its API
/// root; or, where every profile has one, the failure to seed a worker's
/// generator.
pub open spec fn unassembled(e: Error, task: TaskConfig) -> bool {
    if e is Entropy {
        &&& task.profiles@.len() > 0
        &&& forall|i: int|
            0 <= i < task.profiles@.len() ==> (#[trigger] root_of(task.profiles@[i])) is Url
    } else {
        refuses(e, task)
    }
}

/// The API roots of the profiles' storefronts, or the error of the first
/// that has none.
fn roots(task: &TaskConfig) -> (r: Result<Vec<BaseUrl>, Error>)
    ensures
        match r {
            Ok(roots) => {
                &&& roots@.len() == task.profiles@.len()
                &&& forall|i: int|
                    0 <= i < roots@.len() ==> root_of(task.profiles@[i]) == Outcome::Url(
                        (#[trigger] roots@[i])@,
                    )
            },
            Err(e) => refuses(e, *task),
        },
{
    let mut roots: Vec<BaseUrl> = Vec::new();
    let mut i: usize = 0;
    while i < task.profiles.len()
        invariant
            i <= task.profiles.len(),
            roots.len() == i,
            forall|j: int|
                0 <= j < i ==> root_of(task.profiles@[j]) == Outcome::Url((#[trigger] roots@[j])@),
        decreases task.profiles.len() - i,
    {
        match BaseUrl::parse(task.profiles[i].delivery.country.fps_base_url()) {
            Ok(root) => {
                roots.push(root);
            },
            Err(e) => {
                proof {
                    assert(excuses(e, root_of(task.profiles@[i as int])));
                    assert forall|j: int| 0 <= j < i implies (#[trigger] root_of(
                        task.profiles@[j],
                    )) is Url by {
                        assert(root_of(task.profiles@[j]) == Outcome::Url(roots@[j]@));
                    }
                }
                return Err(e);
            },
        }
        i += 1;
    }
    Ok(roots)
}

/// Makes the units of a task and wires them by its plan: a channel for each
/// monitor, and each worker subscribed to the channel of the monitor of its
/// own storefront, with a generator seeded by the system. Fails on the
/// first profile whose storefront has no URL for its API root, and when the
/// system gives no entropy for a worker's seed. A task without profiles
/// needs no seed, and is always assembled.
pub fn assemble(task: &TaskConfig) -> (r: Result<Assembly, Error>)
    ensures
        match r {
            Ok(assembly) => is_assembly(assembly, *task),
            Err(e) => unassembled(e, *task),
        },
        task.profiles@.len() == 0 ==> r is Ok,
{
    let roots = match roots(task) {
        Ok(roots) => roots,
        Err(e) => {
            return Err(e);
        },
    };
    let plan = plan(task);
    let mut monitors: Vec<Monitor> = Vec::new();
    let mut m: usize = 0;
    while m < plan.monitors.len()
        invariant
            m <= plan.monitors.len(),
            monitors.len() == m,
            roots.len() == task.profiles.len(),
            is_plan(storefronts(task.profiles@), plan.monitors@, plan.workers@),
            forall|i: int|
                0 <= i < roots@.len() ==> root_of(task.profiles@[i]) == Outcome::Url(
                    (#[trigger] roots@[i])@,
                ),
            forall|k: int|
                0 <= k < m ==> {
                    &&& (#[trigger] monitors@[k]).product() == task.product@
                    &&& monitors@[k].phase() == MonitorPhase::Idle
                    &&& root_of(task.profiles@[plan.monitors@[k] as int]) == Outcome::Url(
                        monitors@[k].base_url(),
                    )
                    &&& sender_capacity(monitors@[k].publishes_through()) == CHANNEL_CAPACITY
                },
        decreases plan.monitors.len() - m,
    {
        let first = plan.monitors[m];
        assert(first < task.profiles.len()) by {
            assert(plan.monitors@[m as int] < storefronts(task.profiles@).len());
        }
        let (sender, _) = channel();
        monitors.push(Monitor::with_root(task.product.clone(), roots[first].clone(), sender));
        m += 1;
    }
    let mut workers: Vec<Task> = Vec::new();
    let mut i: usize = 0;
    while i < task.profiles.len()
        invariant
            i <= task.profiles.len(),
            workers.len() == i,
            roots.len() == task.profiles.len(),
            monitors.len() == plan.monitors.len(),
            is_plan(storefronts(task.profiles@), plan.monitors@, plan.workers@),
            forall|j: int|
                0 <= j < roots@.len() ==> root_of(task.profiles@[j]) == Outcome::Url(
                    (#[trigger] roots@[j])@,
                ),
            forall|k: int|
                0 <= k < monitors.len() ==> sender_capacity(
                    (#[trigger] monitors@[k]).publishes_through(),
                ) == CHANNEL_CAPACITY,
            forall|j: int|
                0 <= j < i ==> {
                    &&& (#[trigger] workers@[j]).profile() == task.profiles@[j]
                    &&& workers@[j].progress() == initial()
                    &&& root_of(task.profiles@[j]) == Outcome::Url(workers@[j].base_url())
                    &&& receiver_capacity(workers@[j].listens_on()) == CHANNEL_CAPACITY
                    &&& plan.workers@[j] < monitors@.len()
                    &&& receiver_channel(workers@[j].listens_on()) == sender_channel(
                        monitors@[plan.workers@[j] as int].publishes_through(),
                    )
                },
        decreases task.profiles.len() - i,
    {
        let listens_to = plan.workers[i];
        assert(listens_to < monitors.len()) by {
            assert(plan.workers@[i as int] < plan.monitors@.len());
        }
        let receiver = monitors[listens_to].subscribe();
        match Task::seeded(task.profiles[i].clone(), receiver, seed_generator()) {
            Ok(worker) => {
                workers.push(worker);
            },
            Err(e) => {
                assert(e is Entropy) by {
                    assert(root_of(task.profiles@[i as int]) == Outcome::Url(roots@[i as int]@));
                }
                assert forall|j: int| 0 <= j < task.profiles@.len() implies (#[trigger] root_of(
                    task.profiles@[j],
                )) is Url by {
                    assert(root_of(task.profiles@[j]) == Outcome::Url(roots@[j]@));
                }
                return Err(e);
            },
        }
        i += 1;
    }
    Ok(Assembly { plan, monitors, workers })
}

} // verus!
