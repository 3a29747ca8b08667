//! Which task is dispatched next, and the order in which tasks are listed.
use crate::tasks::model::{AgentTask, DASHBOARD_TASK_DISPATCH_WAIT_TIMEOUT_MS, TaskState, TaskView};
use crate::text;
use vstd::prelude::*;
use vstd::string::*;

verus! {

/// The views of a list of tasks.
pub open spec fn task_views(tasks: Seq<AgentTask>) -> Seq<TaskView> {
    Seq::new(tasks.len(), |i: int| tasks[i]@)
}

/// How many of the first `end` tasks are in flight.
pub open spec fn in_flight_upto(tasks: Seq<TaskView>, end: int) -> nat
    decreases end,
{
    if end <= 0 {
        0
    } else {
        in_flight_upto(tasks, end - 1) + if tasks[end - 1].in_flight() {
            1nat
        } else {
            0nat
        }
    }
}

/// How many tasks are in flight.
pub open spec fn in_flight_count(tasks: Seq<TaskView>) -> nat {
    in_flight_upto(tasks, tasks.len() as int)
}

/// How many of the first `end` tasks are in flight for a template.
pub open spec fn load_upto(tasks: Seq<TaskView>, template_id: Seq<char>, end: int) -> nat
    decreases end,
{
    if end <= 0 {
        0
    } else {
        load_upto(tasks, template_id, end - 1) + if tasks[end - 1].in_flight() && tasks[end
            - 1].template_id == template_id {
            1nat
        } else {
            0nat
        }
    }
}

/// How many tasks are in flight for a template.
pub open spec fn template_load(tasks: Seq<TaskView>, template_id: Seq<char>) -> nat {
    load_upto(tasks, template_id, tasks.len() as int)
}

/// The load of the template of one task.
pub open spec fn load_at(tasks: Seq<TaskView>, index: int) -> nat {
    template_load(tasks, tasks[index].template_id)
}

/// Whether a task waits to be dispatched.
pub open spec fn todo_at(tasks: Seq<TaskView>, index: int) -> bool {
    tasks[index].state == TaskState::Todo
}

/// Whether the task at `a` is listed before the task at `b`: waiting tasks
/// first, in dispatch order (priority, then the template with the fewest
/// in-flight tasks, then enqueue order), then the rest in enqueue order.
pub open spec fn precedes(tasks: Seq<TaskView>, a: int, b: int) -> bool {
    if todo_at(tasks, a) != todo_at(tasks, b) {
        todo_at(tasks, a)
    } else if todo_at(tasks, a) && tasks[a].priority != tasks[b].priority {
        tasks[a].priority < tasks[b].priority
    } else if todo_at(tasks, a) && load_at(tasks, a) != load_at(tasks, b) {
        load_at(tasks, a) < load_at(tasks, b)
    } else if tasks[a].enqueue_seq != tasks[b].enqueue_seq {
        tasks[a].enqueue_seq < tasks[b].enqueue_seq
    } else {
        a < b
    }
}

/// The task at `index` waits and is listed before every other task.
pub open spec fn is_next(tasks: Seq<TaskView>, index: int) -> bool {
    &&& 0 <= index < tasks.len()
    &&& todo_at(tasks, index)
    &&& forall|other: int|
        0 <= other < tasks.len() && other != index ==> #[trigger] precedes(tasks, index, other)
}

/// Whether any task waits to be dispatched.
pub open spec fn any_todo(tasks: Seq<TaskView>) -> bool {
    exists|index: int| 0 <= index < tasks.len() && #[trigger] todo_at(tasks, index)
}

/// What the dispatcher does with a set of tasks.
#[derive(Debug)]
pub enum DispatchDecision {
    Empty,
    AtCapacity { in_flight: usize },
    Dispatch { task_id: String },
}

/// Counts the tasks in flight.
pub fn count_in_flight(tasks: &Vec<AgentTask>) -> (count: usize)
    ensures
        count == in_flight_count(task_views(tasks@)),
        count <= tasks@.len(),
{
    let mut count: usize = 0;
    let mut index: usize = 0;
    while index < tasks.len()
        invariant
            index <= tasks@.len(),
            count == in_flight_upto(task_views(tasks@), index as int),
            count <= index,
        decreases tasks@.len() - index,
    {
        if tasks[index].is_in_flight() {
            count = count + 1;
        }
        index = index + 1;
    }
    count
}

fn count_load(tasks: &Vec<AgentTask>, template_id: &str) -> (count: usize)
    ensures
        count == template_load(task_views(tasks@), template_id@),
{
    let mut count: usize = 0;
    let mut index: usize = 0;
    while index < tasks.len()
        invariant
            index <= tasks@.len(),
            count == load_upto(task_views(tasks@), template_id@, index as int),
            count <= index,
        decreases tasks@.len() - index,
    {
        if tasks[index].is_in_flight() && text::str_equal(
            tasks[index].template_id.as_str(),
            template_id,
        ) {
            count = count + 1;
        }
        index = index + 1;
    }
    count
}

fn count_loads(tasks: &Vec<AgentTask>) -> (loads: Vec<usize>)
    ensures
        loads@.len() == tasks@.len(),
        forall|i: int|
            0 <= i < tasks@.len() ==> #[trigger] loads@[i] == load_at(task_views(tasks@), i),
{
    let mut loads: Vec<usize> = Vec::new();
    let mut index: usize = 0;
    while index < tasks.len()
        invariant
            index <= tasks@.len(),
            loads@.len() == index,
            forall|i: int|
                0 <= i < index ==> #[trigger] loads@[i] == load_at(task_views(tasks@), i),
        decreases tasks@.len() - index,
    {
        loads.push(count_load(tasks, tasks[index].template_id.as_str()));
        index = index + 1;
    }
    loads
}

fn listed_before(tasks: &Vec<AgentTask>, loads: &Vec<usize>, a: usize, b: usize) -> (before: bool)
    requires
        a < tasks@.len(),
        b < tasks@.len(),
        loads@.len() == tasks@.len(),
        forall|i: int|
            0 <= i < tasks@.len() ==> #[trigger] loads@[i] == load_at(task_views(tasks@), i),
    ensures
        before == precedes(task_views(tasks@), a as int, b as int),
{
    let a_todo = tasks[a].state == TaskState::Todo;
    let b_todo = tasks[b].state == TaskState::Todo;
    assert(loads@[a as int] == load_at(task_views(tasks@), a as int));
    assert(loads@[b as int] == load_at(task_views(tasks@), b as int));
    if a_todo != b_todo {
        a_todo
    } else if a_todo && tasks[a].priority != tasks[b].priority {
        tasks[a].priority < tasks[b].priority
    } else if a_todo && loads[a] != loads[b] {
        loads[a] < loads[b]
    } else if tasks[a].enqueue_seq != tasks[b].enqueue_seq {
        tasks[a].enqueue_seq < tasks[b].enqueue_seq
    } else {
        a < b
    }
}

/// Selects the next task to dispatch: none where the cap is reached or nothing
/// waits; otherwise the waiting task of the strictest priority, among these
/// one whose template has the fewest tasks in flight, among these the one that
/// was enqueued first.
pub fn dispatch_decision(tasks: &Vec<AgentTask>, concurrency_cap: usize) -> (decision:
    DispatchDecision)
    ensures
        match decision {
            DispatchDecision::AtCapacity { in_flight } => {
                &&& in_flight == in_flight_count(task_views(tasks@))
                &&& in_flight >= concurrency_cap
            },
            DispatchDecision::Empty => {
                &&& in_flight_count(task_views(tasks@)) < concurrency_cap
                &&& !any_todo(task_views(tasks@))
            },
            DispatchDecision::Dispatch { task_id } => {
                &&& in_flight_count(task_views(tasks@)) < concurrency_cap
                &&& exists|index: int| #[trigger]
                    is_next(task_views(tasks@), index) && task_id@ == tasks@[index].task_id@
            },
        },
{
    let in_flight: usize = count_in_flight(tasks);
    if in_flight >= concurrency_cap {
        return DispatchDecision::AtCapacity { in_flight };
    }
    let loads = count_loads(tasks);
    let views: Ghost<Seq<TaskView>> = Ghost(task_views(tasks@));
    let mut best: Option<usize> = None;
    let mut index: usize = 0;
    while index < tasks.len()
        invariant
            index <= tasks@.len(),
            views@ == task_views(tasks@),
            loads@.len() == tasks@.len(),
            forall|i: int| 0 <= i < tasks@.len() ==> #[trigger] loads@[i] == load_at(views@, i),
            best is None ==> forall|i: int| 0 <= i < index ==> !#[trigger] todo_at(views@, i),
            best matches Some(found) ==> {
                &&& found < index
                &&& todo_at(views@, found as int)
                &&& forall|other: int|
                    0 <= other < index && other != found ==> #[trigger] precedes(
                        views@,
                        found as int,
                        other,
                    )
            },
        decreases tasks@.len() - index,
    {
        if tasks[index].state == TaskState::Todo {
            assert(todo_at(views@, index as int));
            match best {
                None => {
                    proof {
                        assert forall|other: int|
                            0 <= other <= index && other != index implies #[trigger] precedes(
                            views@,
                            index as int,
                            other,
                        ) by {
                            assert(!todo_at(views@, other));
                        }
                    }
                    best = Some(index);
                },
                Some(found) => {
                    if listed_before(tasks, &loads, index, found) {
                        proof {
                            assert forall|other: int|
                                0 <= other <= index && other != index implies #[trigger] precedes(
                                views@,
                                index as int,
                                other,
                            ) by {
                                if other != found {
                                    assert(precedes(views@, found as int, other));
                                }
                            }
                        }
                        best = Some(index);
                    } else {
                        assert(precedes(views@, found as int, index as int));
                    }
                },
            }
        } else {
            assert(!todo_at(views@, index as int));
            assert(best matches Some(found) ==> precedes(views@, found as int, index as int));
        }
        index = index + 1;
    }
    match best {
        None => DispatchDecision::Empty,
        Some(found) => {
            assert(is_next(views@, found as int));
            DispatchDecision::Dispatch { task_id: tasks[found].task_id.clone() }
        },
    }
}

/// `order` lists every task once, each before the next.
pub open spec fn is_listing(tasks: Seq<TaskView>, order: Seq<int>) -> bool {
    &&& order.len() == tasks.len()
    &&& forall|p: int| 0 <= p < order.len() ==> 0 <= #[trigger] order[p] < tasks.len()
    &&& forall|p: int, q: int|
        0 <= p < q < order.len() ==> precedes(tasks, #[trigger] order[p], #[trigger] order[q])
}

/// `listed` is `tasks` put into the order in which tasks are listed.
pub open spec fn is_listing_of(listed: Seq<TaskView>, tasks: Seq<TaskView>) -> bool {
    exists|order: Seq<int>| #[trigger]
        is_listing(tasks, order) && listed == order.map_values(|index: int| tasks[index])
}

fn listing_order(tasks: &Vec<AgentTask>) -> (order: Vec<usize>)
    ensures
        is_listing(task_views(tasks@), order@.map_values(|index: usize| index as int)),
{
    let loads = count_loads(tasks);
    let views: Ghost<Seq<TaskView>> = Ghost(task_views(tasks@));
    let mut order: Vec<usize> = Vec::new();
    let mut index: usize = 0;
    while index < tasks.len()
        invariant
            index <= tasks@.len(),
            views@ == task_views(tasks@),
            loads@.len() == tasks@.len(),
            forall|i: int| 0 <= i < tasks@.len() ==> #[trigger] loads@[i] == load_at(views@, i),
            order@.len() == index,
            forall|p: int| 0 <= p < order@.len() ==> #[trigger] order@[p] < index,
            forall|p: int, q: int|
                0 <= p < q < order@.len() ==> precedes(
                    views@,
                    #[trigger] order@[p] as int,
                    #[trigger] order@[q] as int,
                ),
        decreases tasks@.len() - index,
    {
        let mut place: usize = 0;
        while place < order.len() && listed_before(tasks, &loads, order[place], index)
            invariant
                place <= order@.len(),
                index < tasks@.len(),
                views@ == task_views(tasks@),
                loads@.len() == tasks@.len(),
                forall|i: int|
                    0 <= i < tasks@.len() ==> #[trigger] loads@[i] == load_at(views@, i),
                forall|p: int| 0 <= p < order@.len() ==> #[trigger] order@[p] < index,
                forall|p: int|
                    0 <= p < place ==> precedes(
                        views@,
                        #[trigger] order@[p] as int,
                        index as int,
                    ),
            decreases order@.len() - place,
        {
            place = place + 1;
        }
        let before: Ghost<Seq<usize>> = Ghost(order@);
        order.insert(place, index);
        proof {
            assert forall|p: int, q: int| 0 <= p < q < order@.len() implies precedes(
                views@,
                #[trigger] order@[p] as int,
                #[trigger] order@[q] as int,
            ) by {
                if q < place {
                    assert(order@[p] == before@[p] && order@[q] == before@[q]);
                } else if q == place {
                    assert(order@[p] == before@[p]);
                } else if p < place {
                    assert(order@[p] == before@[p] && order@[q] == before@[q - 1]);
                } else if p == place {
                    let old_place = before@[place as int] as int;
                    assert(order@[q] == before@[q - 1]);
                    assert(precedes(views@, index as int, old_place));
                    if q - 1 > place {
                        assert(precedes(views@, old_place, before@[q - 1] as int));
                    }
                } else {
                    assert(order@[p] == before@[p - 1] && order@[q] == before@[q - 1]);
                }
            }
            assert forall|p: int| 0 <= p < order@.len() implies #[trigger] order@[p] < index
                + 1 by {
                if p < place {
                    assert(order@[p] == before@[p]);
                } else if p > place {
                    assert(order@[p] == before@[p - 1]);
                }
            }
        }
        index = index + 1;
    }
    proof {
        let mapped = order@.map_values(|index: usize| index as int);
        assert forall|p: int| 0 <= p < mapped.len() implies 0 <= #[trigger] mapped[p]
            < views@.len() by {
            assert(order@[p] < index);
        }
    }
    order
}

/// Orders tasks for the queue view: waiting tasks in dispatch order, then the
/// rest by enqueue sequence.
pub fn order_for_list(tasks: Vec<AgentTask>) -> (listed: Vec<AgentTask>)
    ensures
        is_listing_of(task_views(listed@), task_views(tasks@)),
{
    let order = listing_order(&tasks);
    let mut listed: Vec<AgentTask> = Vec::new();
    let mut index: usize = 0;
    let mapped: Ghost<Seq<int>> = Ghost(order@.map_values(|index: usize| index as int));
    while index < order.len()
        invariant
            index <= order@.len(),
            mapped@ == order@.map_values(|index: usize| index as int),
            is_listing(task_views(tasks@), mapped@),
            listed@.len() == index,
            forall|p: int|
                0 <= p < index ==> (#[trigger] listed@[p])@ == tasks@[order@[p] as int]@,
        decreases order@.len() - index,
    {
        assert(mapped@[index as int] == order@[index as int]);
        listed.push(tasks[order[index]].clone());
        index = index + 1;
    }
    proof {
        let views = task_views(tasks@);
        assert(task_views(listed@) =~= mapped@.map_values(|index: int| views[index])) by {
            assert forall|p: int| 0 <= p < listed@.len() implies #[trigger] task_views(listed@)[p]
                == views[mapped@[p]] by {
                assert(listed@[p]@ == tasks@[order@[p] as int]@);
                assert(mapped@[p] == order@[p]);
            }
        }
    }
    listed
}

proof fn lemma_listing_is_onto(tasks: Seq<TaskView>, order: Seq<int>)
    requires
        is_listing(tasks, order),
    ensures
        forall|index: int| 0 <= index < tasks.len() ==> order.contains(index),
{
    assert(order.no_duplicates()) by {
        assert forall|p: int, q: int|
            0 <= p < order.len() && 0 <= q < order.len() && p != q implies order[p] != order[q] by {
            if p < q {
                assert(precedes(tasks, order[p], order[q]));
            } else {
                assert(precedes(tasks, order[q], order[p]));
            }
        }
    }
    let all = vstd::set_lib::set_int_range(0, tasks.len() as int);
    vstd::set_lib::lemma_int_range(0, tasks.len() as int);
    order.unique_seq_to_set();
    assert(order.to_set().subset_of(all)) by {
        assert forall|index: int| order.to_set().contains(index) implies all.contains(index) by {
            let p = choose|p: int| 0 <= p < order.len() && order[p] == index;
            assert(0 <= order[p] < tasks.len());
        }
    }
    vstd::set_lib::lemma_subset_equality(order.to_set(), all);
    assert forall|index: int| 0 <= index < tasks.len() implies order.contains(index) by {
        assert(all.contains(index));
        assert(order.to_set().contains(index));
    }
}

/// The dispatcher's pick is unique: two tasks never both come next.
pub proof fn law_next_task_is_unique(tasks: Seq<TaskView>, a: int, b: int)
    requires
        is_next(tasks, a),
        is_next(tasks, b),
    ensures
        a == b,
{
    if a != b {
        assert(precedes(tasks, a, b));
        assert(precedes(tasks, b, a));
    }
}

/// Strict priority, then fairness, then first in, first out: no waiting task
/// has a stricter priority than the next one; none of the same priority has a
/// template with fewer tasks in flight; none of the same priority and load was
/// enqueued earlier.
pub proof fn law_priority_fairness_fifo(tasks: Seq<TaskView>, next: int, other: int)
    requires
        is_next(tasks, next),
        0 <= other < tasks.len(),
        todo_at(tasks, other),
    ensures
        tasks[next].priority <= tasks[other].priority,
        tasks[next].priority == tasks[other].priority ==> load_at(tasks, next) <= load_at(
            tasks,
            other,
        ),
        tasks[next].priority == tasks[other].priority && load_at(tasks, next) == load_at(
            tasks,
            other,
        ) ==> tasks[next].enqueue_seq <= tasks[other].enqueue_seq,
{
    if next != other {
        assert(precedes(tasks, next, other));
    }
}

/// The queue view shows what the dispatcher does: where any task waits, the
/// first listed task is the one that comes next.
pub proof fn law_first_listed_is_next(tasks: Seq<TaskView>, order: Seq<int>)
    requires
        is_listing(tasks, order),
        any_todo(tasks),
    ensures
        is_next(tasks, order[0]),
{
    lemma_listing_is_onto(tasks, order);
    let waiting = choose|index: int| 0 <= index < tasks.len() && #[trigger] todo_at(tasks, index);
    assert(order.contains(waiting));
    let place = choose|p: int| 0 <= p < order.len() && order[p] == waiting;
    let first = order[0];
    if place > 0 {
        assert(precedes(tasks, order[0], order[place]));
    }
    assert(todo_at(tasks, first));
    assert forall|other: int| 0 <= other < tasks.len()
        && other != first implies #[trigger] precedes(
        tasks,
        first,
        other,
    ) by {
        assert(order.contains(other));
        let q = choose|q: int| 0 <= q < order.len() && order[q] == other;
        assert(precedes(tasks, order[0], order[q]));
    }
}

/// A listing drops no task and repeats none.
pub proof fn law_listing_is_complete(tasks: Seq<TaskView>, order: Seq<int>, index: int)
    requires
        is_listing(tasks, order),
        0 <= index < tasks.len(),
    ensures
        exists|p: int| 0 <= p < order.len() && order[p] == index,
        forall|p: int, q: int|
            0 <= p < order.len() && 0 <= q < order.len() && order[p] == index && order[q] == index
                ==> p == q,
{
    lemma_listing_is_onto(tasks, order);
    assert(order.contains(index));
    assert forall|p: int, q: int|
        0 <= p < order.len() && 0 <= q < order.len() && order[p] == index && order[q]
            == index implies p == q by {
        if p < q {
            assert(precedes(tasks, order[p], order[q]));
        } else if q < p {
            assert(precedes(tasks, order[q], order[p]));
        }
    }
}

/// The dashboard's wait for a spawn: at least ten minutes.
pub fn dashboard_task_dispatch_wait_timeout_ms(requested: u64) -> (wait: u64)
    ensures
        wait == (if requested < 600_000 {
            600_000
        } else {
            requested
        }),
{
    if requested < DASHBOARD_TASK_DISPATCH_WAIT_TIMEOUT_MS {
        DASHBOARD_TASK_DISPATCH_WAIT_TIMEOUT_MS
    } else {
        requested
    }
}

proof fn lemma_load_is_filter(tasks: Seq<TaskView>, template_id: Seq<char>, end: int)
    requires
        0 <= end <= tasks.len(),
    ensures
        load_upto(tasks, template_id, end) == tasks.subrange(0, end).filter(
            |task: TaskView| task.state == TaskState::InProgress && task.template_id == template_id,
        ).len(),
    decreases end,
{
    reveal(Seq::filter);
    if end > 0 {
        lemma_load_is_filter(tasks, template_id, end - 1);
        assert(tasks.subrange(0, end).drop_last() =~= tasks.subrange(0, end - 1));
    }
}

proof fn lemma_in_flight_is_filter(tasks: Seq<TaskView>, end: int)
    requires
        0 <= end <= tasks.len(),
    ensures
        in_flight_upto(tasks, end) == tasks.subrange(0, end).filter(
            |task: TaskView| task.state == TaskState::InProgress,
        ).len(),
    decreases end,
{
    reveal(Seq::filter);
    if end > 0 {
        lemma_in_flight_is_filter(tasks, end - 1);
        assert(tasks.subrange(0, end).drop_last() =~= tasks.subrange(0, end - 1));
    }
}

/// The load of a template is the number of its tasks in progress, and as many tasks are
/// in flight as there are tasks in progress.
pub proof fn law_load_counts_tasks_in_progress(tasks: Seq<TaskView>, template_id: Seq<char>)
    ensures
        template_load(tasks, template_id) == tasks.filter(
            |task: TaskView| task.state == TaskState::InProgress && task.template_id == template_id,
        ).len(),
        in_flight_count(tasks) == tasks.filter(
            |task: TaskView| task.state == TaskState::InProgress,
        ).len(),
{
    lemma_load_is_filter(tasks, template_id, tasks.len() as int);
    lemma_in_flight_is_filter(tasks, tasks.len() as int);
    assert(tasks.subrange(0, tasks.len() as int) =~= tasks);
}

proof fn lemma_counts_of_a_front(tasks: Seq<TaskView>, task: TaskView, template_id: Seq<char>, end: int)
    requires
        0 <= end <= tasks.len(),
    ensures
        load_upto(tasks.push(task), template_id, end) == load_upto(tasks, template_id, end),
        in_flight_upto(tasks.push(task), end) == in_flight_upto(tasks, end),
    decreases end,
{
    if end > 0 {
        lemma_counts_of_a_front(tasks, task, template_id, end - 1);
    }
}

/// One more task in progress raises the load of its own template by one and that of no
/// other, and the number in flight by one; a task in any other state raises nothing.
pub proof fn law_one_more_task_in_progress_raises_its_load(
    tasks: Seq<TaskView>,
    task: TaskView,
    template_id: Seq<char>,
)
    ensures
        template_load(Seq::<TaskView>::empty(), template_id) == 0,
        in_flight_count(Seq::<TaskView>::empty()) == 0,
        task.state == TaskState::InProgress && task.template_id == template_id ==> template_load(
            tasks.push(task),
            template_id,
        ) == template_load(tasks, template_id) + 1,
        task.state != TaskState::InProgress || task.template_id != template_id ==> template_load(
            tasks.push(task),
            template_id,
        ) == template_load(tasks, template_id),
        task.state == TaskState::InProgress ==> in_flight_count(tasks.push(task))
            == in_flight_count(tasks) + 1,
        task.state != TaskState::InProgress ==> in_flight_count(tasks.push(task))
            == in_flight_count(tasks),
{
    lemma_counts_of_a_front(tasks, task, template_id, tasks.len() as int);
}

/// The loads of some templates, added up.
pub open spec fn summed_loads(tasks: Seq<TaskView>, templates: Seq<Seq<char>>) -> nat
    decreases templates.len(),
{
    if templates.len() == 0 {
        0
    } else {
        summed_loads(tasks, templates.drop_last()) + template_load(tasks, templates.last())
    }
}

proof fn lemma_summed_loads_push(tasks: Seq<TaskView>, task: TaskView, templates: Seq<Seq<char>>)
    requires
        templates.no_duplicates(),
    ensures
        summed_loads(tasks.push(task), templates) == summed_loads(tasks, templates) + if task.state
            == TaskState::InProgress && templates.contains(task.template_id) {
            1nat
        } else {
            0nat
        },
    decreases templates.len(),
{
    if templates.len() > 0 {
        let shorter = templates.drop_last();
        assert(templates =~= shorter.push(templates.last()));
        lemma_summed_loads_push(tasks, task, shorter);
        law_one_more_task_in_progress_raises_its_load(tasks, task, templates.last());
        if shorter.contains(task.template_id) {
            let i = choose|i: int| 0 <= i < shorter.len() && shorter[i] == task.template_id;
            assert(templates[i] == task.template_id);
            assert(templates[i] != templates[templates.len() - 1]);
        }
        if templates.contains(task.template_id) && !shorter.contains(task.template_id) {
            let i = choose|i: int| 0 <= i < templates.len() && templates[i] == task.template_id;
            if i < shorter.len() {
                assert(shorter[i] == task.template_id);
            }
        }
        if templates.last() == task.template_id {
            assert(templates[templates.len() - 1] == task.template_id);
        }
    }
}

proof fn lemma_summed_loads_of_none(templates: Seq<Seq<char>>)
    ensures
        summed_loads(Seq::<TaskView>::empty(), templates) == 0,
    decreases templates.len(),
{
    if templates.len() > 0 {
        lemma_summed_loads_of_none(templates.drop_last());
    }
}

/// The loads of all templates, each taken once, add up to the number of tasks in
/// flight.
pub proof fn law_loads_add_up(tasks: Seq<TaskView>, templates: Seq<Seq<char>>)
    requires
        templates.no_duplicates(),
        forall|i: int|
            0 <= i < tasks.len() ==> templates.contains((#[trigger] tasks[i]).template_id),
    ensures
        summed_loads(tasks, templates) == in_flight_count(tasks),
    decreases tasks.len(),
{
    if tasks.len() == 0 {
        assert(tasks =~= Seq::<TaskView>::empty());
        lemma_summed_loads_of_none(templates);
    } else {
        let shorter = tasks.drop_last();
        assert(tasks =~= shorter.push(tasks.last()));
        assert forall|i: int| 0 <= i < shorter.len() implies templates.contains(
            (#[trigger] shorter[i]).template_id,
        ) by {
            assert(templates.contains(tasks[i].template_id));
        }
        assert(templates.contains(tasks[tasks.len() - 1].template_id));
        law_loads_add_up(shorter, templates);
        lemma_summed_loads_push(shorter, tasks.last(), templates);
        law_one_more_task_in_progress_raises_its_load(shorter, tasks.last(), tasks.last().template_id);
    }
}

/// The next task waits, no waiting task is more urgent, among the equally urgent none
/// is of a template with fewer tasks in progress, and among these none was enqueued
/// earlier.
pub proof fn law_next_task_is_most_urgent_then_fairest_then_oldest(
    tasks: Seq<TaskView>,
    next: int,
    other: int,
)
    requires
        is_next(tasks, next),
        0 <= other < tasks.len(),
        tasks[other].state == TaskState::Todo,
    ensures
        tasks[next].state == TaskState::Todo,
        tasks[next].priority <= tasks[other].priority,
        tasks[next].priority == tasks[other].priority ==> tasks.filter(
            |task: TaskView|
                task.state == TaskState::InProgress && task.template_id == tasks[next].template_id,
        ).len() <= tasks.filter(
            |task: TaskView|
                task.state == TaskState::InProgress && task.template_id == tasks[other].template_id,
        ).len(),
        tasks[next].priority == tasks[other].priority && tasks[next].template_id
            == tasks[other].template_id ==> tasks[next].enqueue_seq <= tasks[other].enqueue_seq,
        tasks[next].priority == tasks[other].priority && template_load(
            tasks,
            tasks[next].template_id,
        ) == template_load(tasks, tasks[other].template_id) ==> tasks[next].enqueue_seq
            <= tasks[other].enqueue_seq,
{
    law_load_counts_tasks_in_progress(tasks, tasks[next].template_id);
    law_load_counts_tasks_in_progress(tasks, tasks[other].template_id);
    if next != other {
        assert(precedes(tasks, next, other));
        assert(todo_at(tasks, other));
    }
}

/// A listing puts the waiting tasks before all others, the waiting ones by urgency, then
/// by the load of their template, then by age; the others by age alone.
pub proof fn law_listings_put_waiting_tasks_first(
    tasks: Seq<TaskView>,
    order: Seq<int>,
    earlier: int,
    later: int,
)
    requires
        is_listing(tasks, order),
        0 <= earlier < later < order.len(),
    ensures
        ({
            let a = tasks[order[earlier]];
            let b = tasks[order[later]];
            &&& b.state == TaskState::Todo ==> a.state == TaskState::Todo
            &&& b.state == TaskState::Todo ==> a.priority <= b.priority
            &&& b.state == TaskState::Todo && a.priority == b.priority ==> template_load(
                tasks,
                a.template_id,
            ) <= template_load(tasks, b.template_id)
            &&& b.state == TaskState::Todo && a.priority == b.priority && template_load(
                tasks,
                a.template_id,
            ) == template_load(tasks, b.template_id) ==> a.enqueue_seq <= b.enqueue_seq
            &&& a.state != TaskState::Todo ==> a.enqueue_seq <= b.enqueue_seq
        }),
{
    assert(precedes(tasks, order[earlier], order[later]));
}

} // verus!
