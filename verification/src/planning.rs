//! The planning modules of an event (polls, lists of things, lists of tasks)
//! as the database holds them, and as they are answered to the client.

use vstd::prelude::*;
use crate::models::{
    ItemListItemData, ItemListModuleData, PlanningModule, PlanningModulesResponse, PollModuleData,
    TaskListItemData, TaskListModuleData,
};
use crate::errors::AppError;
use crate::polls::PollWithVotes;
use crate::text::{int_text, i64_to_text, text_of};
use crate::user::opt_view;

verus! {

/// A poll of an event.
#[derive(Debug)]
pub struct Poll {
    pub poll_id: i64,
    pub question: String,
    pub created_by: i64,
    pub created_at: Option<i64>,
    pub is_active: bool,
    pub more_than_one_vote: bool,
}

/// One thing of a list, with the user who takes it, if any.
#[derive(Debug)]
pub struct ItemListItem {
    pub item_id: i64,
    pub item_text: String,
    pub assigned_user_id: Option<i64>,
    pub assigned_user_name: Option<String>,
}

/// A list of things with its items.
#[derive(Debug)]
pub struct ItemListWithItems {
    pub item_list_id: i64,
    pub event_id: i64,
    pub title: String,
    pub created_by: i64,
    pub created_at: i64,
    pub items: Vec<ItemListItem>,
}

/// One task of a list, with the user who does it, if any.
#[derive(Debug)]
pub struct TaskListItem {
    pub task_id: i64,
    pub task_text: String,
    pub assigned_user_id: Option<i64>,
    pub assigned_user_name: Option<String>,
    pub is_completed: bool,
}

/// A list of tasks with its tasks.
#[derive(Debug)]
pub struct TaskListWithItems {
    pub task_list_id: i64,
    pub event_id: i64,
    pub title: String,
    pub created_by: i64,
    pub created_at: i64,
    pub items: Vec<TaskListItem>,
}

/// An optional id written as decimal text.
pub open spec fn opt_id_text(id: Option<i64>) -> Option<Seq<char>> {
    match id {
        Some(v) => Some(int_text(v as int)),
        None => None,
    }
}

/// Whether `d` is the thing `i` as it is answered.
pub open spec fn item_answered(d: ItemListItemData, i: ItemListItem) -> bool {
    &&& d.id@ == int_text(i.item_id as int)
    &&& d.text@ == i.item_text@
    &&& opt_view(d.assigned_user_id) == opt_id_text(i.assigned_user_id)
    &&& opt_view(d.assigned_user_name) == opt_view(i.assigned_user_name)
}

/// Whether `d` is the task `t` as it is answered.
pub open spec fn task_answered(d: TaskListItemData, t: TaskListItem) -> bool {
    &&& d.id@ == int_text(t.task_id as int)
    &&& d.text@ == t.task_text@
    &&& opt_view(d.assigned_user_id) == opt_id_text(t.assigned_user_id)
    &&& opt_view(d.assigned_user_name) == opt_view(t.assigned_user_name)
    &&& d.completed == t.is_completed
}

/// Whether `m` is the list of things `l` as a module.
pub open spec fn item_list_answered(m: PlanningModule, l: ItemListWithItems) -> bool {
    &&& m matches PlanningModule::ItemList { id, title, data }
    &&& id@ == int_text(l.item_list_id as int)
    &&& title@ == l.title@
    &&& data.items@.len() == l.items@.len()
    &&& forall|k: int| 0 <= k < l.items@.len() ==> #[trigger] item_answered(data.items@[k], l.items@[k])
}

/// Whether `m` is the list of tasks `l` as a module.
pub open spec fn task_list_answered(m: PlanningModule, l: TaskListWithItems) -> bool {
    &&& m matches PlanningModule::TaskList { id, title, data }
    &&& id@ == int_text(l.task_list_id as int)
    &&& title@ == l.title@
    &&& data.items@.len() == l.items@.len()
    &&& forall|k: int| 0 <= k < l.items@.len() ==> #[trigger] task_answered(data.items@[k], l.items@[k])
}

/// Whether `m` is the poll `p`, with its tally `t`, as a module.
pub open spec fn poll_answered(m: PlanningModule, p: Poll, t: PollWithVotes) -> bool {
    &&& m matches PlanningModule::Poll { id, title, data }
    &&& id@ == int_text(p.poll_id as int)
    &&& title@ == p.question@
    &&& data.multiple_choice == p.more_than_one_vote
    &&& data.options == t.options
    &&& data.votes == t.votes
    &&& data.votes_count == t.votes_count
    &&& data.own_vote == t.own_vote
}

/// A copy of an optional text.
fn copy_opt_text(s: &Option<String>) -> (r: Option<String>)
    ensures
        opt_view(r) == opt_view(*s),
{
    match s {
        Some(t) => Some(t.clone()),
        None => None,
    }
}

/// An optional id as decimal text.
fn opt_id_to_text(id: Option<i64>) -> (r: Option<String>)
    ensures
        opt_view(r) == opt_id_text(id),
{
    match id {
        Some(v) => Some(i64_to_text(v)),
        None => None,
    }
}

/// A list of things as a planning module: its id as text, its title, and each
/// thing with its id and its taker's id as text.
pub fn item_list_module(list: &ItemListWithItems) -> (m: PlanningModule)
    ensures
        item_list_answered(m, *list),
{
    let mut items: Vec<ItemListItemData> = Vec::new();
    let mut k: usize = 0;
    while k < list.items.len()
        invariant
            k <= list.items@.len(),
            items@.len() == k,
            forall|j: int| 0 <= j < k ==> #[trigger] item_answered(items@[j], list.items@[j]),
        decreases list.items@.len() - k,
    {
        let item = &list.items[k];
        let d = ItemListItemData {
            id: i64_to_text(item.item_id),
            text: item.item_text.clone(),
            assigned_user_id: opt_id_to_text(item.assigned_user_id),
            assigned_user_name: copy_opt_text(&item.assigned_user_name),
        };
        items.push(d);
        k = k + 1;
    }
    PlanningModule::ItemList {
        id: i64_to_text(list.item_list_id),
        title: list.title.clone(),
        data: ItemListModuleData { items },
    }
}

/// A list of tasks as a planning module: its id as text, its title, and each
/// task with its id and its doer's id as text and whether it is done.
pub fn task_list_module(list: &TaskListWithItems) -> (m: PlanningModule)
    ensures
        task_list_answered(m, *list),
{
    let mut items: Vec<TaskListItemData> = Vec::new();
    let mut k: usize = 0;
    while k < list.items.len()
        invariant
            k <= list.items@.len(),
            items@.len() == k,
            forall|j: int| 0 <= j < k ==> #[trigger] task_answered(items@[j], list.items@[j]),
        decreases list.items@.len() - k,
    {
        let task = &list.items[k];
        let d = TaskListItemData {
            id: i64_to_text(task.task_id),
            text: task.task_text.clone(),
            assigned_user_id: opt_id_to_text(task.assigned_user_id),
            assigned_user_name: copy_opt_text(&task.assigned_user_name),
            completed: task.is_completed,
        };
        items.push(d);
        k = k + 1;
    }
    PlanningModule::TaskList {
        id: i64_to_text(list.task_list_id),
        title: list.title.clone(),
        data: TaskListModuleData { items },
    }
}

/// A poll and its tally as a planning module.
pub fn poll_module(poll: &Poll, tally: PollWithVotes) -> (m: PlanningModule)
    ensures
        poll_answered(m, *poll, tally),
{
    PlanningModule::Poll {
        id: i64_to_text(poll.poll_id),
        title: poll.question.clone(),
        data: PollModuleData {
            options: tally.options,
            multiple_choice: poll.more_than_one_vote,
            votes: tally.votes,
            votes_count: tally.votes_count,
            own_vote: tally.own_vote,
        },
    }
}

/// The planning modules of an event: its polls (each with its tally), then its
/// lists of things, then its lists of tasks, each group in the order given.
pub fn planning_modules(
    polls: Vec<(Poll, PollWithVotes)>,
    item_lists: &Vec<ItemListWithItems>,
    task_lists: &Vec<TaskListWithItems>,
) -> (r: PlanningModulesResponse)
    ensures
        r.modules@.len() == polls@.len() + item_lists@.len() + task_lists@.len(),
        forall|k: int| 0 <= k < polls@.len() ==> #[trigger] poll_answered(r.modules@[k], polls@[k].0, polls@[k].1),
        forall|k: int| 0 <= k < item_lists@.len() ==> #[trigger] item_list_answered(
            r.modules@[polls@.len() + k],
            item_lists@[k],
        ),
        forall|k: int| 0 <= k < task_lists@.len() ==> #[trigger] task_list_answered(
            r.modules@[polls@.len() + item_lists@.len() + k],
            task_lists@[k],
        ),
{
    let ghost given = polls@;
    let mut modules: Vec<PlanningModule> = Vec::new();
    let mut polls = polls;
    let n = polls.len();
    let mut k: usize = 0;
    while k < n
        invariant
            n == given.len(),
            k <= n,
            polls@ == given.subrange(k as int, n as int),
            modules@.len() == k,
            forall|j: int| 0 <= j < k ==> #[trigger] poll_answered(modules@[j], given[j].0, given[j].1),
        decreases n - k,
    {
        let (poll, tally) = polls.remove(0);
        let m = poll_module(&poll, tally);
        modules.push(m);
        k = k + 1;
        assert(polls@ =~= given.subrange(k as int, n as int));
    }
    let mut i: usize = 0;
    while i < item_lists.len()
        invariant
            n == given.len(),
            i <= item_lists@.len(),
            modules@.len() == n + i,
            forall|j: int| 0 <= j < n ==> #[trigger] poll_answered(modules@[j], given[j].0, given[j].1),
            forall|j: int| 0 <= j < i ==> #[trigger] item_list_answered(modules@[n + j], item_lists@[j]),
        decreases item_lists@.len() - i,
    {
        let m = item_list_module(&item_lists[i]);
        modules.push(m);
        i = i + 1;
    }
    let mut t: usize = 0;
    while t < task_lists.len()
        invariant
            n == given.len(),
            modules@.len() == n + item_lists@.len() + t,
            t <= task_lists@.len(),
            forall|j: int| 0 <= j < n ==> #[trigger] poll_answered(modules@[j], given[j].0, given[j].1),
            forall|j: int| 0 <= j < item_lists@.len() ==> #[trigger] item_list_answered(modules@[n + j], item_lists@[j]),
            forall|j: int| 0 <= j < t ==> #[trigger] task_list_answered(
                modules@[n + item_lists@.len() + j],
                task_lists@[j],
            ),
        decreases task_lists@.len() - t,
    {
        let m = task_list_module(&task_lists[t]);
        modules.push(m);
        t = t + 1;
    }
    PlanningModulesResponse { modules }
}

/// What comes of taking (`assign`) or giving back a thing of a list, given
/// whether the database changed a row: taking a thing someone holds is
/// refused with "Item is already assigned", giving back one that is not the
/// user's with "Item is not assigned to you".
pub fn item_assignment_result(assign: bool, updated: bool) -> (r: Result<(), AppError>)
    ensures
        updated ==> r is Ok,
        !updated && assign ==> (r matches Err(AppError::BadRequest(m)) && m@ == "Item is already assigned"@),
        !updated && !assign ==> (r matches Err(AppError::BadRequest(m)) && m@ == "Item is not assigned to you"@),
{
    if updated {
        Ok(())
    } else if assign {
        Err(AppError::BadRequest(text_of("Item is already assigned")))
    } else {
        Err(AppError::BadRequest(text_of("Item is not assigned to you")))
    }
}

/// What comes of taking (`assign`) or giving back a task, or of marking it
/// done (counted as not taking it), given whether the database changed a
/// row: taking a task someone holds is refused with "Task is already
/// assigned", the others with "Task is not assigned to you".
pub fn task_assignment_result(assign: bool, updated: bool) -> (r: Result<(), AppError>)
    ensures
        updated ==> r is Ok,
        !updated && assign ==> (r matches Err(AppError::BadRequest(m)) && m@ == "Task is already assigned"@),
        !updated && !assign ==> (r matches Err(AppError::BadRequest(m)) && m@ == "Task is not assigned to you"@),
{
    if updated {
        Ok(())
    } else if assign {
        Err(AppError::BadRequest(text_of("Task is already assigned")))
    } else {
        Err(AppError::BadRequest(text_of("Task is not assigned to you")))
    }
}

/// What comes of removing things from a list, given how many of the
/// `requested` rows the database removed (only those nobody holds are
/// removed): where one stayed, the whole change is refused with "Some items
/// are assigned and cannot be deleted".
pub fn item_removal_result(removed: usize, requested: usize) -> (r: Result<(), AppError>)
    ensures
        removed == requested ==> r is Ok,
        removed != requested ==> (r matches Err(AppError::BadRequest(m)) && m@
            == "Some items are assigned and cannot be deleted"@),
{
    if removed == requested {
        Ok(())
    } else {
        Err(AppError::BadRequest(text_of("Some items are assigned and cannot be deleted")))
    }
}

/// What comes of removing tasks from a list, given how many of the
/// `requested` rows the database removed (only those nobody holds are
/// removed): where one stayed, the whole change is refused with "Some tasks
/// are assigned and cannot be deleted".
pub fn task_removal_result(removed: usize, requested: usize) -> (r: Result<(), AppError>)
    ensures
        removed == requested ==> r is Ok,
        removed != requested ==> (r matches Err(AppError::BadRequest(m)) && m@
            == "Some tasks are assigned and cannot be deleted"@),
{
    if removed == requested {
        Ok(())
    } else {
        Err(AppError::BadRequest(text_of("Some tasks are assigned and cannot be deleted")))
    }
}

} // verus!
