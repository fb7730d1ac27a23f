use vstd::prelude::*;

use crate::clock::now_utc_timestamp;
use crate::db::model::{
    create_task_m, db_wf, delete_task_m, put_task_m, task_idx_by_id, tasks_wf, StoreError,
};
use crate::db::store::{find_task_by_id, tasks_view, Database};
use crate::models::dtos::{CreateTaskDTO, DeleteTaskDTO, PutTaskDTO};
use crate::models::tasks::{view_opt_string, Task, TaskModel, TaskPoints};

verus! {

/// Adds a task to the catalog under the next catalog id, stamped with the
/// creation time.
pub fn _create_task(db: &mut Database, create_task_dto: CreateTaskDTO) -> (r: Result<
    (),
    StoreError,
>)
    requires
        db_wf(old(db)@),
        old(db).next_task_id < i32::MAX,
        0 <= create_task_dto.points,
    ensures
        exists|ts: int|
            final(db)@ == create_task_m(
                old(db)@,
                create_task_dto.description@,
                create_task_dto.points as int,
                view_opt_string(create_task_dto.link),
                create_task_dto.task_button_text@,
                ts,
            ),
        r == Ok::<(), StoreError>(()),
        db_wf(final(db)@),
{
    let ts = now_utc_timestamp();
    let task = Task {
        id: db.next_task_id,
        description: create_task_dto.description,
        points: create_task_dto.points,
        time_created: ts,
        link: create_task_dto.link,
        task_button_text: Some(create_task_dto.task_button_text),
    };
    db.tasks.push(task);
    db.next_task_id = db.next_task_id + 1;
    proof {
        let m2 = create_task_m(
            old(db)@,
            create_task_dto.description@,
            create_task_dto.points as int,
            view_opt_string(create_task_dto.link),
            create_task_dto.task_button_text@,
            ts as int,
        );
        assert(db@.tasks =~~= m2.tasks);
        assert(db@ =~= m2);
        assert forall|i: int, j: int|
            0 <= i < j < db@.tasks.len() implies db@.tasks[i].id != db@.tasks[j].id by {
            if j < old(db)@.tasks.len() {
            } else {
                assert(1 <= old(db)@.tasks[i].id < old(db)@.next_task_id);
            }
        }
        assert(tasks_wf(db@.tasks, db@.next_task_id));
    }
    Ok(())
}

/// Removes a task from the catalog; an absent id is reported as not found.
/// Already-credited completions keep their points.
pub fn _delete_task(db: &mut Database, delete_task_dto: DeleteTaskDTO) -> (r: Result<
    (),
    StoreError,
>)
    requires
        db_wf(old(db)@),
    ensures
        ({
            let (m2, res) = delete_task_m(old(db)@, delete_task_dto.task_id as int);
            &&& final(db)@ == m2
            &&& r == res
            &&& db_wf(final(db)@)
        }),
{
    match find_task_by_id(&db.tasks, delete_task_dto.task_id) {
        None => Err(StoreError::NotFound),
        Some(i) => {
            let _removed = db.tasks.remove(i);
            proof {
                let (m2, res) = delete_task_m(old(db)@, delete_task_dto.task_id as int);
                assert(db@.tasks =~= m2.tasks);
                assert(db@ =~= m2);
            }
            Ok(())
        },
    }
}

/// The whole task catalog, in store order.
pub fn _get_tasks(db: &Database) -> (r: Result<Vec<Task>, StoreError>)
    ensures
        match r {
            Ok(tasks) => tasks@.map_values(|t: Task| t@) == db@.tasks,
            Err(_) => false,
        },
{
    let mut out: Vec<Task> = Vec::new();
    let mut i: usize = 0;
    while i < db.tasks.len()
        invariant
            i <= db.tasks@.len(),
            out@.len() == i,
            forall|j: int| 0 <= j < i ==> (#[trigger] out@[j])@ == db@.tasks[j],
        decreases db.tasks@.len() - i,
    {
        let t = db.tasks[i].clone();
        proof {
            assert(t@ == db@.tasks[i as int]);
        }
        out.push(t);
        i = i + 1;
    }
    proof {
        assert(out@.map_values(|t: Task| t@) =~= db@.tasks);
    }
    Ok(out)
}

/// The point value of a task, as read for crediting; an absent id is
/// reported as not found.
pub fn _get_points_for_task(db: &Database, task_id: i32) -> (r: Result<i32, StoreError>)
    ensures
        ({
            let i = task_idx_by_id(db@.tasks, task_id as int);
            match r {
                Ok(p) => i != -1 && p as int == db@.tasks[i].points,
                Err(e) => i == -1 && e == StoreError::NotFound,
            }
        }),
{
    match find_task_by_id(&db.tasks, task_id) {
        None => Err(StoreError::NotFound),
        Some(i) => {
            let task = TaskPoints { points: db.tasks[i].points };
            Ok(task.points)
        },
    }
}

/// Patches a task: supplied fields overwrite, absent fields keep the stored
/// value, and the stored optional fields come out present, defaulting to
/// the empty string.
pub fn _put_task(db: &mut Database, put_task_dto: PutTaskDTO) -> (r: Result<(), StoreError>)
    requires
        db_wf(old(db)@),
        match put_task_dto.points {
            Some(p) => 0 <= p,
            None => true,
        },
    ensures
        ({
            let (m2, res) = put_task_m(
                old(db)@,
                put_task_dto.task_id as int,
                view_opt_string(put_task_dto.description),
                match put_task_dto.points {
                    Some(p) => Some(p as int),
                    None => None,
                },
                view_opt_string(put_task_dto.link),
                view_opt_string(put_task_dto.task_button_text),
            );
            &&& final(db)@ == m2
            &&& r == res
            &&& db_wf(final(db)@)
        }),
{
    let i = match find_task_by_id(&db.tasks, put_task_dto.task_id) {
        None => {
            return Err(StoreError::NotFound);
        },
        Some(i) => i,
    };
    let mut task = db.tasks.remove(i);
    let mut description = put_task_dto.description;
    let mut points = put_task_dto.points;
    let mut link = put_task_dto.link;
    let mut task_button_text = put_task_dto.task_button_text;

    if description.is_none() {
        description = Some(task.description);
    }
    if points.is_none() {
        points = Some(task.points);
    }
    if link.is_none() {
        link = Some(match task.link {
            Some(l) => l,
            None => String::new(),
        });
    }
    if task_button_text.is_none() {
        task_button_text = Some(match task.task_button_text {
            Some(b) => b,
            None => String::new(),
        });
    }

    task = Task {
        id: task.id,
        description: match description {
            Some(d) => d,
            None => String::new(),
        },
        points: match points {
            Some(p) => p,
            None => 0,
        },
        time_created: task.time_created,
        link,
        task_button_text,
    };
    db.tasks.insert(i, task);
    proof {
        let (m2, res) = put_task_m(
            old(db)@,
            put_task_dto.task_id as int,
            view_opt_string(put_task_dto.description),
            match put_task_dto.points {
                Some(p) => Some(p as int),
                None => None,
            },
            view_opt_string(put_task_dto.link),
            view_opt_string(put_task_dto.task_button_text),
        );
        assert(db@.tasks =~~= m2.tasks);
        assert(db@ =~= m2);
        assert forall|a: int|
            0 <= a < db@.tasks.len() implies 1 <= (#[trigger] db@.tasks[a]).id < db@.next_task_id
            && 0 <= db@.tasks[a].points by {
            assert(1 <= old(db)@.tasks[a].id < old(db)@.next_task_id);
            assert(0 <= old(db)@.tasks[a].points);
        }
        assert forall|a: int, b: int|
            0 <= a < b < db@.tasks.len() implies db@.tasks[a].id != db@.tasks[b].id by {
            assert(old(db)@.tasks[a].id != old(db)@.tasks[b].id);
        }
        assert(tasks_wf(db@.tasks, db@.next_task_id));
    }
    Ok(())
}

} // verus!
