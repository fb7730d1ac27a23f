use vstd::prelude::*;

verus! {

/// Mathematical image of one task catalog row. The creation time is kept as
/// a unix timestamp in seconds.
#[verifier::ext_equal]
pub ghost struct TaskModel {
    pub id: int,
    pub description: Seq<char>,
    pub points: int,
    pub time_created: int,
    pub link: Option<Seq<char>>,
    pub task_button_text: Option<Seq<char>>,
}

/// An admin-managed task catalog entry.
#[derive(Debug)]
pub struct Task {
    pub id: i32,
    pub description: String,
    pub points: i32,
    pub time_created: i64,
    pub link: Option<String>,
    pub task_button_text: Option<String>,
}

pub open spec fn view_opt_string(o: Option<String>) -> Option<Seq<char>> {
    match o {
        Some(s) => Some(s@),
        None => None,
    }
}

impl View for Task {
    type V = TaskModel;

    open spec fn view(&self) -> TaskModel {
        TaskModel {
            id: self.id as int,
            description: self.description@,
            points: self.points as int,
            time_created: self.time_created as int,
            link: view_opt_string(self.link),
            task_button_text: view_opt_string(self.task_button_text),
        }
    }
}

/// Clones an optional string, keeping its contents.
fn clone_opt_string(o: &Option<String>) -> (r: Option<String>)
    ensures
        view_opt_string(r) == view_opt_string(*o),
{
    match o {
        Some(s) => Some(s.clone()),
        None => None,
    }
}

impl Clone for Task {
    fn clone(&self) -> (r: Self)
        ensures
            r@ == self@,
    {
        let r = Task {
            id: self.id,
            description: self.description.clone(),
            points: self.points,
            time_created: self.time_created,
            link: clone_opt_string(&self.link),
            task_button_text: clone_opt_string(&self.task_button_text),
        };
        proof {
            assert(r@ =~= self@);
        }
        r
    }
}

/// The point value of a task, as read back for crediting.
#[derive(PartialEq, Eq, Structural)]
pub struct TaskPoints {
    pub points: i32,
}

} // verus!
