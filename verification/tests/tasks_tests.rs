use referral_points::db::model::StoreError;
use referral_points::db::store::Database;
use referral_points::db::tasks::{
    _create_task, _delete_task, _get_points_for_task, _get_tasks, _put_task,
};
use referral_points::jwt::Claims;
use referral_points::models::dtos::{CreateTaskDTO, DeleteTaskDTO, PutTaskDTO};

fn task_dto(description: &str, points: i32, link: Option<&str>) -> CreateTaskDTO {
    CreateTaskDTO {
        description: description.to_string(),
        points,
        task_button_text: "go".to_string(),
        link: link.map(|l| l.to_string()),
    }
}

#[test]
fn created_tasks_get_sequential_ids_and_keep_their_points() {
    let mut db = Database::new();
    _create_task(&mut db, task_dto("first", 10, None)).unwrap();
    _create_task(&mut db, task_dto("second", 25, Some("https://example.invalid"))).unwrap();
    let tasks = _get_tasks(&db).unwrap();
    assert_eq!(tasks.len(), 2);
    assert_eq!(tasks[0].id, 1);
    assert_eq!(tasks[1].id, 2);
    assert_eq!(tasks[0].description, "first");
    assert_eq!(_get_points_for_task(&db, 1).unwrap(), 10);
    assert_eq!(_get_points_for_task(&db, 2).unwrap(), 25);
    assert_eq!(_get_points_for_task(&db, 3).unwrap_err(), StoreError::NotFound);
}

#[test]
fn deleting_a_task_removes_it_and_reports_missing_ones() {
    let mut db = Database::new();
    _create_task(&mut db, task_dto("t", 10, None)).unwrap();
    _delete_task(&mut db, DeleteTaskDTO { task_id: 1 }).unwrap();
    assert!(_get_tasks(&db).unwrap().is_empty());
    let r = _delete_task(&mut db, DeleteTaskDTO { task_id: 1 });
    assert_eq!(r.unwrap_err(), StoreError::NotFound);
}

#[test]
fn patching_a_task_keeps_absent_fields() {
    let mut db = Database::new();
    _create_task(&mut db, task_dto("before", 10, None)).unwrap();
    _put_task(
        &mut db,
        PutTaskDTO {
            task_id: 1,
            description: Some("after".to_string()),
            points: None,
            link: None,
            task_button_text: None,
        },
    )
    .unwrap();
    let tasks = _get_tasks(&db).unwrap();
    assert_eq!(tasks[0].description, "after");
    assert_eq!(tasks[0].points, 10);
    // a stored absent link comes out as the present empty string
    assert_eq!(tasks[0].link, Some("".to_string()));
    assert_eq!(tasks[0].task_button_text, Some("go".to_string()));

    let missing = _put_task(
        &mut db,
        PutTaskDTO {
            task_id: 9,
            description: None,
            points: None,
            link: None,
            task_button_text: None,
        },
    );
    assert_eq!(missing.unwrap_err(), StoreError::NotFound);
}

#[test]
fn claims_carry_the_aggregate_they_were_built_from() {
    let claims = Claims::new(
        7,
        "handle".to_string(),
        "wallet".to_string(),
        120,
        2,
        20,
        "code".to_string(),
        vec![1, 3],
        5,
    );
    assert_eq!(claims.id, 7);
    assert_eq!(claims.username, "handle");
    assert_eq!(claims.wallet, "wallet");
    assert_eq!(claims.total_points, 120);
    assert_eq!(claims.referrals_count, 2);
    assert_eq!(claims.referrals_points, 20);
    assert_eq!(claims.referral_code, "code");
    assert_eq!(claims.finished_tasks, vec![1, 3]);
    assert_eq!(claims.multiplier, 5);
}
