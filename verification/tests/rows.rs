use app_registry::app_users::{app_users_from_rows, AppUser};
use app_registry::apps::{apps_from_rows, first_app, status_at, AppEntity, AppStatus, NewApp};
use app_registry::brokers::{brokers_from_rows, Broker};
use app_registry::error::StoreError;
use app_registry::operators::{created_operator, operators_from_rows, relation_with_id, Operator};
use app_registry::permission::{keyed_id, relations_from_rows, Relation};
use app_registry::rows::{flag_at, flag_to_number, id_at, index_at, int_at, text_at};
use app_registry::sqlite::Cell;
use app_registry::users::{
    first_user, user_in_rows, user_named, user_views_from_rows, User, UserView,
};

fn text(s: &str) -> Cell {
    Cell::Text(s.to_string())
}

fn member_row(id: i64, app_id: i64, user_id: i64) -> Vec<Cell> {
    vec![Cell::Integer(id), Cell::Integer(app_id), Cell::Integer(user_id), text("Ada"), text("ada")]
}

fn app_row(status: i64) -> Vec<Cell> {
    vec![
        Cell::Integer(4),
        Cell::Integer(1),
        text("Atlas"),
        text("maps"),
        text("https://atlas.example"),
        text("1.2.0"),
        Cell::Integer(1),
        Cell::Integer(status),
    ]
}

#[test]
fn columns_are_read_by_their_kind() {
    let row = vec![Cell::Integer(5), text("five"), Cell::Null, Cell::Real, Cell::Blob(vec![1, 2])];
    assert_eq!(int_at(&row, 0), Some(5));
    assert_eq!(id_at(&row, 0), Some(5));
    assert_eq!(index_at(&row, 0), Some(5));
    assert_eq!(flag_at(&row, 0), Some(true));
    assert_eq!(text_at(&row, 1), Some("five".to_string()));
    assert_eq!(int_at(&row, 1), None);
    assert_eq!(text_at(&row, 0), None);
    assert_eq!(int_at(&row, 2), None);
    assert_eq!(text_at(&row, 2), None);
    assert_eq!(int_at(&row, 3), None);
    assert_eq!(int_at(&row, 4), None);
    assert_eq!(text_at(&row, 4), None);
}

#[test]
fn a_column_that_is_not_there_reads_as_nothing() {
    let row = vec![Cell::Integer(5)];
    assert_eq!(int_at(&row, 1), None);
    assert_eq!(text_at(&row, 1), None);
    assert_eq!(id_at(&row, 7), None);
    let empty: Vec<Cell> = vec![];
    assert_eq!(int_at(&empty, 0), None);
}

#[test]
fn identifiers_have_to_fit() {
    assert_eq!(id_at(&vec![Cell::Integer(2147483647)], 0), Some(2147483647));
    assert_eq!(id_at(&vec![Cell::Integer(2147483648)], 0), None);
    assert_eq!(id_at(&vec![Cell::Integer(-2147483648)], 0), Some(-2147483648));
    assert_eq!(id_at(&vec![Cell::Integer(-2147483649)], 0), None);
    assert_eq!(index_at(&vec![Cell::Integer(-1)], 0), None);
    assert_eq!(index_at(&vec![Cell::Integer(0)], 0), Some(0));
}

#[test]
fn a_flag_is_true_unless_zero() {
    assert_eq!(flag_at(&vec![Cell::Integer(0)], 0), Some(false));
    assert_eq!(flag_at(&vec![Cell::Integer(1)], 0), Some(true));
    assert_eq!(flag_at(&vec![Cell::Integer(-3)], 0), Some(true));
    assert_eq!(flag_at(&vec![text("yes")], 0), None);
    assert_eq!(flag_to_number(true), 1);
    assert_eq!(flag_to_number(false), 0);
}

#[test]
fn a_relation_row_is_decoded() {
    let row = vec![Cell::Integer(1), Cell::Integer(7), Cell::Integer(3)];
    assert_eq!(Relation::from_row(&row), Ok(Relation { id: 1, app_id: 7, user_id: 3 }));
}

#[test]
fn a_short_or_mistyped_relation_row_is_a_storage_failure() {
    let short = vec![Cell::Integer(1), Cell::Integer(7)];
    assert_eq!(Relation::from_row(&short), Err(StoreError::StorageFailure));
    let mistyped = vec![Cell::Integer(1), text("7"), Cell::Integer(3)];
    assert_eq!(Relation::from_row(&mistyped), Err(StoreError::StorageFailure));
}

#[test]
fn relation_rows_are_decoded_in_order() {
    let rows = vec![
        vec![Cell::Integer(1), Cell::Integer(7), Cell::Integer(3)],
        vec![Cell::Integer(2), Cell::Integer(7), Cell::Integer(5)],
    ];
    assert_eq!(
        relations_from_rows(&rows),
        Ok(vec![Relation { id: 1, app_id: 7, user_id: 3 }, Relation { id: 2, app_id: 7, user_id: 5 }])
    );
    assert_eq!(relations_from_rows(&vec![]), Ok(vec![]));
}

#[test]
fn one_unreadable_relation_row_fails_the_list() {
    let rows = vec![
        vec![Cell::Integer(1), Cell::Integer(7), Cell::Integer(3)],
        vec![Cell::Integer(2), Cell::Null, Cell::Integer(5)],
    ];
    assert_eq!(relations_from_rows(&rows), Err(StoreError::StorageFailure));
}

#[test]
fn a_lookup_by_id_gives_what_the_row_of_that_id_holds() {
    assert_eq!(keyed_id(&vec![], 4), Ok(None));
    assert_eq!(keyed_id(&vec![vec![Cell::Integer(4), Cell::Integer(9)]], 4), Ok(Some(9)));
    assert_eq!(
        keyed_id(&vec![vec![Cell::Integer(4), Cell::Integer(9)], vec![Cell::Integer(4), Cell::Integer(10)]], 4),
        Ok(Some(9))
    );
    assert_eq!(
        keyed_id(&vec![vec![Cell::Integer(5), Cell::Integer(9)]], 4),
        Err(StoreError::StorageFailure)
    );
    assert_eq!(keyed_id(&vec![vec![Cell::Integer(4), Cell::Null]], 4), Err(StoreError::StorageFailure));
    assert_eq!(keyed_id(&vec![vec![Cell::Integer(4)]], 4), Err(StoreError::StorageFailure));
}

#[test]
fn a_lookup_of_a_relation_gives_the_row_of_that_id() {
    assert_eq!(relation_with_id(&vec![], 1), Ok(None));
    assert_eq!(
        relation_with_id(&vec![vec![Cell::Integer(1), Cell::Integer(7), Cell::Integer(3)]], 1),
        Ok(Some(Relation { id: 1, app_id: 7, user_id: 3 }))
    );
    assert_eq!(
        relation_with_id(&vec![vec![Cell::Integer(2), Cell::Integer(7), Cell::Integer(3)]], 1),
        Err(StoreError::StorageFailure)
    );
    assert_eq!(relation_with_id(&vec![vec![Cell::Integer(1)]], 1), Err(StoreError::StorageFailure));
}

#[test]
fn a_lookup_of_a_user_tells_whether_the_user_is_there() {
    assert_eq!(user_in_rows(&vec![], 3), Err(StoreError::NotFound));
    assert_eq!(user_in_rows(&vec![vec![Cell::Integer(3)]], 3), Ok(()));
    assert_eq!(user_in_rows(&vec![vec![Cell::Integer(4)]], 3), Err(StoreError::StorageFailure));
    assert_eq!(user_in_rows(&vec![vec![text("3")]], 3), Err(StoreError::StorageFailure));
}

#[test]
fn an_operator_row_is_decoded() {
    let operator = Operator::from_row(&member_row(1, 7, 3)).unwrap();
    assert_eq!(operator.id, 1);
    assert_eq!(operator.app_id, 7);
    assert_eq!(operator.user_id, 3);
    assert_eq!(operator.name, "Ada");
    assert_eq!(operator.username, "ada");
    assert!(Operator::from_row(&vec![Cell::Integer(1)]).is_err());
}

#[test]
fn operator_rows_of_another_app_fail_the_list() {
    let own = vec![member_row(1, 7, 3), member_row(2, 7, 5)];
    let operators = operators_from_rows(&own, 7).unwrap();
    assert_eq!(operators.len(), 2);
    assert_eq!(operators[1].user_id, 5);
    let mixed = vec![member_row(1, 7, 3), member_row(2, 8, 5)];
    assert_eq!(operators_from_rows(&mixed, 7).err(), Some(StoreError::StorageFailure));
}

#[test]
fn the_operator_read_back_has_to_be_the_one_inserted() {
    let rows = vec![member_row(4, 7, 3)];
    let operator = created_operator(&rows, 4, 7, 3).unwrap();
    assert_eq!(operator.id, 4);
    assert_eq!(operator.name, "Ada");
    assert_eq!(created_operator(&rows, 5, 7, 3).err(), Some(StoreError::StorageFailure));
    assert_eq!(created_operator(&rows, 4, 7, 5).err(), Some(StoreError::StorageFailure));
    assert_eq!(created_operator(&rows, 4, 8, 3).err(), Some(StoreError::StorageFailure));
    assert_eq!(created_operator(&vec![], 4, 7, 3).err(), Some(StoreError::StorageFailure));
}

#[test]
fn a_subscriber_row_is_decoded() {
    let subscriber = AppUser::from_row(&member_row(1, 7, 3)).unwrap();
    assert_eq!(subscriber.id, 1);
    assert_eq!(subscriber.app_id, 7);
    assert_eq!(subscriber.user_id, 3);
    assert_eq!(subscriber.name, "Ada");
    assert_eq!(subscriber.username, "ada");
    let subscribers = app_users_from_rows(&vec![member_row(1, 7, 3)], 7).unwrap();
    assert_eq!(subscribers.len(), 1);
    assert_eq!(
        app_users_from_rows(&vec![member_row(1, 8, 3)], 7).err(),
        Some(StoreError::StorageFailure)
    );
}

#[test]
fn a_broker_row_is_decoded() {
    let row = vec![
        Cell::Integer(2),
        Cell::Integer(7),
        text("mq"),
        text("queue"),
        text("0.0.0"),
        Cell::Integer(0),
        Cell::Integer(1),
    ];
    let broker = Broker::from_row(&row).unwrap();
    assert_eq!(broker.id, 2);
    assert_eq!(broker.app_id, 7);
    assert_eq!(broker.name, "mq");
    assert_eq!(broker.description, "queue");
    assert_eq!(broker.version, "0.0.0");
    assert!(!broker.active);
    assert!(broker.stopped);
    assert_eq!(brokers_from_rows(&vec![row], 8).err(), Some(StoreError::StorageFailure));
}

#[test]
fn an_app_row_is_decoded() {
    let app = AppEntity::from_row(&app_row(2)).unwrap();
    assert_eq!(app.id, 4);
    assert_eq!(app.author, 1);
    assert_eq!(app.title, "Atlas");
    assert_eq!(app.description, "maps");
    assert_eq!(app.weblink, "https://atlas.example");
    assert_eq!(app.version, "1.2.0");
    assert!(app.public);
    assert_eq!(app.status, AppStatus::Stopped);
}

#[test]
fn an_app_row_with_a_status_out_of_range_is_a_storage_failure() {
    assert_eq!(AppEntity::from_row(&app_row(4)).err(), Some(StoreError::StorageFailure));
    assert_eq!(AppEntity::from_row(&app_row(-1)).err(), Some(StoreError::StorageFailure));
    assert_eq!(apps_from_rows(&vec![app_row(0), app_row(9)]).err(), Some(StoreError::StorageFailure));
    assert_eq!(status_at(&vec![Cell::Integer(3)], 0), Some(AppStatus::Blocked));
    assert_eq!(status_at(&vec![Cell::Integer(4)], 0), None);
}

#[test]
fn app_details_are_decoded() {
    let row = vec![
        Cell::Integer(1),
        text("Atlas"),
        text("maps"),
        text("https://atlas.example"),
        text("1.2.0"),
        Cell::Integer(0),
        Cell::Integer(3),
    ];
    let app = NewApp::from_row(&row).unwrap();
    assert_eq!(app.author_id, 1);
    assert_eq!(app.title, "Atlas");
    assert!(!app.public);
    assert_eq!(app.status, AppStatus::Blocked);
    assert!(first_app(&vec![]).unwrap().is_none());
    assert_eq!(first_app(&vec![row]).unwrap().map(|a| a.version), Some("1.2.0".to_string()));
    assert_eq!(first_app(&vec![vec![Cell::Null]]).err(), Some(StoreError::StorageFailure));
}

#[test]
fn user_rows_are_decoded() {
    let row = vec![Cell::Integer(3), text("Ada"), text("ada"), text("$2b$10$hash")];
    let user = User::from_row(&row).unwrap();
    assert_eq!(user.id, 3);
    assert_eq!(user.name, "Ada");
    assert_eq!(user.username, "ada");
    assert_eq!(user.password, "$2b$10$hash");
    assert!(first_user(&vec![]).unwrap().is_none());
    assert_eq!(first_user(&vec![row]).unwrap().map(|u| u.id), Some(3));
    let view = UserView::from_row(&vec![Cell::Integer(3), text("Ada"), text("ada")]).unwrap();
    assert_eq!(view.id, 3);
    assert_eq!(view.username, "ada");
    assert_eq!(
        user_views_from_rows(&vec![vec![Cell::Integer(-3), text("Ada"), text("ada")]]).err(),
        Some(StoreError::StorageFailure)
    );
}

#[test]
fn a_lookup_by_handle_gives_the_user_of_that_handle() {
    let row = vec![Cell::Integer(3), text("Ada"), text("ada"), text("$2b$10$hash")];
    assert_eq!(user_named(&vec![row], "ada").unwrap().map(|u| u.id), Some(3));
    let other = vec![Cell::Integer(3), text("Ada"), text("ada"), text("$2b$10$hash")];
    assert_eq!(user_named(&vec![other], "eve").err(), Some(StoreError::StorageFailure));
    assert!(user_named(&vec![], "ada").unwrap().is_none());
    assert_eq!(user_named(&vec![vec![Cell::Null]], "ada").err(), Some(StoreError::StorageFailure));
}

#[test]
fn what_is_stored_for_a_flag_or_a_status_reads_back() {
    for flag in [true, false] {
        assert_eq!(flag_at(&vec![Cell::Integer(flag_to_number(flag))], 0), Some(flag));
    }
    for status in [AppStatus::Active, AppStatus::Passive, AppStatus::Stopped, AppStatus::Blocked] {
        assert_eq!(status_at(&vec![Cell::Integer(status.ordinal() as i64)], 0), Some(status));
    }
    for id in [i32::MIN, -1, 0, 1, i32::MAX] {
        assert_eq!(id_at(&vec![Cell::Integer(id as i64)], 0), Some(id));
    }
}
