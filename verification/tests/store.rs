use app_registry::apps::{AppStatus, NewApp};
use app_registry::brokers::NewBroker;
use app_registry::db::SqliteDb;
use app_registry::error::StoreError;
use app_registry::gated::{begin, settle};
use app_registry::permission::{has_permission, load_standing};
use app_registry::users::user_exists;

fn fresh_store() -> SqliteDb {
    let db = SqliteDb::in_memory().unwrap();
    db.init().unwrap();
    db
}

fn add_user(db: &SqliteDb, name: &str, handle: &str) -> i32 {
    db.connection()
        .execute(
            "INSERT INTO users(name, username, password) VALUES (?1, ?2, 'none')",
            [name, handle],
        )
        .unwrap();
    db.connection().last_insert_rowid() as i32
}

fn add_app(db: &SqliteDb, owner: i32, title: &str, public: bool) -> i32 {
    let app = NewApp {
        author_id: owner,
        title: title.to_string(),
        description: "about".to_string(),
        weblink: "https://app.example".to_string(),
        version: "1.0.0".to_string(),
        public,
        status: AppStatus::Active,
    };
    db.apps().insert(app).unwrap() as i32
}

fn count(db: &SqliteDb, sql: &str) -> i64 {
    db.connection().query_row(sql, [], |row| row.get(0)).unwrap()
}

fn operator_rows(db: &SqliteDb, app: i32, user: i32) -> i64 {
    db.connection()
        .query_row(
            "SELECT COUNT(*) FROM operators WHERE app_id = ?1 AND user_id = ?2",
            [app, user],
            |row| row.get(0),
        )
        .unwrap()
}

#[test]
fn the_owner_has_permission() {
    let db = fresh_store();
    let a = add_user(&db, "A", "a");
    let x = add_app(&db, a, "X", false);
    assert_eq!(has_permission(db.connection(), x, a), Ok(()));
}

#[test]
fn an_operator_has_permission() {
    let db = fresh_store();
    let a = add_user(&db, "A", "a");
    let b = add_user(&db, "B", "b");
    let x = add_app(&db, a, "X", false);
    db.operators().create(x, a, b).unwrap();
    assert_eq!(has_permission(db.connection(), x, b), Ok(()));
}

#[test]
fn nobody_else_has_permission() {
    let db = fresh_store();
    let a = add_user(&db, "A", "a");
    let b = add_user(&db, "B", "b");
    let c = add_user(&db, "C", "c");
    let x = add_app(&db, a, "X", true);
    let y = add_app(&db, c, "Y", true);
    db.operators().create(y, c, b).unwrap();
    assert_eq!(has_permission(db.connection(), x, b), Err(StoreError::PermissionDenied));
    assert_eq!(has_permission(db.connection(), x, c), Err(StoreError::PermissionDenied));
    assert_eq!(has_permission(db.connection(), x, 999), Err(StoreError::PermissionDenied));
    assert_eq!(has_permission(db.connection(), 999, a), Err(StoreError::PermissionDenied));
}

#[test]
fn the_standing_holds_the_owner_and_the_operator_rows() {
    let db = fresh_store();
    let a = add_user(&db, "A", "a");
    let b = add_user(&db, "B", "b");
    let x = add_app(&db, a, "X", false);
    let row = db.operators().create(x, a, b).unwrap();
    let standing = load_standing(db.connection(), x).unwrap();
    assert_eq!(standing.app_id, x);
    assert_eq!(standing.owner, Some(a));
    assert_eq!(standing.operators.len(), 1);
    assert_eq!(standing.operators[0].id, row.id);
    assert_eq!(standing.operators[0].user_id, b);
    let nothing = load_standing(db.connection(), 999).unwrap();
    assert_eq!(nothing.owner, None);
    assert!(nothing.operators.is_empty());
}

#[test]
fn a_store_without_tables_is_a_storage_failure() {
    let db = SqliteDb::in_memory().unwrap();
    assert_eq!(has_permission(db.connection(), 1, 1), Err(StoreError::StorageFailure));
    assert_eq!(user_exists(db.connection(), 1), Err(StoreError::StorageFailure));
    assert_eq!(db.apps().select_all().err(), Some(StoreError::StorageFailure));
    assert_eq!(db.operators().delete(1, 1, 1), Err(StoreError::StorageFailure));
    assert_eq!(db.app_users().for_app(1, 1).err(), Some(StoreError::StorageFailure));
}

#[test]
fn init_twice_keeps_what_is_stored() {
    let db = fresh_store();
    let a = add_user(&db, "A", "a");
    db.init().unwrap();
    assert_eq!(user_exists(db.connection(), a), Ok(()));
}

#[test]
fn user_exists_tells_who_is_there() {
    let db = fresh_store();
    let a = add_user(&db, "A", "a");
    assert_eq!(user_exists(db.connection(), a), Ok(()));
    assert_eq!(user_exists(db.connection(), a + 1), Err(StoreError::NotFound));
}

#[test]
fn operator_add_then_remove_leaves_no_row() {
    let db = fresh_store();
    let a = add_user(&db, "A", "a");
    let b = add_user(&db, "B", "b");
    let x = add_app(&db, a, "X", false);
    let operator = db.operators().create(x, a, b).unwrap();
    assert_eq!(operator.app_id, x);
    assert_eq!(operator.user_id, b);
    assert_eq!(operator.name, "B");
    assert_eq!(operator.username, "b");
    assert_eq!(operator_rows(&db, x, b), 1);
    assert_eq!(db.operators().delete(x, a, operator.id), Ok(1));
    assert_eq!(operator_rows(&db, x, b), 0);
    assert_eq!(has_permission(db.connection(), x, b), Err(StoreError::PermissionDenied));
}

#[test]
fn an_operator_cannot_remove_an_operator() {
    let db = fresh_store();
    let a = add_user(&db, "A", "a");
    let b = add_user(&db, "B", "b");
    let c = add_user(&db, "C", "c");
    let x = add_app(&db, a, "X", false);
    let row_b = db.operators().create(x, a, b).unwrap();
    let row_c = db.operators().create(x, a, c).unwrap();
    assert_eq!(has_permission(db.connection(), x, b), Ok(()));
    assert_eq!(db.operators().delete(x, b, row_c.id), Err(StoreError::NotFound));
    assert_eq!(db.operators().delete(x, b, row_b.id), Err(StoreError::NotFound));
    assert_eq!(operator_rows(&db, x, b), 1);
    assert_eq!(operator_rows(&db, x, c), 1);
}

#[test]
fn removing_an_operator_needs_the_right_app_and_row() {
    let db = fresh_store();
    let a = add_user(&db, "A", "a");
    let b = add_user(&db, "B", "b");
    let x = add_app(&db, a, "X", false);
    let y = add_app(&db, a, "Y", false);
    let row = db.operators().create(x, a, b).unwrap();
    assert_eq!(db.operators().delete(y, a, row.id), Err(StoreError::NotFound));
    assert_eq!(db.operators().delete(x, a, row.id + 100), Err(StoreError::NotFound));
    assert_eq!(db.operators().delete(999, a, row.id), Err(StoreError::NotFound));
    assert_eq!(operator_rows(&db, x, b), 1);
    assert_eq!(db.operators().delete(x, a, row.id), Ok(1));
    assert_eq!(db.operators().delete(x, a, row.id), Err(StoreError::NotFound));
}

#[test]
fn an_operator_may_subscribe_users_but_not_add_operators() {
    let db = fresh_store();
    let a = add_user(&db, "A", "a");
    let b = add_user(&db, "B", "b");
    let c = add_user(&db, "C", "c");
    let x = add_app(&db, a, "X", false);
    db.operators().create(x, a, b).unwrap();
    let subscribed = db.app_users().create(x, b, c);
    assert!(subscribed.is_ok());
    assert_eq!(db.operators().create(x, b, c).err(), Some(StoreError::PermissionDenied));
    assert_eq!(operator_rows(&db, x, c), 0);
    assert!(db.operators().create(x, a, c).is_ok());
    assert_eq!(operator_rows(&db, x, c), 1);
}

#[test]
fn a_stranger_cannot_add_an_operator() {
    let db = fresh_store();
    let a = add_user(&db, "A", "a");
    let b = add_user(&db, "B", "b");
    let x = add_app(&db, a, "X", true);
    assert_eq!(db.operators().create(x, b, b).err(), Some(StoreError::PermissionDenied));
    assert_eq!(db.operators().create(999, a, b).err(), Some(StoreError::PermissionDenied));
    assert_eq!(count(&db, "SELECT COUNT(*) FROM operators"), 0);
}

#[test]
fn an_operator_has_to_be_a_user() {
    let db = fresh_store();
    let a = add_user(&db, "A", "a");
    let x = add_app(&db, a, "X", false);
    assert_eq!(db.operators().create(x, a, 999).err(), Some(StoreError::NotFound));
    assert_eq!(count(&db, "SELECT COUNT(*) FROM operators"), 0);
}

#[test]
fn adding_the_same_operator_twice_gives_one_row() {
    let db = fresh_store();
    let a = add_user(&db, "A", "a");
    let b = add_user(&db, "B", "b");
    let x = add_app(&db, a, "X", false);
    let first = db.operators().create(x, a, b);
    let second = db.operators().create(x, a, b);
    assert!(first.is_ok());
    assert_eq!(second.err(), Some(StoreError::AlreadyExists));
    assert_eq!(operator_rows(&db, x, b), 1);
}

#[test]
fn operators_are_listed_for_owner_and_operators() {
    let db = fresh_store();
    let a = add_user(&db, "A", "a");
    let b = add_user(&db, "B", "b");
    let c = add_user(&db, "C", "c");
    let d = add_user(&db, "D", "d");
    let x = add_app(&db, a, "X", false);
    let y = add_app(&db, a, "Y", false);
    db.operators().create(x, a, b).unwrap();
    db.operators().create(x, a, c).unwrap();
    db.operators().create(y, a, d).unwrap();
    let seen_by_owner = db.operators().for_app(x, a).unwrap();
    assert_eq!(seen_by_owner.len(), 2);
    assert!(seen_by_owner.iter().all(|o| o.app_id == x));
    let mut handles: Vec<String> = seen_by_owner.into_iter().map(|o| o.username).collect();
    handles.sort();
    assert_eq!(handles, vec!["b".to_string(), "c".to_string()]);
    assert_eq!(db.operators().for_app(x, b).unwrap().len(), 2);
    assert_eq!(db.operators().for_app(x, d).err(), Some(StoreError::PermissionDenied));
}

#[test]
fn a_private_app_is_hidden_until_it_is_public() {
    let db = fresh_store();
    let a = add_user(&db, "A", "a");
    let b = add_user(&db, "B", "b");
    let x = add_app(&db, a, "X", false);
    assert!(db.apps().by_id_for_user(x, b).unwrap().is_none());
    let own = db.apps().by_id_for_user(x, a).unwrap().unwrap();
    assert_eq!(own.title, "X");
    assert_eq!(own.author_id, a);
    db.connection().execute("UPDATE apps SET public = 1 WHERE id = ?1", [x]).unwrap();
    let shown = db.apps().by_id_for_user(x, b).unwrap().unwrap();
    assert_eq!(shown.title, "X");
    assert!(shown.public);
    assert_eq!(shown.status, AppStatus::Active);
}

#[test]
fn an_app_that_is_not_there_is_not_found() {
    let db = fresh_store();
    let a = add_user(&db, "A", "a");
    assert!(db.apps().by_id_for_user(5, a).unwrap().is_none());
    assert!(db.apps().by_id(5).unwrap().is_none());
    assert_eq!(db.apps().by_id(usize::MAX).err(), Some(StoreError::StorageFailure));
    assert!(db.apps().by_id(i64::MAX as usize).unwrap().is_none());
}

#[test]
fn by_id_shows_private_apps_too() {
    let db = fresh_store();
    let a = add_user(&db, "A", "a");
    let x = add_app(&db, a, "X", false);
    let app = db.apps().by_id(x as usize).unwrap().unwrap();
    assert_eq!(app.title, "X");
    assert_eq!(app.description, "about");
    assert_eq!(app.weblink, "https://app.example");
    assert_eq!(app.version, "1.0.0");
    assert!(!app.public);
}

#[test]
fn an_app_without_an_owner_is_refused_and_not_stored() {
    let db = fresh_store();
    let app = NewApp {
        author_id: 77,
        title: "Orphan".to_string(),
        description: String::new(),
        weblink: String::new(),
        version: String::new(),
        public: true,
        status: AppStatus::Active,
    };
    assert_eq!(db.apps().insert(app), Err(StoreError::ForeignKeyViolation));
    assert_eq!(count(&db, "SELECT COUNT(*) FROM apps"), 0);
    assert!(db.apps().select_all().unwrap().is_empty());
}

#[test]
fn insert_gives_the_id_of_the_new_app() {
    let db = fresh_store();
    let a = add_user(&db, "A", "a");
    let x = add_app(&db, a, "X", false);
    let y = add_app(&db, a, "Y", true);
    assert_ne!(x, y);
    assert_eq!(db.apps().by_id(y as usize).unwrap().unwrap().title, "Y");
    assert_eq!(count(&db, "SELECT COUNT(*) FROM apps"), 2);
}

#[test]
fn every_status_is_stored_and_read_back() {
    let db = fresh_store();
    let a = add_user(&db, "A", "a");
    for status in [AppStatus::Active, AppStatus::Passive, AppStatus::Stopped, AppStatus::Blocked] {
        let app = NewApp {
            author_id: a,
            title: "S".to_string(),
            description: String::new(),
            weblink: String::new(),
            version: String::new(),
            public: false,
            status,
        };
        let id = db.apps().insert(app).unwrap();
        assert_eq!(db.apps().by_id(id).unwrap().unwrap().status, status);
    }
}

#[test]
fn a_stored_status_out_of_range_is_a_storage_failure() {
    let db = fresh_store();
    let a = add_user(&db, "A", "a");
    let x = add_app(&db, a, "X", true);
    db.connection().execute("UPDATE apps SET status = 9 WHERE id = ?1", [x]).unwrap();
    assert_eq!(db.apps().select_all().err(), Some(StoreError::StorageFailure));
    assert_eq!(db.apps().by_id_for_user(x, a).err(), Some(StoreError::StorageFailure));
}

#[test]
fn all_apps_are_listed_whatever_their_visibility() {
    let db = fresh_store();
    let a = add_user(&db, "A", "a");
    let x = add_app(&db, a, "Atlas", false);
    let y = add_app(&db, a, "Beacon", true);
    let apps = db.apps().select_all().unwrap();
    assert_eq!(apps.len(), 2);
    let mut seen: Vec<(usize, usize, String, bool)> =
        apps.into_iter().map(|e| (e.id, e.author, e.title, e.public)).collect();
    seen.sort();
    let mut expected = vec![
        (x as usize, a as usize, "Atlas".to_string(), false),
        (y as usize, a as usize, "Beacon".to_string(), true),
    ];
    expected.sort();
    assert_eq!(seen, expected);
}

#[test]
fn apps_are_found_by_a_part_of_their_title() {
    let db = fresh_store();
    let a = add_user(&db, "A", "a");
    add_app(&db, a, "Atlas", false);
    add_app(&db, a, "Beacon", true);
    add_app(&db, a, "Flatland", true);
    let found = db.apps().search_by_name("tla".to_string()).unwrap();
    let mut titles: Vec<String> = found.into_iter().map(|e| e.title).collect();
    titles.sort();
    assert_eq!(titles, vec!["Atlas".to_string(), "Flatland".to_string()]);
    assert!(db.apps().search_by_name("zzz".to_string()).unwrap().is_empty());
    assert_eq!(db.apps().search_by_name(String::new()).unwrap().len(), 3);
}

#[test]
fn subscribers_are_created_listed_and_deleted() {
    let db = fresh_store();
    let a = add_user(&db, "A", "a");
    let c = add_user(&db, "C", "c");
    let x = add_app(&db, a, "X", false);
    let id = db.app_users().create(x, a, c).unwrap();
    let listed = db.app_users().for_app(x, a).unwrap();
    assert_eq!(listed.len(), 1);
    assert_eq!(listed[0].id, id);
    assert_eq!(listed[0].app_id, x);
    assert_eq!(listed[0].user_id, c);
    assert_eq!(listed[0].name, "C");
    assert_eq!(listed[0].username, "c");
    assert_eq!(db.app_users().delete(x, a, id), Ok(1));
    assert!(db.app_users().for_app(x, a).unwrap().is_empty());
    assert_eq!(db.app_users().delete(x, a, id), Err(StoreError::NotFound));
}

#[test]
fn subscribers_need_permission() {
    let db = fresh_store();
    let a = add_user(&db, "A", "a");
    let b = add_user(&db, "B", "b");
    let c = add_user(&db, "C", "c");
    let x = add_app(&db, a, "X", true);
    let id = db.app_users().create(x, a, c).unwrap();
    assert_eq!(db.app_users().create(x, b, b), Err(StoreError::PermissionDenied));
    assert_eq!(db.app_users().for_app(x, b).err(), Some(StoreError::PermissionDenied));
    assert_eq!(db.app_users().delete(x, b, id), Err(StoreError::PermissionDenied));
    assert_eq!(count(&db, "SELECT COUNT(*) FROM app_users"), 1);
}

#[test]
fn a_subscriber_pair_is_unique_and_refers_to_a_user() {
    let db = fresh_store();
    let a = add_user(&db, "A", "a");
    let c = add_user(&db, "C", "c");
    let x = add_app(&db, a, "X", false);
    db.app_users().create(x, a, c).unwrap();
    assert_eq!(db.app_users().create(x, a, c), Err(StoreError::AlreadyExists));
    assert_eq!(db.app_users().create(x, a, 999), Err(StoreError::ForeignKeyViolation));
    assert_eq!(count(&db, "SELECT COUNT(*) FROM app_users"), 1);
}

#[test]
fn a_subscriber_of_another_app_is_not_deleted() {
    let db = fresh_store();
    let a = add_user(&db, "A", "a");
    let b = add_user(&db, "B", "b");
    let c = add_user(&db, "C", "c");
    let x = add_app(&db, a, "X", false);
    let y = add_app(&db, b, "Y", false);
    let row_in_y = db.app_users().create(y, b, c).unwrap();
    assert_eq!(db.app_users().delete(x, a, row_in_y), Err(StoreError::NotFound));
    assert_eq!(count(&db, "SELECT COUNT(*) FROM app_users"), 1);
    assert_eq!(db.app_users().delete(y, b, row_in_y), Ok(1));
    assert_eq!(count(&db, "SELECT COUNT(*) FROM app_users"), 0);
}

#[test]
fn brokers_are_created_listed_and_deleted() {
    let db = fresh_store();
    let a = add_user(&db, "A", "a");
    let b = add_user(&db, "B", "b");
    let x = add_app(&db, a, "X", false);
    db.operators().create(x, a, b).unwrap();
    let broker = NewBroker { name: "mq".to_string(), description: "queue".to_string(), stopped: true };
    let id = db.brokers().create(x, b, broker).unwrap();
    let listed = db.brokers().for_app(x, a).unwrap();
    assert_eq!(listed.len(), 1);
    assert_eq!(listed[0].id, id);
    assert_eq!(listed[0].app_id, x);
    assert_eq!(listed[0].name, "mq");
    assert_eq!(listed[0].description, "queue");
    assert_eq!(listed[0].version, "0.0.0");
    assert!(!listed[0].active);
    assert!(listed[0].stopped);
    assert_eq!(db.brokers().delete(x, b, id), Ok(1));
    assert!(db.brokers().for_app(x, a).unwrap().is_empty());
}

#[test]
fn brokers_need_permission() {
    let db = fresh_store();
    let a = add_user(&db, "A", "a");
    let b = add_user(&db, "B", "b");
    let x = add_app(&db, a, "X", true);
    let broker = NewBroker { name: "mq".to_string(), description: String::new(), stopped: false };
    assert_eq!(db.brokers().create(x, b, broker), Err(StoreError::PermissionDenied));
    assert_eq!(db.brokers().for_app(x, b).err(), Some(StoreError::PermissionDenied));
    assert_eq!(db.brokers().delete(x, b, 1), Err(StoreError::PermissionDenied));
    assert_eq!(count(&db, "SELECT COUNT(*) FROM brokers"), 0);
}

#[test]
fn a_broker_of_another_app_is_not_deleted() {
    let db = fresh_store();
    let a = add_user(&db, "A", "a");
    let b = add_user(&db, "B", "b");
    let x = add_app(&db, a, "X", false);
    let y = add_app(&db, b, "Y", false);
    let broker = NewBroker { name: "mq".to_string(), description: String::new(), stopped: false };
    let in_y = db.brokers().create(y, b, broker).unwrap();
    assert_eq!(db.brokers().delete(x, a, in_y), Err(StoreError::NotFound));
    assert_eq!(count(&db, "SELECT COUNT(*) FROM brokers"), 1);
    assert_eq!(db.brokers().delete(x, a, in_y + 50), Err(StoreError::NotFound));
}

#[test]
fn a_failure_inside_a_transaction_is_rolled_back() {
    let db = fresh_store();
    let a = add_user(&db, "A", "a");
    let tx = begin(db.connection()).unwrap();
    tx.execute("INSERT INTO users(name, username, password) VALUES ('Z', 'z', 'none')", []).unwrap();
    assert!(!db.connection().is_autocommit());
    let failed: Result<i32, StoreError> = Err(StoreError::NotFound);
    assert_eq!(settle(tx, failed), Err(StoreError::NotFound));
    assert_eq!(count(&db, "SELECT COUNT(*) FROM users"), 1);
    assert!(db.connection().is_autocommit());
    assert_eq!(user_exists(db.connection(), a), Ok(()));
}

#[test]
fn a_success_inside_a_transaction_is_committed() {
    let db = fresh_store();
    let tx = begin(db.connection()).unwrap();
    tx.execute("INSERT INTO users(name, username, password) VALUES ('Z', 'z', 'none')", []).unwrap();
    assert_eq!(settle(tx, Ok(5)), Ok(5));
    assert_eq!(count(&db, "SELECT COUNT(*) FROM users"), 1);
    assert!(db.connection().is_autocommit());
}

#[test]
fn no_transaction_stays_open_after_an_operation() {
    let db = fresh_store();
    let a = add_user(&db, "A", "a");
    let b = add_user(&db, "B", "b");
    let x = add_app(&db, a, "X", false);
    assert!(db.operators().create(x, b, b).is_err());
    assert!(db.connection().is_autocommit());
    assert!(db.operators().create(x, a, b).is_ok());
    assert!(db.connection().is_autocommit());
    assert!(db.app_users().delete(x, a, 12).is_err());
    assert!(db.connection().is_autocommit());
}

#[test]
fn a_store_in_a_file_keeps_nothing_from_memory() {
    let opened = SqliteDb::new(":memory:".to_string());
    assert!(opened.is_ok());
    let db = opened.unwrap();
    db.init().unwrap();
    assert_eq!(count(&db, "SELECT COUNT(*) FROM users"), 0);
}

#[test]
fn a_transaction_that_is_dropped_is_rolled_back() {
    let db = fresh_store();
    {
        let tx = begin(db.connection()).unwrap();
        tx.execute("INSERT INTO users(name, username, password) VALUES ('Z', 'z', 'none')", [])
            .unwrap();
    }
    assert_eq!(count(&db, "SELECT COUNT(*) FROM users"), 0);
    assert!(db.connection().is_autocommit());
}

#[test]
fn a_second_transaction_cannot_be_opened_inside_one() {
    let db = fresh_store();
    let tx = begin(db.connection()).unwrap();
    assert_eq!(begin(db.connection()).err(), Some(StoreError::StorageFailure));
    assert_eq!(settle(tx, Ok(())), Ok(()));
    assert!(begin(db.connection()).is_ok());
}
