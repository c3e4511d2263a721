use csb_vaccins::commands::enfant_commands::{enfant_delete, enfant_get_by_id};
use csb_vaccins::commands::user_commands::{user_get_all, user_login, user_register, user_update};
use csb_vaccins::commands::{get_database_path, init_database};
use csb_vaccins::dates::Date;
use csb_vaccins::enfant_service::{create_enfant, delete_enfant, get_all_enfants, update_enfant};
use csb_vaccins::error::DbError;
use csb_vaccins::models::{Enfant, User, Vaccination};
use csb_vaccins::schema::initialize_schema;
use csb_vaccins::store::{get_connection, initialize_db, initialize_in_memory, Database};
use csb_vaccins::user_service::{create_user, get_all_users, get_user_by_id, update_user};
use csb_vaccins::vaccination_service::create_vaccination;
use csb_vaccins::value::SqlValue;

fn set_up() -> Database {
    let mut db = Database::new();
    initialize_in_memory(&mut db).unwrap();
    initialize_schema(&mut db).unwrap();
    db
}

fn someone(code: Option<&str>) -> Enfant {
    Enfant {
        id: None,
        nom: "Rakoto".to_string(),
        prenom: "Aina".to_string(),
        code: code.map(|c| c.to_string()),
        date_naissance: Date::new(2019, 12, 31).unwrap(),
        age_premier_contact: None,
        sexe: "M".to_string(),
        nom_mere: None,
        nom_pere: None,
        domicile: None,
        fokotany: None,
        hameau: None,
        telephone: None,
        created_at: None,
        updated_at: None,
    }
}

fn user(name: &str) -> User {
    User {
        id: None,
        username: name.to_string(),
        password_hash: "h".to_string(),
        account_type: "user".to_string(),
        status: "disconnected".to_string(),
        created_at: None,
        updated_at: None,
    }
}

#[test]
fn a_closed_handle_refuses_every_operation() {
    let mut db = Database::new();
    assert!(!db.is_initialized());
    assert!(get_connection(&db).is_err());
    assert_eq!(get_all_users(&mut db), Err(DbError::NotInitialized));
    assert_eq!(create_enfant(&mut db, &someone(None)), Err(DbError::NotInitialized));
    assert_eq!(delete_enfant(&mut db, 1, None), Err(DbError::NotInitialized));
    assert_eq!(initialize_schema(&mut db), Err(DbError::NotInitialized));
    assert_eq!(user_get_all(&mut db), Err("Database not initialized".to_string()));
    assert_eq!(enfant_delete(&mut db, 1, None), Err("Database not initialized".to_string()));
}

#[test]
fn an_open_handle_has_a_connection() {
    let db = set_up();
    assert!(db.is_initialized());
    assert!(get_connection(&db).is_ok());
}

#[test]
fn a_missing_row_is_not_found() {
    let mut db = set_up();
    assert_eq!(get_user_by_id(&mut db, 99), Err(DbError::NotFound));
    assert_eq!(enfant_get_by_id(&mut db, 99), Err("Query returned no rows".to_string()));
    assert_eq!(delete_enfant(&mut db, 99, None), Err(DbError::NotFound));
    assert!(get_all_users(&mut db).unwrap().is_empty());
}

#[test]
fn an_unknown_name_cannot_log_in() {
    let mut db = set_up();
    assert_eq!(
        user_login(&mut db, "nobody".to_string(), "10.0.0.1".to_string()),
        Err("User not found".to_string())
    );
    assert_eq!(db.query("SELECT COUNT(*) FROM logins", &vec![]).unwrap()[0][0], SqlValue::Integer(0));
}

#[test]
fn an_update_needs_a_known_identifier() {
    let mut db = set_up();
    assert_eq!(update_user(&mut db, &user("alice")), Err(DbError::MissingId));
    assert_eq!(user_update(&mut db, user("alice")), Err("Record has no identifier".to_string()));
    let ghost = User { id: Some(7), ..user("alice") };
    assert_eq!(update_user(&mut db, &ghost), Err(DbError::NotFound));
    assert_eq!(update_enfant(&mut db, &someone(None)), Err(DbError::MissingId));
    let absent = Enfant { id: Some(7), ..someone(None) };
    assert_eq!(update_enfant(&mut db, &absent), Err(DbError::NotFound));
    let id = create_user(&mut db, &user("alice")).unwrap();
    let renamed = User { id: Some(id), username: "alicia".to_string(), ..user("alice") };
    assert_eq!(update_user(&mut db, &renamed), Ok(()));
    assert_eq!(get_user_by_id(&mut db, id).unwrap().username, "alicia");
}

#[test]
fn the_store_refuses_a_second_user_of_the_same_name() {
    let mut db = set_up();
    user_register(&mut db, "alice".to_string(), "h".to_string(), None).unwrap();
    match create_user(&mut db, &user("alice")) {
        Err(DbError::Store(text)) => assert!(text.contains("UNIQUE"), "{}", text),
        other => panic!("unexpected: {:?}", other),
    }
    match user_register(&mut db, "alice".to_string(), "h".to_string(), Some("nobody".to_string())) {
        Err(text) => assert!(!text.is_empty()),
        Ok(id) => panic!("unexpected: {}", id),
    }
}

#[test]
fn the_store_refuses_a_dose_for_a_child_it_does_not_have() {
    let mut db = set_up();
    let dose = Vaccination {
        id: None,
        enfant_id: 1,
        vaccin_id: 1,
        date_vaccination: Date::new(2021, 1, 2).unwrap(),
        remarque: None,
        created_at: None,
        updated_at: None,
    };
    assert!(matches!(create_vaccination(&mut db, &dose), Err(DbError::Store(_))));
}

#[test]
fn a_failed_creation_leaves_no_trace() {
    let mut db = set_up();
    create_enfant(&mut db, &someone(Some("DUP"))).unwrap();
    assert!(matches!(create_enfant(&mut db, &someone(Some("DUP"))), Err(DbError::Store(_))));
    assert_eq!(db.query("SELECT COUNT(*) FROM enfants", &vec![]).unwrap()[0][0], SqlValue::Integer(1));
    assert_eq!(db.query("SELECT COUNT(*) FROM child_history", &vec![]).unwrap()[0][0], SqlValue::Integer(1));
    let bad = Enfant { sexe: "X".to_string(), ..someone(Some("OTHER")) };
    assert!(matches!(create_enfant(&mut db, &bad), Err(DbError::Store(_))));
    assert!(create_enfant(&mut db, &someone(Some("NEXT"))).is_ok());
    assert_eq!(db.query("SELECT COUNT(*) FROM child_history", &vec![]).unwrap()[0][0], SqlValue::Integer(2));
}

#[test]
fn a_stored_date_that_is_no_date_is_malformed() {
    let mut db = set_up();
    db.execute(
        "INSERT INTO enfants (nom, prenom, code, date_naissance, sexe) VALUES ('a', 'b', 'c', 'yesterday', 'M')",
        &vec![],
    )
    .unwrap();
    assert_eq!(get_all_enfants(&mut db), Err(DbError::Malformed { column: 4 }));
    assert_eq!(enfant_get_by_id(&mut db, 1), Err("Stored value is malformed in column 4".to_string()));
}

#[test]
fn a_stored_name_that_is_missing_is_malformed() {
    let mut db = set_up();
    db.execute("CREATE TABLE loose (id INTEGER, nom TEXT)", &vec![]).unwrap();
    db.execute("INSERT INTO loose (id, nom) VALUES (1, NULL)", &vec![]).unwrap();
    let rows = db.query("SELECT id, nom, 0, 0, 0, 0, 0 FROM loose", &vec![]).unwrap();
    assert_eq!(
        csb_vaccins::record::read_row::<User>(&rows[0]),
        Err(DbError::Malformed { column: 1 })
    );
}

#[test]
fn making_ready_needs_a_directory_that_exists() {
    let mut db = Database::new();
    assert!(init_database(&mut db, "/nonexistent/surely/not/here").is_err());
    assert!(!db.is_initialized());
    assert!(matches!(initialize_db(&mut db, "/nonexistent/surely/not/here"), Err(DbError::Store(_))));
}

#[test]
fn the_path_told_is_that_of_the_store() {
    assert_eq!(get_database_path("/data/app"), Ok("/data/app/csb.db".to_string()));
    assert_eq!(get_database_path("/data/app/"), Ok("/data/app/csb.db".to_string()));
    assert_eq!(get_database_path(""), Ok("csb.db".to_string()));
}

#[test]
fn a_search_that_may_try_no_code_is_exhausted() {
    let mut db = set_up();
    assert_eq!(
        csb_vaccins::enfant_service::generate_unique_code_within(&mut db, 0),
        Err(DbError::CodesExhausted)
    );
    let code = csb_vaccins::enfant_service::generate_unique_code_within(&mut db, 1).unwrap();
    assert!(code.starts_with("CSB-"));
    assert_eq!(code.len(), 12);
    assert!(csb_vaccins::enfant_service::generate_unique_code(&mut db).is_ok());
}

fn clear(db: &mut Database) {
    for table in [
        "notifications",
        "deleted_children_log",
        "child_history",
        "vaccinations",
        "vaccin_suite",
        "vaccin_prerequis",
        "enfants",
        "vaccins",
        "hameau",
        "fokotany",
        "logins",
        "users",
    ] {
        db.execute(&format!("DROP TABLE IF EXISTS {}", table), &vec![]).unwrap();
    }
}

#[test]
fn the_store_is_kept_in_a_file_of_the_directory() {
    let mut before = Database::new();
    initialize_db(&mut before, "/tmp").unwrap();
    clear(&mut before);
    let mut db = Database::new();
    assert_eq!(init_database(&mut db, "/tmp"), Ok("Database initialized successfully".to_string()));
    assert!(db.is_initialized());
    let id = user_register(&mut db, "persistent".to_string(), "h".to_string(), None).unwrap();
    let mut again = Database::new();
    initialize_db(&mut again, "/tmp").unwrap();
    assert_eq!(get_user_by_id(&mut again, id).unwrap().username, "persistent");
    assert_eq!(get_user_by_id(&mut again, id).unwrap().status, "disconnected");
    clear(&mut again);
    assert!(matches!(get_all_users(&mut db), Err(DbError::Store(_))));
}

#[test]
fn opening_again_replaces_the_connection() {
    let mut db = set_up();
    user_register(&mut db, "alice".to_string(), "h".to_string(), None).unwrap();
    initialize_in_memory(&mut db).unwrap();
    assert!(matches!(get_all_users(&mut db), Err(DbError::Store(_))));
    initialize_schema(&mut db).unwrap();
    assert!(get_all_users(&mut db).unwrap().is_empty());
}

#[test]
fn foreign_keys_are_enforced_on_every_connection() {
    let mut db = set_up();
    let rows = db.query("PRAGMA foreign_keys", &vec![]).unwrap();
    assert_eq!(rows, vec![vec![SqlValue::Integer(1)]]);
}

#[test]
fn a_stored_vaccine_date_that_is_no_date_is_malformed() {
    let mut db = set_up();
    db.execute("INSERT INTO vaccins (nom, date_arrivee) VALUES ('A', '2024-13-40')", &vec![]).unwrap();
    db.execute("INSERT INTO vaccins (nom, date_peremption) VALUES ('B', '01/02/2024')", &vec![]).unwrap();
    db.execute("INSERT INTO vaccins (nom, date_arrivee) VALUES ('C', '2024-02-29')", &vec![]).unwrap();
    assert_eq!(
        csb_vaccins::vaccin_service::get_vaccin_by_id(&mut db, 1),
        Err(DbError::Malformed { column: 3 })
    );
    assert_eq!(
        csb_vaccins::vaccin_service::get_vaccin_by_id(&mut db, 2),
        Err(DbError::Malformed { column: 4 })
    );
    assert_eq!(
        csb_vaccins::vaccin_service::get_vaccin_by_id(&mut db, 3).unwrap().date_arrivee,
        Date::new(2024, 2, 29)
    );
    assert_eq!(
        csb_vaccins::vaccin_service::get_all_vaccins(&mut db),
        Err(DbError::Malformed { column: 3 })
    );
    assert_eq!(
        csb_vaccins::commands::vaccin_commands::vaccin_get_by_id(&mut db, 2),
        Err("Stored value is malformed in column 4".to_string())
    );
}

#[test]
fn a_coordinate_is_kept_as_a_number() {
    let mut db = set_up();
    db.execute("INSERT INTO hameau (nom, px, py) VALUES ('H', ?1, ?2)", &vec![
        SqlValue::Text("12.5".to_string()),
        SqlValue::Text("-3".to_string()),
    ])
    .unwrap();
    let kinds = db.query("SELECT typeof(px), typeof(py), px, py FROM hameau", &vec![]).unwrap();
    assert_eq!(
        kinds,
        vec![vec![
            SqlValue::Text("real".to_string()),
            SqlValue::Text("real".to_string()),
            SqlValue::Text("12.5".to_string()),
            SqlValue::Text("-3".to_string()),
        ]]
    );
}
