use csb_vaccins::commands::user_commands::{user_get_by_id, user_login, user_logout, user_register};
use csb_vaccins::commands::vaccin_commands::{vaccin_add_prerequis, vaccin_create, vaccin_get_prerequis};
use csb_vaccins::dates::{Date, Timestamp};
use csb_vaccins::enfant_service::{
    create_enfant, delete_enfant, get_all_enfants, get_enfant_by_code, get_enfant_by_id, update_enfant,
};
use csb_vaccins::error::DbError;
use csb_vaccins::fokotany_service::{create_fokotany, delete_fokotany, get_all_fokotany, get_fokotany_by_name};
use csb_vaccins::hameau_service::{create_hameau, delete_hameau, get_all_hameaux, get_hameau_by_id};
use csb_vaccins::models::{Enfant, Fokotany, Hameau, Notification, Vaccin, VaccinPrerequis, Vaccination};
use csb_vaccins::notification_service::{
    create_notification, get_notification_by_id, get_notifications_for_user,
    get_unread_notifications_count, mark_all_notifications_as_read, mark_notification_as_read,
    purge_expired_notifications,
};
use csb_vaccins::schema::initialize_schema;
use csb_vaccins::store::{initialize_in_memory, Database};
use csb_vaccins::vaccin_service::{
    add_vaccin_suite, create_vaccin, delete_vaccin, get_all_vaccins, get_vaccin_by_id,
    get_vaccin_prerequis, get_vaccin_suites, update_vaccin,
};
use csb_vaccins::vaccination_service::{
    create_vaccination, get_all_vaccinations, get_vaccinations_by_enfant, get_vaccinations_by_vaccin,
};
use csb_vaccins::models::VaccinSuite;
use csb_vaccins::value::SqlValue;

fn ready() -> Database {
    let mut db = Database::new();
    initialize_in_memory(&mut db).unwrap();
    initialize_schema(&mut db).unwrap();
    db
}

fn child(nom: &str, prenom: &str, code: Option<&str>) -> Enfant {
    Enfant {
        id: None,
        nom: nom.to_string(),
        prenom: prenom.to_string(),
        code: code.map(|c| c.to_string()),
        date_naissance: Date::new(2020, 5, 17).unwrap(),
        age_premier_contact: Some(3),
        sexe: "F".to_string(),
        nom_mere: Some("Rasoa".to_string()),
        nom_pere: None,
        domicile: None,
        fokotany: None,
        hameau: None,
        telephone: None,
        created_at: None,
        updated_at: None,
    }
}

fn bare_vaccin(nom: &str) -> Vaccin {
    Vaccin {
        id: None,
        nom: nom.to_string(),
        duree: None,
        date_arrivee: None,
        date_peremption: None,
        description: None,
        created_at: None,
        updated_at: None,
        duree_jours: None,
        age_annees: 0,
        age_mois: 0,
        age_jours: 0,
        lot: None,
        stock: None,
    }
}

fn notice(user_id: Option<i64>, title: &str, read: bool, expires_at: Option<Timestamp>) -> Notification {
    Notification {
        id: None,
        user_id,
        title: title.to_string(),
        message: "message".to_string(),
        notification_type: "info".to_string(),
        category: "system".to_string(),
        is_read: Some(read),
        action_link: None,
        entity_type: None,
        entity_id: None,
        created_at: None,
        expires_at,
    }
}

fn count(db: &mut Database, sql: &str, params: Vec<SqlValue>) -> i64 {
    let rows = db.query(sql, &params).unwrap();
    match &rows[0][0] {
        SqlValue::Integer(n) => *n,
        other => panic!("not a count: {:?}", other),
    }
}

fn is_generated(code: &str) -> bool {
    code.len() == 12
        && code.starts_with("CSB-")
        && code[4..].chars().all(|c| c.is_ascii_digit() || ('A'..='F').contains(&c))
}

#[test]
fn alice_registers_logs_in_and_logs_out() {
    let mut db = ready();
    let id = user_register(&mut db, "alice".to_string(), "hash".to_string(), None).unwrap();
    let alice = user_get_by_id(&mut db, id).unwrap();
    assert_eq!(alice.account_type, "user");
    assert_eq!(alice.status, "disconnected");
    assert_eq!(alice.username, "alice");
    assert_eq!(alice.password_hash, "hash");
    assert!(alice.created_at.is_some());
    assert_eq!(count(&mut db, "SELECT COUNT(*) FROM logins", vec![]), 0);

    let logged = user_login(&mut db, "alice".to_string(), "10.0.0.1".to_string()).unwrap();
    assert_eq!(logged.id, Some(id));
    assert_eq!(logged.status, "connected");
    let session = db
        .query("SELECT username, ip_address, status FROM logins WHERE user_id = ?1", &vec![SqlValue::Integer(id)])
        .unwrap();
    assert_eq!(session.len(), 1);
    assert_eq!(session[0][0], SqlValue::Text("alice".to_string()));
    assert_eq!(session[0][1], SqlValue::Text("10.0.0.1".to_string()));
    assert_eq!(session[0][2], SqlValue::Text("connected".to_string()));

    user_logout(&mut db, id).unwrap();
    assert_eq!(user_get_by_id(&mut db, id).unwrap().status, "disconnected");
    let session =
        db.query("SELECT status FROM logins WHERE user_id = ?1", &vec![SqlValue::Integer(id)]).unwrap();
    assert_eq!(session[0][0], SqlValue::Text("disconnected".to_string()));
}

#[test]
fn registering_with_an_account_type_keeps_it() {
    let mut db = ready();
    let id = user_register(&mut db, "bob".to_string(), "h".to_string(), Some("admin".to_string())).unwrap();
    assert_eq!(user_get_by_id(&mut db, id).unwrap().account_type, "admin");
}

#[test]
fn a_second_login_overwrites_the_session_record() {
    let mut db = ready();
    let id = user_register(&mut db, "alice".to_string(), "hash".to_string(), None).unwrap();
    user_login(&mut db, "alice".to_string(), "10.0.0.1".to_string()).unwrap();
    user_login(&mut db, "alice".to_string(), "10.0.0.2".to_string()).unwrap();
    let session =
        db.query("SELECT ip_address FROM logins WHERE user_id = ?1", &vec![SqlValue::Integer(id)]).unwrap();
    assert_eq!(session.len(), 1);
    assert_eq!(session[0][0], SqlValue::Text("10.0.0.2".to_string()));
}

#[test]
fn one_strict_prerequisite_edge() {
    let mut db = ready();
    let a = vaccin_create(&mut db, bare_vaccin("A")).unwrap();
    let b = vaccin_create(&mut db, bare_vaccin("B")).unwrap();
    let edge = vaccin_add_prerequis(&mut db, b, a, true).unwrap();
    let edges = vaccin_get_prerequis(&mut db, b).unwrap();
    assert_eq!(
        edges,
        vec![VaccinPrerequis { id: Some(edge), vaccin_id: b, prerequis_id: a, strict: true }]
    );
    assert!(vaccin_get_prerequis(&mut db, a).unwrap().is_empty());
}

#[test]
fn a_cycle_of_prerequisites_is_not_rejected() {
    let mut db = ready();
    let a = create_vaccin(&mut db, &bare_vaccin("A")).unwrap();
    let b = create_vaccin(&mut db, &bare_vaccin("B")).unwrap();
    vaccin_add_prerequis(&mut db, b, a, false).unwrap();
    vaccin_add_prerequis(&mut db, a, b, false).unwrap();
    assert_eq!(get_vaccin_prerequis(&mut db, a).unwrap().len(), 1);
    assert!(!get_vaccin_prerequis(&mut db, a).unwrap()[0].strict);
}

#[test]
fn a_following_vaccine_is_read_back() {
    let mut db = ready();
    let a = create_vaccin(&mut db, &bare_vaccin("A")).unwrap();
    let b = create_vaccin(&mut db, &bare_vaccin("B")).unwrap();
    let suite = VaccinSuite {
        id: None,
        vaccin_id: a,
        suite_id: b,
        strict: true,
        delai: 28,
        type_suite: "rappel".to_string(),
        description: None,
    };
    let id = add_vaccin_suite(&mut db, &suite).unwrap();
    let found = get_vaccin_suites(&mut db, a).unwrap();
    assert_eq!(found, vec![VaccinSuite { id: Some(id), ..suite }]);
}

#[test]
fn a_child_without_code_gets_a_generated_one() {
    let mut db = ready();
    let first = create_enfant(&mut db, &child("Rakoto", "Aina", None)).unwrap();
    let second = create_enfant(&mut db, &child("Rabe", "Soa", Some(""))).unwrap();
    let one = get_enfant_by_id(&mut db, first).unwrap();
    let two = get_enfant_by_id(&mut db, second).unwrap();
    let code_one = one.code.clone().unwrap();
    let code_two = two.code.clone().unwrap();
    assert!(is_generated(&code_one), "{}", code_one);
    assert!(is_generated(&code_two), "{}", code_two);
    assert_ne!(code_one, code_two);
    assert_eq!(get_enfant_by_code(&mut db, &code_one).unwrap().unwrap().id, Some(first));
}

#[test]
fn a_child_with_a_code_keeps_it() {
    let mut db = ready();
    let id = create_enfant(&mut db, &child("Rakoto", "Aina", Some("X-1"))).unwrap();
    assert_eq!(get_enfant_by_id(&mut db, id).unwrap().code, Some("X-1".to_string()));
    assert!(get_enfant_by_code(&mut db, "X-2").unwrap().is_none());
}

#[test]
fn creation_writes_one_history_entry() {
    let mut db = ready();
    let id = create_enfant(&mut db, &child("Rakoto", "Aina", Some("X-1"))).unwrap();
    let rows = db
        .query(
            "SELECT action_type, user_id, old_data, new_data FROM child_history WHERE child_id = ?1",
            &vec![SqlValue::Integer(id)],
        )
        .unwrap();
    assert_eq!(rows.len(), 1);
    assert_eq!(rows[0][0], SqlValue::Text("CREATE".to_string()));
    assert_eq!(rows[0][1], SqlValue::Null);
    assert_eq!(rows[0][2], SqlValue::Null);
    let expected = format!(
        "{{\"id\":{},\"nom\":\"Rakoto\",\"prenom\":\"Aina\",\"code\":\"X-1\",\"date_naissance\":\"2020-05-17\",\"age_premier_contact\":3,\"sexe\":\"F\",\"nom_mere\":\"Rasoa\",\"nom_pere\":null,\"domicile\":null,\"fokotany\":null,\"hameau\":null,\"telephone\":null,\"created_at\":null,\"updated_at\":null}}",
        id
    );
    assert_eq!(rows[0][3], SqlValue::Text(expected));
}

#[test]
fn updating_with_what_was_read_changes_nothing_but_the_date() {
    let mut db = ready();
    let id = create_enfant(&mut db, &child("Rakoto", "Aina", None)).unwrap();
    let before = get_enfant_by_id(&mut db, id).unwrap();
    update_enfant(&mut db, &before).unwrap();
    let after = get_enfant_by_id(&mut db, id).unwrap();
    assert_eq!(Enfant { updated_at: None, ..after.clone() }, Enfant { updated_at: None, ..before.clone() });
    assert_eq!(after.created_at, before.created_at);
    let updates = count(
        &mut db,
        "SELECT COUNT(*) FROM child_history WHERE child_id = ?1 AND action_type = 'UPDATE'",
        vec![SqlValue::Integer(id)],
    );
    assert_eq!(updates, 1);
    let rows = db
        .query(
            "SELECT old_data, new_data FROM child_history WHERE child_id = ?1 AND action_type = 'UPDATE'",
            &vec![SqlValue::Integer(id)],
        )
        .unwrap();
    assert_eq!(rows[0][0], rows[0][1]);
    assert!(matches!(&rows[0][0], SqlValue::Text(text) if text.contains("\"nom\":\"Rakoto\"")));
}

#[test]
fn an_update_is_stored_and_entered_in_the_history() {
    let mut db = ready();
    let id = create_enfant(&mut db, &child("Rakoto", "Aina", Some("X-1"))).unwrap();
    let mut changed = get_enfant_by_id(&mut db, id).unwrap();
    changed.prenom = "Miora".to_string();
    changed.telephone = Some("034".to_string());
    update_enfant(&mut db, &changed).unwrap();
    let after = get_enfant_by_id(&mut db, id).unwrap();
    assert_eq!(after.prenom, "Miora");
    assert_eq!(after.telephone, Some("034".to_string()));
    let rows = db
        .query(
            "SELECT old_data, new_data FROM child_history WHERE child_id = ?1 AND action_type = 'UPDATE'",
            &vec![SqlValue::Integer(id)],
        )
        .unwrap();
    assert_eq!(rows.len(), 1);
    assert!(matches!(&rows[0][0], SqlValue::Text(text) if text.contains("\"prenom\":\"Aina\"")));
    assert!(matches!(&rows[0][1], SqlValue::Text(text) if text.contains("\"prenom\":\"Miora\"")));
}

#[test]
fn deleting_a_child_keeps_its_trail() {
    let mut db = ready();
    let user = user_register(&mut db, "alice".to_string(), "hash".to_string(), None).unwrap();
    let kept = create_enfant(&mut db, &child("Rabe", "Soa", None)).unwrap();
    let id = create_enfant(&mut db, &child("Rakoto", "Aina", Some("X-1"))).unwrap();
    delete_enfant(&mut db, id, Some(user)).unwrap();

    assert_eq!(get_enfant_by_id(&mut db, id), Err(DbError::NotFound));
    let all = get_all_enfants(&mut db).unwrap();
    assert_eq!(all.len(), 1);
    assert_eq!(all[0].id, Some(kept));

    let log = db
        .query(
            "SELECT original_id, user_id, child_data FROM deleted_children_log",
            &vec![],
        )
        .unwrap();
    assert_eq!(log.len(), 1);
    assert_eq!(log[0][0], SqlValue::Integer(id));
    assert_eq!(log[0][1], SqlValue::Integer(user));
    assert!(matches!(&log[0][2], SqlValue::Text(text) if text.contains("\"code\":\"X-1\"")));

    let deletions = db
        .query(
            "SELECT user_id, old_data, new_data FROM child_history WHERE child_id = ?1 AND action_type = 'DELETE'",
            &vec![SqlValue::Integer(id)],
        )
        .unwrap();
    assert_eq!(deletions.len(), 1);
    assert_eq!(deletions[0][0], SqlValue::Integer(user));
    assert_eq!(deletions[0][1], log[0][2]);
    assert_eq!(deletions[0][2], SqlValue::Null);
}

#[test]
fn deleting_a_child_removes_its_vaccinations() {
    let mut db = ready();
    let vaccin = create_vaccin(&mut db, &bare_vaccin("BCG")).unwrap();
    let id = create_enfant(&mut db, &child("Rakoto", "Aina", None)).unwrap();
    let dose = Vaccination {
        id: None,
        enfant_id: id,
        vaccin_id: vaccin,
        date_vaccination: Date::new(2021, 1, 2).unwrap(),
        remarque: None,
        created_at: None,
        updated_at: None,
    };
    create_vaccination(&mut db, &dose).unwrap();
    assert_eq!(get_vaccinations_by_enfant(&mut db, id).unwrap().len(), 1);
    delete_enfant(&mut db, id, None).unwrap();
    assert!(get_all_vaccinations(&mut db).unwrap().is_empty());
}

#[test]
fn deleting_a_vaccine_removes_its_edges_and_doses() {
    let mut db = ready();
    let a = create_vaccin(&mut db, &bare_vaccin("A")).unwrap();
    let b = create_vaccin(&mut db, &bare_vaccin("B")).unwrap();
    vaccin_add_prerequis(&mut db, b, a, true).unwrap();
    let id = create_enfant(&mut db, &child("Rakoto", "Aina", None)).unwrap();
    let dose = Vaccination {
        id: None,
        enfant_id: id,
        vaccin_id: a,
        date_vaccination: Date::new(2021, 1, 2).unwrap(),
        remarque: Some("ok".to_string()),
        created_at: None,
        updated_at: None,
    };
    create_vaccination(&mut db, &dose).unwrap();
    delete_vaccin(&mut db, a).unwrap();
    assert!(get_vaccin_prerequis(&mut db, b).unwrap().is_empty());
    assert!(get_vaccinations_by_vaccin(&mut db, a).unwrap().is_empty());
    assert_eq!(get_all_vaccins(&mut db).unwrap().len(), 1);
}

#[test]
fn vaccinations_come_latest_first() {
    let mut db = ready();
    let vaccin = create_vaccin(&mut db, &bare_vaccin("BCG")).unwrap();
    let id = create_enfant(&mut db, &child("Rakoto", "Aina", None)).unwrap();
    for (year, month, day) in [(2021, 1, 2), (2022, 3, 4), (2020, 12, 31)] {
        let dose = Vaccination {
            id: None,
            enfant_id: id,
            vaccin_id: vaccin,
            date_vaccination: Date::new(year, month, day).unwrap(),
            remarque: None,
            created_at: None,
            updated_at: None,
        };
        create_vaccination(&mut db, &dose).unwrap();
    }
    let dates: Vec<String> =
        get_all_vaccinations(&mut db).unwrap().iter().map(|v| v.date_vaccination.text()).collect();
    assert_eq!(dates, vec!["2022-03-04", "2021-01-02", "2020-12-31"]);
}

#[test]
fn children_come_by_name_then_first_name() {
    let mut db = ready();
    create_enfant(&mut db, &child("Rakoto", "Zo", None)).unwrap();
    create_enfant(&mut db, &child("Andry", "Soa", None)).unwrap();
    create_enfant(&mut db, &child("Rakoto", "Aina", None)).unwrap();
    let names: Vec<(String, String)> =
        get_all_enfants(&mut db).unwrap().into_iter().map(|e| (e.nom, e.prenom)).collect();
    assert_eq!(
        names,
        vec![
            ("Andry".to_string(), "Soa".to_string()),
            ("Rakoto".to_string(), "Aina".to_string()),
            ("Rakoto".to_string(), "Zo".to_string()),
        ]
    );
}

#[test]
fn deleting_an_area_clears_the_children_that_name_it() {
    let mut db = ready();
    let area = Fokotany {
        id: None,
        nom: "Anosy".to_string(),
        px: Some("47.5".to_string()),
        py: None,
        created_at: None,
        updated_at: None,
    };
    let area_id = create_fokotany(&mut db, &area).unwrap();
    let stored = get_fokotany_by_name(&mut db, "Anosy").unwrap().unwrap();
    assert_eq!(stored.px, Some("47.5".to_string()));
    assert_eq!(stored.py, None);
    let mut here = child("Rakoto", "Aina", None);
    here.fokotany = Some("Anosy".to_string());
    let mut elsewhere = child("Rabe", "Soa", None);
    elsewhere.fokotany = Some("Isotry".to_string());
    let here_id = create_enfant(&mut db, &here).unwrap();
    let elsewhere_id = create_enfant(&mut db, &elsewhere).unwrap();

    delete_fokotany(&mut db, area_id).unwrap();

    assert_eq!(get_enfant_by_id(&mut db, here_id).unwrap().fokotany, None);
    assert_eq!(get_enfant_by_id(&mut db, elsewhere_id).unwrap().fokotany, Some("Isotry".to_string()));
    assert!(get_all_fokotany(&mut db).unwrap().is_empty());
}

#[test]
fn deleting_a_sub_area_clears_the_children_that_name_it() {
    let mut db = ready();
    let place = Hameau {
        id: None,
        nom: "Ambodirano".to_string(),
        px: "-18.25".to_string(),
        py: "3".to_string(),
        created_at: None,
        updated_at: None,
    };
    let place_id = create_hameau(&mut db, &place).unwrap();
    let stored = get_hameau_by_id(&mut db, place_id).unwrap();
    assert_eq!(stored.px, "-18.25");
    assert_eq!(stored.py, "3");
    let mut here = child("Rakoto", "Aina", None);
    here.hameau = Some("Ambodirano".to_string());
    let here_id = create_enfant(&mut db, &here).unwrap();

    delete_hameau(&mut db, place_id).unwrap();

    assert_eq!(get_enfant_by_id(&mut db, here_id).unwrap().hameau, None);
    assert!(get_all_hameaux(&mut db).unwrap().is_empty());
}

#[test]
fn expired_notifications_are_left_out_and_purged() {
    let mut db = ready();
    let user = user_register(&mut db, "alice".to_string(), "hash".to_string(), None).unwrap();
    let past = Timestamp::new(946_684_800, 0);
    let future = Timestamp::new(4_102_444_800, 0);
    assert!(past.is_some() && future.is_some());
    create_notification(&mut db, &notice(Some(user), "old unread", false, past)).unwrap();
    create_notification(&mut db, &notice(Some(user), "old read", true, past)).unwrap();
    let live = create_notification(&mut db, &notice(Some(user), "live", false, future)).unwrap();
    let lasting = create_notification(&mut db, &notice(Some(user), "lasting", true, None)).unwrap();
    create_notification(&mut db, &notice(None, "for all", false, None)).unwrap();

    let mut titles: Vec<String> = get_notifications_for_user(&mut db, Some(user), 10, 0, true)
        .unwrap()
        .into_iter()
        .map(|n| n.title)
        .collect();
    titles.sort();
    assert_eq!(titles, vec!["lasting", "live"]);
    let unread = get_notifications_for_user(&mut db, Some(user), 10, 0, false).unwrap();
    assert_eq!(unread.len(), 1);
    assert_eq!(unread[0].id, Some(live));
    assert_eq!(unread[0].expires_at, future);
    assert_eq!(get_unread_notifications_count(&mut db, Some(user)).unwrap(), 1);
    assert_eq!(get_unread_notifications_count(&mut db, None).unwrap(), 1);
    assert_eq!(get_notifications_for_user(&mut db, None, 10, 0, true).unwrap().len(), 1);

    assert_eq!(purge_expired_notifications(&mut db).unwrap(), 2);
    assert_eq!(purge_expired_notifications(&mut db).unwrap(), 0);
    assert_eq!(get_notification_by_id(&mut db, lasting).unwrap().title, "lasting");
    assert_eq!(count(&mut db, "SELECT COUNT(*) FROM notifications", vec![]), 3);
}

#[test]
fn notifications_are_paged_and_marked() {
    let mut db = ready();
    for title in ["a", "b", "c"] {
        create_notification(&mut db, &notice(None, title, false, None)).unwrap();
    }
    assert_eq!(get_notifications_for_user(&mut db, None, 2, 0, false).unwrap().len(), 2);
    assert_eq!(get_notifications_for_user(&mut db, None, 2, 2, false).unwrap().len(), 1);
    let first = get_notifications_for_user(&mut db, None, 1, 0, false).unwrap()[0].id.unwrap();
    mark_notification_as_read(&mut db, first).unwrap();
    assert_eq!(get_notification_by_id(&mut db, first).unwrap().is_read, Some(true));
    assert_eq!(get_unread_notifications_count(&mut db, None).unwrap(), 2);
    mark_all_notifications_as_read(&mut db, None).unwrap();
    assert_eq!(get_unread_notifications_count(&mut db, None).unwrap(), 0);
    assert_eq!(get_notifications_for_user(&mut db, None, 10, 0, true).unwrap().len(), 3);
}

#[test]
fn a_bare_vaccine_reads_back_bare() {
    let mut db = ready();
    let id = create_vaccin(&mut db, &bare_vaccin("BCG")).unwrap();
    let stored = get_vaccin_by_id(&mut db, id).unwrap();
    assert!(stored.created_at.is_some());
    assert!(stored.updated_at.is_some());
    let expected = Vaccin { id: Some(id), stock: Some(0), ..bare_vaccin("BCG") };
    assert_eq!(Vaccin { created_at: None, updated_at: None, ..stored }, expected);
}

#[test]
fn a_full_vaccine_reads_back_full() {
    let mut db = ready();
    let full = Vaccin {
        id: None,
        nom: "Polio".to_string(),
        duree: Some(12),
        date_arrivee: Date::new(2024, 1, 31),
        date_peremption: Date::new(2025, 12, 1),
        description: Some("oral".to_string()),
        created_at: None,
        updated_at: None,
        duree_jours: Some(365),
        age_annees: 1,
        age_mois: 2,
        age_jours: 3,
        lot: Some("L-7".to_string()),
        stock: Some(40),
    };
    let id = create_vaccin(&mut db, &full).unwrap();
    let stored = get_vaccin_by_id(&mut db, id).unwrap();
    assert_eq!(Vaccin { created_at: None, updated_at: None, ..stored.clone() }, Vaccin { id: Some(id), ..full });
    let renamed = Vaccin { nom: "Polio 2".to_string(), stock: None, ..stored };
    update_vaccin(&mut db, &renamed).unwrap();
    let again = get_vaccin_by_id(&mut db, id).unwrap();
    assert_eq!(again.nom, "Polio 2");
    assert_eq!(again.stock, Some(0));
}

#[test]
fn the_schema_can_be_set_up_again() {
    let mut db = ready();
    let id = create_vaccin(&mut db, &bare_vaccin("BCG")).unwrap();
    initialize_schema(&mut db).unwrap();
    assert_eq!(get_vaccin_by_id(&mut db, id).unwrap().nom, "BCG");
}

#[test]
fn the_store_takes_the_two_statuses_and_no_other() {
    let mut db = ready();
    for status in ["connected", "disconnected"] {
        let sql = "INSERT INTO users (username, password_hash, status) VALUES (?1, 'h', ?2)";
        db.execute(sql, &vec![SqlValue::Text(status.to_string()), SqlValue::Text(status.to_string())]).unwrap();
    }
    let refused = db.execute(
        "INSERT INTO users (username, password_hash, status) VALUES ('x', 'h', 'away')",
        &vec![],
    );
    assert!(matches!(refused, Err(DbError::Store(_))));
    let id = user_register(&mut db, "alice".to_string(), "hash".to_string(), None).unwrap();
    csb_vaccins::user_service::create_login_record(&mut db, id, "alice", "10.0.0.9").unwrap();
    csb_vaccins::user_service::create_login_record(&mut db, id, "alice", "10.0.0.1").unwrap();
    let session = db.query("SELECT ip_address, status FROM logins", &vec![]).unwrap();
    assert_eq!(
        session,
        vec![vec![SqlValue::Text("10.0.0.1".to_string()), SqlValue::Text("connected".to_string())]]
    );
    let refused = db.execute(
        "INSERT INTO logins (user_id, username, ip_address, status) VALUES (1, 'c', 'i', 'away')",
        &vec![],
    );
    assert!(matches!(refused, Err(DbError::Store(_))));
}
