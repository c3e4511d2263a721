use csb_vaccins::code::{code_from_uuid, fresh_code};
use csb_vaccins::columns::{check_row, value_fits, ColumnKind};
use csb_vaccins::dates::{date_value, optional_date_value, optional_instant_value, Date, Timestamp};
use csb_vaccins::enfant_service::{enfant_to_json, enfant_to_json_as};
use csb_vaccins::error::{report, DbError};
use csb_vaccins::json::{
    frame_object, integer_json, member_of, null_json, optional_integer_json, optional_string_json,
    string_json, Member,
};
use csb_vaccins::models::{Enfant, User, VaccinPrerequis};
use csb_vaccins::record::{read_all, read_first, read_optional, read_row};
use csb_vaccins::store::path_under;
use csb_vaccins::value::SqlValue;

fn text(value: &str) -> SqlValue {
    SqlValue::Text(value.to_string())
}

#[test]
fn dates_exist_or_not() {
    assert!(Date::new(2020, 2, 29).is_some());
    assert!(Date::new(2021, 2, 29).is_none());
    assert!(Date::new(1900, 2, 29).is_none());
    assert!(Date::new(2000, 2, 29).is_some());
    assert!(Date::new(2021, 4, 31).is_none());
    assert!(Date::new(2021, 12, 31).is_some());
    assert!(Date::new(2021, 0, 1).is_none());
    assert!(Date::new(2021, 13, 1).is_none());
    assert!(Date::new(2021, 1, 0).is_none());
    assert!(Date::new(-1, 1, 1).is_none());
    assert!(Date::new(10000, 1, 1).is_none());
    assert!(Date::new(0, 1, 1).is_some());
    assert!(Date::new(9999, 12, 31).is_some());
}

#[test]
fn a_date_is_written_on_ten_characters() {
    assert_eq!(Date::new(2020, 2, 29).unwrap().text(), "2020-02-29");
    assert_eq!(Date::new(7, 1, 5).unwrap().text(), "0007-01-05");
    assert_eq!(Date::new(9999, 12, 31).unwrap().text(), "9999-12-31");
    assert_eq!(Date::epoch().text(), "1970-01-01");
    let date = Date::new(2015, 9, 5).unwrap();
    assert_eq!((date.year(), date.month(), date.day()), (2015, 9, 5));
    assert_eq!(date_value(&date), text("2015-09-05"));
    assert_eq!(optional_date_value(&Some(date)), text("2015-09-05"));
    assert_eq!(optional_date_value(&None), SqlValue::Null);
}

#[test]
fn a_date_is_read_from_its_text() {
    assert_eq!(Date::parse("2015-09-05"), Date::new(2015, 9, 5));
    assert_eq!(Date::parse("2015-02-30"), None);
    assert_eq!(Date::parse("yesterday"), None);
    assert_eq!(Date::parse(""), None);
    assert_eq!(Date::parse("+12015-09-05"), None);
    assert_eq!(Date::from_parts(Some((2015, 9, 5))), Date::new(2015, 9, 5));
    assert_eq!(Date::from_parts(Some((2015, 9, 31))), None);
    assert_eq!(Date::from_parts(None), None);
    let date = Date::new(1999, 12, 31).unwrap();
    assert_eq!(Date::parse(&date.text()), Some(date));
}

#[test]
fn an_instant_is_written_as_the_store_keeps_it() {
    let instant = Timestamp::new(1_431_648_000, 0).unwrap();
    assert_eq!(instant.text(), "2015-05-15 00:00:00+00:00");
    assert_eq!((instant.secs(), instant.nanos()), (1_431_648_000, 0));
    assert_eq!(Timestamp::new(0, 500_000_000).unwrap().text(), "1970-01-01 00:00:00.500+00:00");
    assert!(Timestamp::new(i64::MAX, 0).is_none());
    assert!(Timestamp::new(0, 2_000_000_000).is_none());
    assert_eq!(Timestamp::from_parts(None), None);
    assert_eq!(Timestamp::from_parts(Some((5, 0))), Timestamp::new(5, 0));
    assert_eq!(optional_instant_value(&Some(instant)), text("2015-05-15 00:00:00+00:00"));
    assert_eq!(optional_instant_value(&None), SqlValue::Null);
}

#[test]
fn an_instant_is_read_from_what_the_store_keeps() {
    let instant = Timestamp::new(1_431_648_000, 0);
    assert_eq!(Timestamp::from_stored(&text("2015-05-15 00:00:00")), instant);
    assert_eq!(Timestamp::from_stored(&text("2015-05-15 00:00:00+00:00")), instant);
    assert_eq!(Timestamp::from_stored(&text("2015-05-15T02:00:00+02:00")), instant);
    assert_eq!(Timestamp::from_stored(&SqlValue::Integer(1_431_648_000)), instant);
    assert_eq!(Timestamp::from_stored(&text("soon")), None);
    assert_eq!(Timestamp::from_stored(&SqlValue::Null), None);
    assert_eq!(Timestamp::from_stored(&SqlValue::Blob(vec![1, 2])), None);
    assert_eq!(Timestamp::from_stored(&text(&instant.unwrap().text())), instant);
}

#[test]
fn a_code_is_the_prefix_and_the_leading_word_in_hexadecimal() {
    assert_eq!(code_from_uuid(0x0123_4567_89ab_cdef_0123_4567_89ab_cdef), "CSB-01234567");
    assert_eq!(code_from_uuid(0), "CSB-00000000");
    assert_eq!(code_from_uuid(u128::MAX), "CSB-FFFFFFFF");
    assert_eq!(code_from_uuid(0xdead_beef_0000_0000_0000_0000_0000_0000), "CSB-DEADBEEF");
    assert_eq!(code_from_uuid(0x0000_000a_ffff_ffff_ffff_ffff_ffff_ffff), "CSB-0000000A");
}

#[test]
fn fresh_codes_have_the_format_and_differ() {
    let one = fresh_code();
    let two = fresh_code();
    for code in [&one, &two] {
        assert_eq!(code.len(), 12);
        assert!(code.starts_with("CSB-"));
        assert!(code[4..].chars().all(|c| c.is_ascii_digit() || ('A'..='F').contains(&c)));
    }
    assert_ne!(one, two);
}

#[test]
fn json_values_are_written_as_json() {
    assert_eq!(string_json("a\"b\\c\n"), "\"a\\\"b\\\\c\\n\"");
    assert_eq!(string_json(""), "\"\"");
    assert_eq!(string_json("é"), "\"é\"");
    assert_eq!(integer_json(-5), "-5");
    assert_eq!(integer_json(i64::MAX), "9223372036854775807");
    assert_eq!(null_json(), "null");
    assert_eq!(optional_integer_json(None), "null");
    assert_eq!(optional_integer_json(Some(0)), "0");
    assert_eq!(optional_string_json(&None), "null");
    assert_eq!(optional_string_json(&Some("x".to_string())), "\"x\"");
    assert_eq!(member_of("nom", "1".to_string()), Member { name: "\"nom\"".to_string(), value: "1".to_string() });
}

#[test]
fn an_object_is_framed_around_its_members() {
    assert_eq!(frame_object(&vec![]), "{}");
    assert_eq!(frame_object(&vec![member_of("a", integer_json(1))]), "{\"a\":1}");
    assert_eq!(
        frame_object(&vec![member_of("a", integer_json(1)), member_of("b", null_json()), member_of("c", string_json("x"))]),
        "{\"a\":1,\"b\":null,\"c\":\"x\"}"
    );
}

#[test]
fn a_child_is_written_with_all_its_fields() {
    let enfant = Enfant {
        id: Some(4),
        nom: "Rakoto".to_string(),
        prenom: "Aina \"Nini\"".to_string(),
        code: Some("CSB-0000000A".to_string()),
        date_naissance: Date::new(2020, 5, 17).unwrap(),
        age_premier_contact: None,
        sexe: "F".to_string(),
        nom_mere: Some("Rasoa".to_string()),
        nom_pere: Some("Rabe".to_string()),
        domicile: Some("Lot 4".to_string()),
        fokotany: Some("Anosy".to_string()),
        hameau: Some("Ambodirano".to_string()),
        telephone: Some("034".to_string()),
        created_at: Timestamp::new(1_431_648_000, 0),
        updated_at: None,
    };
    let expected = "{\"id\":4,\"nom\":\"Rakoto\",\"prenom\":\"Aina \\\"Nini\\\"\",\"code\":\"CSB-0000000A\",\"date_naissance\":\"2020-05-17\",\"age_premier_contact\":null,\"sexe\":\"F\",\"nom_mere\":\"Rasoa\",\"nom_pere\":\"Rabe\",\"domicile\":\"Lot 4\",\"fokotany\":\"Anosy\",\"hameau\":\"Ambodirano\",\"telephone\":\"034\",\"created_at\":\"2015-05-15 00:00:00+00:00\",\"updated_at\":null}";
    assert_eq!(enfant_to_json(&enfant), expected);
    let parsed: serde_json::Value = serde_json::from_str(&enfant_to_json(&enfant)).unwrap();
    assert_eq!(parsed["prenom"], serde_json::Value::from("Aina \"Nini\""));
    assert_eq!(parsed["id"], serde_json::Value::from(4));
    let other = enfant_to_json_as(&enfant, Some(9), &None);
    assert!(other.starts_with("{\"id\":9,\"nom\":\"Rakoto\""));
    assert!(other.contains("\"code\":null"));
}

#[test]
fn a_path_is_the_directory_then_the_name() {
    assert_eq!(path_under("/var/lib/app", "csb.db"), "/var/lib/app/csb.db");
    assert_eq!(path_under("/var/lib/app/", "csb.db"), "/var/lib/app/csb.db");
    assert_eq!(path_under("", "csb.db"), "csb.db");
    assert_eq!(path_under("données", "csb.db"), "données/csb.db");
}

#[test]
fn values_fit_the_kinds_of_their_columns() {
    assert!(value_fits(&SqlValue::Integer(1), ColumnKind::Integer));
    assert!(!value_fits(&SqlValue::Null, ColumnKind::Integer));
    assert!(value_fits(&SqlValue::Null, ColumnKind::OptionalInteger));
    assert!(!value_fits(&text("1"), ColumnKind::OptionalInteger));
    assert!(value_fits(&text("x"), ColumnKind::Text));
    assert!(!value_fits(&SqlValue::Integer(1), ColumnKind::Text));
    assert!(value_fits(&SqlValue::Null, ColumnKind::OptionalText));
    assert!(value_fits(&SqlValue::Integer(5), ColumnKind::Flag));
    assert!(value_fits(&SqlValue::Null, ColumnKind::OptionalFlag));
    assert!(!value_fits(&text("1"), ColumnKind::Flag));
    assert!(!value_fits(&SqlValue::Null, ColumnKind::Flag));
    assert!(value_fits(&text("2020-01-01"), ColumnKind::Date));
    assert!(!value_fits(&text("2020-13-01"), ColumnKind::Date));
    assert!(!value_fits(&SqlValue::Null, ColumnKind::Date));
    assert!(value_fits(&text("2020-01-01"), ColumnKind::OptionalDate));
    assert!(value_fits(&SqlValue::Null, ColumnKind::OptionalDate));
    assert!(!value_fits(&text("whatever"), ColumnKind::OptionalDate));
    assert!(!value_fits(&text("01/02/2024"), ColumnKind::OptionalDate));
    assert!(!value_fits(&text("2024-13-40"), ColumnKind::OptionalDate));
    assert!(!value_fits(&SqlValue::Integer(3), ColumnKind::OptionalDate));
    assert!(value_fits(&SqlValue::Null, ColumnKind::OptionalInstant));
    assert!(value_fits(&text("2015-05-15 00:00:00"), ColumnKind::OptionalInstant));
    assert!(!value_fits(&text("soon"), ColumnKind::OptionalInstant));
    assert!(!value_fits(&SqlValue::Blob(vec![]), ColumnKind::OptionalInstant));
}

#[test]
fn a_row_is_checked_up_to_its_first_bad_column() {
    let kinds = vec![ColumnKind::Integer, ColumnKind::Text, ColumnKind::OptionalText];
    assert_eq!(check_row(&vec![SqlValue::Integer(1), text("a"), SqlValue::Null], &kinds), Ok(()));
    assert_eq!(
        check_row(&vec![SqlValue::Integer(1), text("a"), SqlValue::Null, SqlValue::Null], &kinds),
        Ok(())
    );
    assert_eq!(
        check_row(&vec![SqlValue::Null, SqlValue::Null, SqlValue::Integer(1)], &kinds),
        Err(DbError::Malformed { column: 0 })
    );
    assert_eq!(
        check_row(&vec![SqlValue::Integer(1), text("a"), SqlValue::Integer(1)], &kinds),
        Err(DbError::Malformed { column: 2 })
    );
    assert_eq!(check_row(&vec![SqlValue::Integer(1), text("a")], &kinds), Err(DbError::Malformed { column: 2 }));
    assert_eq!(check_row(&vec![], &vec![]), Ok(()));
}

#[test]
fn rows_become_records() {
    let row = vec![
        SqlValue::Integer(3),
        text("alice"),
        text("hash"),
        text("admin"),
        text("connected"),
        text("2015-05-15 00:00:00"),
        SqlValue::Null,
    ];
    let alice = User {
        id: Some(3),
        username: "alice".to_string(),
        password_hash: "hash".to_string(),
        account_type: "admin".to_string(),
        status: "connected".to_string(),
        created_at: Timestamp::new(1_431_648_000, 0),
        updated_at: None,
    };
    assert_eq!(read_row::<User>(&row), Ok(alice.clone()));
    assert_eq!(read_first::<User>(&vec![row.clone()]), Ok(alice.clone()));
    assert_eq!(read_first::<User>(&vec![]), Err(DbError::NotFound));
    assert_eq!(read_optional::<User>(&vec![]), Ok(None));
    assert_eq!(read_optional::<User>(&vec![row.clone()]), Ok(Some(alice.clone())));
    let mut bad = row.clone();
    bad[4] = SqlValue::Null;
    assert_eq!(read_all::<User>(&vec![row.clone(), row.clone()]), Ok(vec![alice.clone(), alice]));
    assert_eq!(read_all::<User>(&vec![row.clone(), bad.clone(), row]), Err(DbError::Malformed { column: 4 }));
    assert_eq!(read_optional::<User>(&vec![bad]), Err(DbError::Malformed { column: 4 }));
    assert_eq!(read_all::<User>(&vec![]), Ok(vec![]));
}

#[test]
fn a_flag_is_set_unless_it_is_zero() {
    let edge = |strict: i64| {
        read_row::<VaccinPrerequis>(&vec![
            SqlValue::Integer(1),
            SqlValue::Integer(2),
            SqlValue::Integer(3),
            SqlValue::Integer(strict),
        ])
    };
    assert_eq!(edge(0), Ok(VaccinPrerequis { id: Some(1), vaccin_id: 2, prerequis_id: 3, strict: false }));
    assert_eq!(edge(1), Ok(VaccinPrerequis { id: Some(1), vaccin_id: 2, prerequis_id: 3, strict: true }));
    assert_eq!(edge(-7), Ok(VaccinPrerequis { id: Some(1), vaccin_id: 2, prerequis_id: 3, strict: true }));
    assert_eq!(edge(1 << 40), Ok(VaccinPrerequis { id: Some(1), vaccin_id: 2, prerequis_id: 3, strict: true }));
    assert_eq!(
        read_row::<VaccinPrerequis>(&vec![
            SqlValue::Integer(1),
            SqlValue::Integer(2),
            SqlValue::Integer(3),
            SqlValue::Null,
        ]),
        Err(DbError::Malformed { column: 3 })
    );
}

#[test]
fn values_are_bound_by_their_kind() {
    assert_eq!(SqlValue::text("a"), text("a"));
    assert_eq!(SqlValue::optional_integer(None), SqlValue::Null);
    assert_eq!(SqlValue::optional_integer(Some(4)), SqlValue::Integer(4));
    assert_eq!(SqlValue::optional_text(&None), SqlValue::Null);
    assert_eq!(SqlValue::optional_text(&Some("a".to_string())), text("a"));
    assert_eq!(SqlValue::flag(true), SqlValue::Integer(1));
    assert_eq!(SqlValue::flag(false), SqlValue::Integer(0));
    assert_eq!(SqlValue::optional_flag(None), SqlValue::Null);
    assert_eq!(SqlValue::optional_flag(Some(true)), SqlValue::Integer(1));
}

#[test]
fn failures_are_told_in_text() {
    assert_eq!(DbError::NotInitialized.message(), "Database not initialized");
    assert_eq!(DbError::NotFound.message(), "Query returned no rows");
    assert_eq!(DbError::UnknownUser.message(), "User not found");
    assert_eq!(DbError::MissingId.message(), "Record has no identifier");
    assert_eq!(DbError::Malformed { column: 2 }.message(), "Stored value is malformed in column 2");
    assert_eq!(DbError::Malformed { column: 0 }.message(), "Stored value is malformed in column 0");
    assert_eq!(DbError::Malformed { column: 1409 }.message(), "Stored value is malformed in column 1409");
    assert_eq!(csb_vaccins::error::decimal_text(usize::MAX), usize::MAX.to_string());
    assert_eq!(DbError::CodesExhausted.message(), "No unused code could be generated");
    assert_eq!(DbError::Store("disk full".to_string()).message(), "disk full");
    assert_eq!(report::<i64>(Ok(3)), Ok(3));
    assert_eq!(report::<i64>(Err(DbError::NotFound)), Err("Query returned no rows".to_string()));
}
