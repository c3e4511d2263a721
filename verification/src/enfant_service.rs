//! Children, and the audit trail of what was done to them.
//!
//! Creating, updating and deleting a child each run as one transaction that
//! also writes the audit trail: one history entry, and on deletion a snapshot
//! in the deletion log.

use vstd::prelude::*;
use vstd::string::StringExecFns;
use crate::code::{MAX_CODE_ATTEMPTS, fresh_code, has_code_format};
use crate::columns::{as_date, conforms, fits};
use crate::dates::{date_datum, date_value};
use crate::error::{DbError, Failure, outcome_view};
use crate::json::{
    MemberView, date_json, frame_object, json_date, json_optional_instant,
    json_optional_integer, json_optional_string, json_string, member, member_of, object_text,
    optional_instant_json, optional_integer_json, optional_string_json, string_json,
};
use crate::models::{
    ChildHistory, ChildHistoryView, DeletedChildrenLog, DeletedChildrenLogView, Enfant, EnfantView,
};
use crate::record::{
    Record, all_of_reply, answered, change, fetch_all, fetch_one, fetch_optional, insert,
    one_of_reply, optional_of_reply,
};
use crate::store::{Database, Exchange, Reply, Statement, BEGIN, COMMIT, done, inserted_id, plain};
use crate::transaction::{
    Prepared, begin, continues, finish, in_transaction, lemma_asked, lemma_committed,
    lemma_continues, lemma_in_transaction, lemma_not_begun, trace, write_in_order, wrote_in_order,
};
use crate::value::{SqlValue, SqlDatum, integer_or_null, text_or_null};

verus! {

pub const INSERT_ENFANT: &'static str =
    "INSERT INTO enfants (nom, prenom, code, date_naissance, age_premier_contact, sexe, nom_mere, nom_pere, domicile, fokotany, hameau, telephone) VALUES (?1, ?2, ?3, ?4, ?5, ?6, ?7, ?8, ?9, ?10, ?11, ?12)";

pub const SELECT_ENFANT_BY_ID: &'static str =
    "SELECT id, nom, prenom, code, date_naissance, age_premier_contact, sexe, nom_mere, nom_pere, domicile, fokotany, hameau, telephone, created_at, updated_at FROM enfants WHERE id = ?1";

pub const SELECT_ENFANT_BY_CODE: &'static str =
    "SELECT id, nom, prenom, code, date_naissance, age_premier_contact, sexe, nom_mere, nom_pere, domicile, fokotany, hameau, telephone, created_at, updated_at FROM enfants WHERE code = ?1";

pub const SELECT_ALL_ENFANTS: &'static str =
    "SELECT id, nom, prenom, code, date_naissance, age_premier_contact, sexe, nom_mere, nom_pere, domicile, fokotany, hameau, telephone, created_at, updated_at FROM enfants ORDER BY nom, prenom";

pub const UPDATE_ENFANT: &'static str =
    "UPDATE enfants SET nom = ?1, prenom = ?2, code = ?3, date_naissance = ?4, age_premier_contact = ?5, sexe = ?6, nom_mere = ?7, nom_pere = ?8, domicile = ?9, fokotany = ?10, hameau = ?11, telephone = ?12, updated_at = CURRENT_TIMESTAMP WHERE id = ?13";

pub const DELETE_ENFANT: &'static str = "DELETE FROM enfants WHERE id = ?1";

pub const INSERT_HISTORY: &'static str =
    "INSERT INTO child_history (child_id, action_type, user_id, old_data, new_data) VALUES (?1, ?2, ?3, ?4, ?5)";

pub const INSERT_DELETION: &'static str =
    "INSERT INTO deleted_children_log (original_id, user_id, child_data) VALUES (?1, ?2, ?3)";

pub const ACTION_CREATE: &'static str = "CREATE";

pub const ACTION_UPDATE: &'static str = "UPDATE";

pub const ACTION_DELETE: &'static str = "DELETE";

/// The values of a child in the order of the columns that are written, with
/// `code` in the place of the child's own.
pub open spec fn enfant_values(enfant: EnfantView, code: SqlDatum) -> Seq<SqlDatum> {
    seq![
        SqlDatum::Text(enfant.nom),
        SqlDatum::Text(enfant.prenom),
        code,
        date_datum(enfant.date_naissance),
        integer_or_null(enfant.age_premier_contact),
        SqlDatum::Text(enfant.sexe),
        text_or_null(enfant.nom_mere),
        text_or_null(enfant.nom_pere),
        text_or_null(enfant.domicile),
        text_or_null(enfant.fokotany),
        text_or_null(enfant.hameau),
        text_or_null(enfant.telephone),
    ]
}

pub open spec fn insert_enfant(enfant: EnfantView, code: Seq<char>) -> Statement {
    Statement { sql: INSERT_ENFANT@, params: enfant_values(enfant, SqlDatum::Text(code)) }
}

pub open spec fn select_enfant_by_id(enfant_id: i64) -> Statement {
    Statement { sql: SELECT_ENFANT_BY_ID@, params: seq![SqlDatum::Integer(enfant_id)] }
}

pub open spec fn select_enfant_by_code(code: Seq<char>) -> Statement {
    Statement { sql: SELECT_ENFANT_BY_CODE@, params: seq![SqlDatum::Text(code)] }
}

pub open spec fn select_all_enfants() -> Statement {
    Statement { sql: SELECT_ALL_ENFANTS@, params: Seq::empty() }
}

pub open spec fn update_enfant_statement(enfant: EnfantView) -> Statement {
    Statement {
        sql: UPDATE_ENFANT@,
        params: enfant_values(enfant, text_or_null(enfant.code)).push(integer_or_null(enfant.id)),
    }
}

pub open spec fn delete_enfant_statement(enfant_id: i64) -> Statement {
    Statement { sql: DELETE_ENFANT@, params: seq![SqlDatum::Integer(enfant_id)] }
}

/// The statement that appends an entry to the history. The entry's own
/// identifier and its date are the store's to give.
pub open spec fn insert_history(entry: ChildHistoryView) -> Statement {
    Statement {
        sql: INSERT_HISTORY@,
        params: seq![
            SqlDatum::Integer(entry.child_id),
            SqlDatum::Text(entry.action_type),
            integer_or_null(entry.user_id),
            text_or_null(entry.old_data),
            text_or_null(entry.new_data),
        ],
    }
}

/// The statement that appends a snapshot to the deletion log.
pub open spec fn insert_deletion(entry: DeletedChildrenLogView) -> Statement {
    Statement {
        sql: INSERT_DELETION@,
        params: seq![
            SqlDatum::Integer(entry.original_id),
            integer_or_null(entry.user_id),
            text_or_null(entry.child_data),
        ],
    }
}

/// The members of the object that a child is written as: every field, under
/// its own name.
pub open spec fn enfant_members(enfant: EnfantView) -> Seq<MemberView> {
    seq![
        member("id"@, json_optional_integer(enfant.id)),
        member("nom"@, json_string(enfant.nom)),
        member("prenom"@, json_string(enfant.prenom)),
        member("code"@, json_optional_string(enfant.code)),
        member("date_naissance"@, json_date(enfant.date_naissance)),
        member("age_premier_contact"@, json_optional_integer(enfant.age_premier_contact)),
        member("sexe"@, json_string(enfant.sexe)),
        member("nom_mere"@, json_optional_string(enfant.nom_mere)),
        member("nom_pere"@, json_optional_string(enfant.nom_pere)),
        member("domicile"@, json_optional_string(enfant.domicile)),
        member("fokotany"@, json_optional_string(enfant.fokotany)),
        member("hameau"@, json_optional_string(enfant.hameau)),
        member("telephone"@, json_optional_string(enfant.telephone)),
        member("created_at"@, json_optional_instant(enfant.created_at)),
        member("updated_at"@, json_optional_instant(enfant.updated_at)),
    ]
}

/// A child written as a JSON object.
pub open spec fn enfant_json(enfant: EnfantView) -> Seq<char> {
    object_text(enfant_members(enfant))
}

/// A child with a non-empty code of its own.
pub open spec fn has_code(enfant: EnfantView) -> bool {
    enfant.code matches Some(code) && code.len() > 0
}

/// The child as it is stored: with the identifier the store gave and the code
/// it was stored under.
pub open spec fn stored_as(enfant: EnfantView, id: Option<i64>, code: Option<Seq<char>>) -> EnfantView {
    EnfantView { id, code, ..enfant }
}

/// The history entry for a child that was created.
pub open spec fn creation_entry(id: i64, after: EnfantView) -> ChildHistoryView {
    ChildHistoryView {
        id: None,
        child_id: id,
        action_type: ACTION_CREATE@,
        action_date: None,
        user_id: None,
        old_data: None,
        new_data: Some(enfant_json(after)),
    }
}

/// The history entry for a child that was updated.
pub open spec fn update_entry(id: i64, before: EnfantView, after: EnfantView) -> ChildHistoryView {
    ChildHistoryView {
        id: None,
        child_id: id,
        action_type: ACTION_UPDATE@,
        action_date: None,
        user_id: None,
        old_data: Some(enfant_json(before)),
        new_data: Some(enfant_json(after)),
    }
}

/// The history entry for a child that was deleted.
pub open spec fn deletion_entry(id: i64, user_id: Option<i64>, before: EnfantView) -> ChildHistoryView {
    ChildHistoryView {
        id: None,
        child_id: id,
        action_type: ACTION_DELETE@,
        action_date: None,
        user_id,
        old_data: Some(enfant_json(before)),
        new_data: None,
    }
}

/// The snapshot of a child that was deleted.
pub open spec fn deletion_snapshot(id: i64, user_id: Option<i64>, before: EnfantView) -> DeletedChildrenLogView {
    DeletedChildrenLogView {
        id: None,
        original_id: id,
        action_date: None,
        user_id,
        child_data: Some(enfant_json(before)),
    }
}

/// A look-up of a child by a code of the generated format.
pub open spec fn is_code_lookup(exchange: Exchange) -> bool {
    exists|code: Seq<char>|
        has_code_format(code) && exchange.statement == #[trigger] select_enfant_by_code(code)
}

/// The look-up found a child: the code is taken.
pub open spec fn code_taken(exchange: Exchange) -> bool {
    optional_of_reply::<Enfant>(exchange.reply) matches Ok(Some(_))
}

/// The search for an unused code among at most `limit` codes: one look-up
/// per code tried, each but the last finding the code taken. It ends with a
/// code that no child has, with the failure of a look-up, or with
/// `CodesExhausted` once `limit` codes were all taken.
pub open spec fn searched_code(limit: usize, steps: Seq<Exchange>, found: Result<Seq<char>, Failure>) -> bool {
    &&& steps.len() <= limit
    &&& forall|k: int| 0 <= k < steps.len() ==> is_code_lookup(#[trigger] steps[k])
    &&& forall|k: int| 0 <= k < steps.len() - 1 ==> code_taken(#[trigger] steps[k])
    &&& if steps.len() == 0 {
        limit == 0 && found == Err::<Seq<char>, Failure>(Failure::CodesExhausted)
    } else {
        match found {
            Ok(code) => {
                &&& has_code_format(code)
                &&& steps.last().statement == select_enfant_by_code(code)
                &&& optional_of_reply::<Enfant>(steps.last().reply) == Ok::<Option<EnfantView>, Failure>(
                    None,
                )
            },
            Err(failure) => if code_taken(steps.last()) {
                steps.len() == limit && failure == Failure::CodesExhausted
            } else {
                optional_of_reply::<Enfant>(steps.last().reply) == Err::<Option<EnfantView>, Failure>(
                    failure,
                )
            },
        }
    }
}

/// A child stored under `code`, then its creation entered in the history.
pub open spec fn inserted_with_history(
    enfant: EnfantView,
    code: Seq<char>,
    steps: Seq<Exchange>,
    result: Result<i64, Failure>,
) -> bool {
    &&& steps.len() >= 1
    &&& steps[0].statement == insert_enfant(enfant, code)
    &&& match inserted_id(steps[0].reply) {
        Err(failure) => steps.len() == 1 && result == Err::<i64, Failure>(failure),
        Ok(id) => {
            &&& steps.len() == 2
            &&& steps[1].statement == insert_history(
                creation_entry(id, stored_as(enfant, Some(id), Some(code))),
            )
            &&& result == match done(steps[1].reply) {
                Ok(_) => Ok::<i64, Failure>(id),
                Err(failure) => Err::<i64, Failure>(failure),
            }
        },
    }
}

/// What creating a child asks of the store. A child that brings a code is
/// stored under it. For one that brings none, or an empty one, an unused code
/// is searched first, and the child is stored under the code found.
pub open spec fn creates(enfant: EnfantView, steps: Seq<Exchange>, result: Result<i64, Failure>) -> bool {
    if has_code(enfant) {
        inserted_with_history(enfant, enfant.code->0, steps, result)
    } else {
        exists|n: int, found: Result<Seq<char>, Failure>|
            1 <= n <= steps.len() && #[trigger] searched_code(MAX_CODE_ATTEMPTS, steps.take(n), found) && match found {
                Err(failure) => n == steps.len() && result == Err::<i64, Failure>(failure),
                Ok(code) => inserted_with_history(enfant, code, steps.skip(n), result),
            }
    }
}

/// What updating a child asks of the store: the child as it is stored, then
/// the new values, then the entry in the history with both.
pub open spec fn updates(enfant: EnfantView, steps: Seq<Exchange>, result: Result<(), Failure>) -> bool {
    &&& steps.len() >= 1
    &&& steps[0].statement == select_enfant_by_id(enfant.id->0)
    &&& match one_of_reply::<Enfant>(steps[0].reply) {
        Err(failure) => steps.len() == 1 && result == Err::<(), Failure>(failure),
        Ok(before) => wrote_in_order(
            seq![update_enfant_statement(enfant), insert_history(update_entry(enfant.id->0, before, enfant))],
            steps.skip(1),
            result,
        ),
    }
}

/// What deleting a child asks of the store: the child as it is stored, then
/// its snapshot in the deletion log, then the entry in the history, and only
/// then its removal.
pub open spec fn deletes(enfant_id: i64, user_id: Option<i64>, steps: Seq<Exchange>, result: Result<(), Failure>) -> bool {
    &&& steps.len() >= 1
    &&& steps[0].statement == select_enfant_by_id(enfant_id)
    &&& match one_of_reply::<Enfant>(steps[0].reply) {
        Err(failure) => steps.len() == 1 && result == Err::<(), Failure>(failure),
        Ok(before) => wrote_in_order(
            seq![
                insert_deletion(deletion_snapshot(enfant_id, user_id, before)),
                insert_history(deletion_entry(enfant_id, user_id, before)),
                delete_enfant_statement(enfant_id),
            ],
            steps.skip(1),
            result,
        ),
    }
}

fn enfant_params(enfant: &Enfant, code: SqlValue) -> (params: Vec<SqlValue>)
    ensures
        params.deep_view() == enfant_values(enfant@, code@),
{
    let params = vec![
        SqlValue::text(enfant.nom.as_str()),
        SqlValue::text(enfant.prenom.as_str()),
        code,
        date_value(&enfant.date_naissance),
        SqlValue::optional_integer(enfant.age_premier_contact),
        SqlValue::text(enfant.sexe.as_str()),
        SqlValue::optional_text(&enfant.nom_mere),
        SqlValue::optional_text(&enfant.nom_pere),
        SqlValue::optional_text(&enfant.domicile),
        SqlValue::optional_text(&enfant.fokotany),
        SqlValue::optional_text(&enfant.hameau),
        SqlValue::optional_text(&enfant.telephone),
    ];
    assert(params.deep_view() =~= enfant_values(enfant@, code@));
    params
}

fn history_params(entry: &ChildHistory) -> (params: Vec<SqlValue>)
    ensures
        params.deep_view() == insert_history(entry@).params,
{
    let params = vec![
        SqlValue::Integer(entry.child_id),
        SqlValue::text(entry.action_type.as_str()),
        SqlValue::optional_integer(entry.user_id),
        SqlValue::optional_text(&entry.old_data),
        SqlValue::optional_text(&entry.new_data),
    ];
    assert(params.deep_view() =~= insert_history(entry@).params);
    params
}

fn deletion_params(entry: &DeletedChildrenLog) -> (params: Vec<SqlValue>)
    ensures
        params.deep_view() == insert_deletion(entry@).params,
{
    let params = vec![
        SqlValue::Integer(entry.original_id),
        SqlValue::optional_integer(entry.user_id),
        SqlValue::optional_text(&entry.child_data),
    ];
    assert(params.deep_view() =~= insert_deletion(entry@).params);
    params
}

/// Writes a child as a JSON object, with `id` and `code` in the place of its
/// own.
pub fn enfant_to_json_as(enfant: &Enfant, id: Option<i64>, code: &Option<String>) -> (text: String)
    ensures
        text@ == enfant_json(stored_as(enfant@, id, code.deep_view())),
{
    let members = vec![
        member_of("id", optional_integer_json(id)),
        member_of("nom", string_json(enfant.nom.as_str())),
        member_of("prenom", string_json(enfant.prenom.as_str())),
        member_of("code", optional_string_json(code)),
        member_of("date_naissance", date_json(&enfant.date_naissance)),
        member_of("age_premier_contact", optional_integer_json(enfant.age_premier_contact)),
        member_of("sexe", string_json(enfant.sexe.as_str())),
        member_of("nom_mere", optional_string_json(&enfant.nom_mere)),
        member_of("nom_pere", optional_string_json(&enfant.nom_pere)),
        member_of("domicile", optional_string_json(&enfant.domicile)),
        member_of("fokotany", optional_string_json(&enfant.fokotany)),
        member_of("hameau", optional_string_json(&enfant.hameau)),
        member_of("telephone", optional_string_json(&enfant.telephone)),
        member_of("created_at", optional_instant_json(&enfant.created_at)),
        member_of("updated_at", optional_instant_json(&enfant.updated_at)),
    ];
    assert(members.deep_view() =~= enfant_members(stored_as(enfant@, id, code.deep_view())));
    frame_object(&members)
}

/// Writes a child as a JSON object.
pub fn enfant_to_json(enfant: &Enfant) -> (text: String)
    ensures
        text@ == enfant_json(enfant@),
{
    assert(stored_as(enfant@, enfant.id, enfant.code.deep_view()) == enfant@);
    enfant_to_json_as(enfant, enfant.id, &enfant.code)
}

/// Appends an entry to the history of a child.
pub fn record_history(db: &mut Database, entry: &ChildHistory) -> (recorded: Result<(), DbError>)
    ensures
        answered(*old(db), *final(db), insert_history(entry@), recorded, done(final(db).last_reply())),
{
    let params = history_params(entry);
    change(db, INSERT_HISTORY, &params)
}

/// Appends the snapshot of a deleted child to the deletion log.
pub fn record_deletion(db: &mut Database, entry: &DeletedChildrenLog) -> (recorded: Result<(), DbError>)
    ensures
        answered(*old(db), *final(db), insert_deletion(entry@), recorded, done(final(db).last_reply())),
{
    let params = deletion_params(entry);
    change(db, INSERT_DELETION, &params)
}

/// The child with this identifier; `NotFound` where there is none.
pub fn get_enfant_by_id(db: &mut Database, enfant_id: i64) -> (found: Result<Enfant, DbError>)
    ensures
        answered(
            *old(db),
            *final(db),
            select_enfant_by_id(enfant_id),
            found,
            one_of_reply::<Enfant>(final(db).last_reply()),
        ),
{
    let params = vec![SqlValue::Integer(enfant_id)];
    assert(params.deep_view() =~= select_enfant_by_id(enfant_id).params);
    fetch_one::<Enfant>(db, SELECT_ENFANT_BY_ID, &params)
}

/// The child with this code, if there is one.
pub fn get_enfant_by_code(db: &mut Database, code: &str) -> (found: Result<Option<Enfant>, DbError>)
    ensures
        answered(
            *old(db),
            *final(db),
            select_enfant_by_code(code@),
            found,
            optional_of_reply::<Enfant>(final(db).last_reply()),
        ),
{
    let params = vec![SqlValue::text(code)];
    assert(params.deep_view() =~= select_enfant_by_code(code@).params);
    fetch_optional::<Enfant>(db, SELECT_ENFANT_BY_CODE, &params)
}

/// All children, by name and first name.
pub fn get_all_enfants(db: &mut Database) -> (found: Result<Vec<Enfant>, DbError>)
    ensures
        answered(
            *old(db),
            *final(db),
            select_all_enfants(),
            found,
            all_of_reply::<Enfant>(final(db).last_reply()),
        ),
{
    let params: Vec<SqlValue> = Vec::new();
    assert(params.deep_view() =~= select_all_enfants().params);
    fetch_all::<Enfant>(db, SELECT_ALL_ENFANTS, &params)
}

/// Finds a code that no child has: makes a code from a fresh random
/// identifier and looks it up, again while the code is taken, at most `limit`
/// times.
pub fn generate_unique_code_within(db: &mut Database, limit: usize) -> (code: Result<String, DbError>)
    ensures
        continues(*old(db), *final(db)),
        if old(db).is_open() {
            searched_code(limit, trace(*old(db), *final(db)), outcome_view(code))
        } else if limit == 0 {
            final(db).journal() == old(db).journal() && code matches Err(DbError::CodesExhausted)
        } else {
            final(db).journal() == old(db).journal() && code matches Err(DbError::NotInitialized)
        },
{
    let ghost start = *db;
    let mut attempts: usize = 0;
    assert(trace(start, *db) =~= Seq::<Exchange>::empty());
    assert(db.journal() =~= start.journal() + trace(start, *db));
    while attempts < limit
        invariant
            attempts <= limit,
            start == *old(db),
            continues(start, *db),
            trace(start, *db).len() == attempts,
            attempts > 0 ==> start.is_open(),
            attempts == 0 ==> db.journal() == start.journal(),
            forall|k: int|
                0 <= k < attempts ==> is_code_lookup(#[trigger] trace(start, *db)[k]) && code_taken(
                    trace(start, *db)[k],
                ),
        decreases limit - attempts,
    {
        let candidate = fresh_code();
        let ghost before = *db;
        let found = get_enfant_by_code(db, candidate.as_str());
        proof {
            lemma_asked(before, *db, select_enfant_by_code(candidate@));
            lemma_continues(start, before, *db);
            if start.is_open() {
                let steps = trace(start, *db);
                assert(steps.len() == attempts + 1);
                assert(steps.last() == db.journal().last());
                assert(is_code_lookup(steps.last()));
                assert forall|k: int| 0 <= k < steps.len() implies is_code_lookup(#[trigger] steps[k]) by {
                    if k < attempts {
                        assert(steps[k] == trace(start, before)[k]);
                    }
                }
                assert forall|k: int| 0 <= k < steps.len() - 1 implies code_taken(#[trigger] steps[k]) by {
                    assert(steps[k] == trace(start, before)[k]);
                }
            }
        }
        match found {
            Err(failure) => {
                return Err(failure);
            },
            Ok(None) => {
                return Ok(candidate);
            },
            Ok(Some(_)) => {},
        }
        proof {
            let steps = trace(start, *db);
            assert forall|k: int| 0 <= k < attempts + 1 implies is_code_lookup(#[trigger] steps[k])
                && code_taken(steps[k]) by {
                if k < attempts {
                    assert(steps[k] == trace(start, before)[k]);
                }
            }
        }
        attempts = attempts + 1;
    }
    Err(DbError::CodesExhausted)
}

/// Finds a code that no child has, among at most `MAX_CODE_ATTEMPTS` codes.
pub fn generate_unique_code(db: &mut Database) -> (code: Result<String, DbError>)
    ensures
        continues(*old(db), *final(db)),
        if old(db).is_open() {
            searched_code(MAX_CODE_ATTEMPTS, trace(*old(db), *final(db)), outcome_view(code))
        } else {
            final(db).journal() == old(db).journal() && code matches Err(DbError::NotInitialized)
        },
{
    generate_unique_code_within(db, MAX_CODE_ATTEMPTS)
}

fn insert_with_history(db: &mut Database, enfant: &Enfant, code: String) -> (id: Result<i64, DbError>)
    requires
        old(db).is_open(),
    ensures
        continues(*old(db), *final(db)),
        inserted_with_history(enfant@, code@, trace(*old(db), *final(db)), outcome_view(id)),
{
    let ghost start = *db;
    let params = enfant_params(enfant, SqlValue::text(code.as_str()));
    let inserted = insert(db, INSERT_ENFANT, &params);
    proof {
        lemma_asked(start, *db, insert_enfant(enfant@, code@));
    }
    let id = match inserted {
        Ok(id) => id,
        Err(failure) => {
            return Err(failure);
        },
    };
    let ghost stored = *db;
    let kept = Some(code);
    let entry = ChildHistory {
        id: None,
        child_id: id,
        action_type: String::from_str(ACTION_CREATE),
        action_date: None,
        user_id: None,
        old_data: None,
        new_data: Some(enfant_to_json_as(enfant, Some(id), &kept)),
    };
    assert(entry@ == creation_entry(id, stored_as(enfant@, Some(id), Some(code@))));
    let recorded = record_history(db, &entry);
    proof {
        lemma_asked(stored, *db, insert_history(entry@));
        lemma_continues(start, stored, *db);
    }
    match recorded {
        Ok(()) => Ok(id),
        Err(failure) => Err(failure),
    }
}

fn create_enfant_steps(db: &mut Database, enfant: &Enfant) -> (id: Result<i64, DbError>)
    requires
        old(db).is_open(),
    ensures
        continues(*old(db), *final(db)),
        creates(enfant@, trace(*old(db), *final(db)), outcome_view(id)),
{
    let ghost start = *db;
    match &enfant.code {
        Some(code) => {
            if !code.as_str().is_empty() {
                return insert_with_history(db, enfant, code.clone());
            }
        },
        None => {},
    }
    let found = generate_unique_code(db);
    let ghost searched = *db;
    let code = match found {
        Ok(code) => code,
        Err(failure) => {
            proof {
                let steps = trace(start, searched);
                assert(steps.take(steps.len() as int) =~= steps);
                assert(searched_code(MAX_CODE_ATTEMPTS, steps.take(steps.len() as int), outcome_view(found)));
            }
            return Err(failure);
        },
    };
    let id = insert_with_history(db, enfant, code);
    proof {
        lemma_continues(start, searched, *db);
        let steps = trace(start, *db);
        let n = trace(start, searched).len() as int;
        assert(searched_code(MAX_CODE_ATTEMPTS, steps.take(n), outcome_view(found)));
        assert(inserted_with_history(enfant@, code@, steps.skip(n), outcome_view(id)));
    }
    id
}

/// Stores a new child and gives its identifier. A child that comes without a
/// code, or with an empty one, gets a generated code that was looked up and
/// found unused. The creation is entered in the history in the same
/// transaction.
pub fn create_enfant(db: &mut Database, enfant: &Enfant) -> (id: Result<i64, DbError>)
    ensures
        in_transaction(
            *old(db),
            *final(db),
            outcome_view(id),
            |steps: Seq<Exchange>, inner: Result<i64, Failure>| creates(enfant@, steps, inner),
        ),
{
    let ghost start = *db;
    let ghost body = |steps: Seq<Exchange>, inner: Result<i64, Failure>| creates(enfant@, steps, inner);
    match begin(db) {
        Ok(()) => {},
        Err(failure) => {
            proof {
                lemma_not_begun::<i64>(start, *db, failure@, body);
            }
            return Err(failure);
        },
    }
    let ghost begun = *db;
    let inner = create_enfant_steps(db, enfant);
    let ghost inside = *db;
    let id = finish(db, inner);
    proof {
        lemma_in_transaction(start, begun, inside, *db, outcome_view(inner), outcome_view(id), body);
    }
    id
}

fn update_enfant_steps(db: &mut Database, enfant: &Enfant, enfant_id: i64) -> (updated: Result<(), DbError>)
    requires
        old(db).is_open(),
        enfant.id == Some(enfant_id),
    ensures
        continues(*old(db), *final(db)),
        updates(enfant@, trace(*old(db), *final(db)), outcome_view(updated)),
{
    let ghost start = *db;
    let found = get_enfant_by_id(db, enfant_id);
    proof {
        lemma_asked(start, *db, select_enfant_by_id(enfant_id));
    }
    let before = match found {
        Ok(before) => before,
        Err(failure) => {
            return Err(failure);
        },
    };
    let ghost read = *db;
    let entry = ChildHistory {
        id: None,
        child_id: enfant_id,
        action_type: String::from_str(ACTION_UPDATE),
        action_date: None,
        user_id: None,
        old_data: Some(enfant_to_json(&before)),
        new_data: Some(enfant_to_json(enfant)),
    };
    assert(entry@ == update_entry(enfant_id, before@, enfant@));
    let mut values = enfant_params(enfant, SqlValue::optional_text(&enfant.code));
    let ghost written = values.deep_view();
    values.push(SqlValue::optional_integer(enfant.id));
    assert(values.deep_view() =~= written.push(integer_or_null(enfant.id)));
    let statements = vec![
        Prepared { sql: UPDATE_ENFANT, params: values },
        Prepared { sql: INSERT_HISTORY, params: history_params(&entry) },
    ];
    assert(statements.deep_view() =~= seq![
        update_enfant_statement(enfant@),
        insert_history(update_entry(enfant_id, before@, enfant@)),
    ]);
    let updated = write_in_order(db, &statements);
    proof {
        lemma_continues(start, read, *db);
    }
    updated
}

/// Rewrites a stored child and enters the update in the history, with the
/// child as it was and as it is, in one transaction. Fails with `MissingId`,
/// asking nothing of the store, where the record has no identifier, and with
/// `NotFound` where the store has no child with it.
pub fn update_enfant(db: &mut Database, enfant: &Enfant) -> (updated: Result<(), DbError>)
    ensures
        enfant.id is None ==> *final(db) == *old(db) && updated matches Err(DbError::MissingId),
        enfant.id is Some ==> in_transaction(
            *old(db),
            *final(db),
            outcome_view(updated),
            |steps: Seq<Exchange>, inner: Result<(), Failure>| updates(enfant@, steps, inner),
        ),
{
    let enfant_id = match enfant.id {
        Some(id) => id,
        None => {
            return Err(DbError::MissingId);
        },
    };
    let ghost start = *db;
    let ghost body = |steps: Seq<Exchange>, inner: Result<(), Failure>| updates(enfant@, steps, inner);
    match begin(db) {
        Ok(()) => {},
        Err(failure) => {
            proof {
                lemma_not_begun::<()>(start, *db, failure@, body);
            }
            return Err(failure);
        },
    }
    let ghost begun = *db;
    let inner = update_enfant_steps(db, enfant, enfant_id);
    let ghost inside = *db;
    let updated = finish(db, inner);
    proof {
        lemma_in_transaction(start, begun, inside, *db, outcome_view(inner), outcome_view(updated), body);
    }
    updated
}

fn delete_enfant_steps(db: &mut Database, enfant_id: i64, user_id: Option<i64>) -> (deleted: Result<(), DbError>)
    requires
        old(db).is_open(),
    ensures
        continues(*old(db), *final(db)),
        deletes(enfant_id, user_id, trace(*old(db), *final(db)), outcome_view(deleted)),
{
    let ghost start = *db;
    let found = get_enfant_by_id(db, enfant_id);
    proof {
        lemma_asked(start, *db, select_enfant_by_id(enfant_id));
    }
    let before = match found {
        Ok(before) => before,
        Err(failure) => {
            return Err(failure);
        },
    };
    let ghost read = *db;
    let snapshot = DeletedChildrenLog {
        id: None,
        original_id: enfant_id,
        action_date: None,
        user_id,
        child_data: Some(enfant_to_json(&before)),
    };
    let entry = ChildHistory {
        id: None,
        child_id: enfant_id,
        action_type: String::from_str(ACTION_DELETE),
        action_date: None,
        user_id,
        old_data: Some(enfant_to_json(&before)),
        new_data: None,
    };
    assert(snapshot@ == deletion_snapshot(enfant_id, user_id, before@));
    assert(entry@ == deletion_entry(enfant_id, user_id, before@));
    let statements = vec![
        Prepared { sql: INSERT_DELETION, params: deletion_params(&snapshot) },
        Prepared { sql: INSERT_HISTORY, params: history_params(&entry) },
        Prepared { sql: DELETE_ENFANT, params: vec![SqlValue::Integer(enfant_id)] },
    ];
    assert(statements[2]@.params =~= delete_enfant_statement(enfant_id).params);
    assert(statements.deep_view() =~= seq![
        insert_deletion(deletion_snapshot(enfant_id, user_id, before@)),
        insert_history(deletion_entry(enfant_id, user_id, before@)),
        delete_enfant_statement(enfant_id),
    ]);
    let deleted = write_in_order(db, &statements);
    proof {
        lemma_continues(start, read, *db);
    }
    deleted
}

/// Removes a child, in one transaction that first puts its snapshot in the
/// deletion log and the deletion in the history. Fails with `NotFound` where
/// the store has no child with this identifier.
pub fn delete_enfant(db: &mut Database, enfant_id: i64, user_id: Option<i64>) -> (deleted: Result<(), DbError>)
    ensures
        in_transaction(
            *old(db),
            *final(db),
            outcome_view(deleted),
            |steps: Seq<Exchange>, inner: Result<(), Failure>| deletes(enfant_id, user_id, steps, inner),
        ),
{
    let ghost start = *db;
    let ghost body = |steps: Seq<Exchange>, inner: Result<(), Failure>|
        deletes(enfant_id, user_id, steps, inner);
    match begin(db) {
        Ok(()) => {},
        Err(failure) => {
            proof {
                lemma_not_begun::<()>(start, *db, failure@, body);
            }
            return Err(failure);
        },
    }
    let ghost begun = *db;
    let inner = delete_enfant_steps(db, enfant_id, user_id);
    let ghost inside = *db;
    let deleted = finish(db, inner);
    proof {
        lemma_in_transaction(start, begun, inside, *db, outcome_view(inner), outcome_view(deleted), body);
    }
    deleted
}

/// A child that came without a code and was created is stored under a code
/// of the generated format, and the last thing asked of the store before the
/// child was stored is whether a child has that code, to which the store
/// answered that none has.
pub proof fn lemma_created_code_is_fresh(enfant: EnfantView, steps: Seq<Exchange>, id: i64)
    requires
        !has_code(enfant),
        creates(enfant, steps, Ok(id)),
    ensures
        steps.len() >= 3,
        exists|code: Seq<char>|
            {
                &&& has_code_format(code)
                &&& #[trigger] insert_enfant(enfant, code) == steps[steps.len() - 2].statement
                &&& steps[steps.len() - 3].statement == select_enfant_by_code(code)
                &&& optional_of_reply::<Enfant>(steps[steps.len() - 3].reply) == Ok::<
                    Option<EnfantView>,
                    Failure,
                >(None)
                &&& steps.last().statement == insert_history(
                    creation_entry(id, stored_as(enfant, Some(id), Some(code))),
                )
            },
{
    let (n, found) = choose|n: int, found: Result<Seq<char>, Failure>|
        1 <= n <= steps.len() && #[trigger] searched_code(MAX_CODE_ATTEMPTS, steps.take(n), found) && match found {
            Err(failure) => n == steps.len() && Ok::<i64, Failure>(id) == Err::<i64, Failure>(failure),
            Ok(code) => inserted_with_history(enfant, code, steps.skip(n), Ok(id)),
        };
    let code = found->Ok_0;
    let rest = steps.skip(n);
    assert(rest.len() == 2);
    assert(rest[0] == steps[steps.len() - 2]);
    assert(rest[1] == steps.last());
    assert(steps.take(n).last() == steps[steps.len() - 3]);
    assert(insert_enfant(enfant, code) == steps[steps.len() - 2].statement);
}

/// A child that brought its own code and was created is stored under that
/// code, with one history entry of the type `CREATE` that holds the child as
/// stored and no earlier state.
pub proof fn lemma_created_with_own_code(enfant: EnfantView, steps: Seq<Exchange>, id: i64)
    requires
        has_code(enfant),
        creates(enfant, steps, Ok(id)),
    ensures
        steps.len() == 2,
        steps[0].statement == insert_enfant(enfant, enfant.code->0),
        inserted_id(steps[0].reply) == Ok::<i64, Failure>(id),
        steps[1].statement == insert_history(creation_entry(id, stored_as(enfant, Some(id), enfant.code))),
        creation_entry(id, stored_as(enfant, Some(id), enfant.code)).action_type == ACTION_CREATE@,
        creation_entry(id, stored_as(enfant, Some(id), enfant.code)).old_data is None,
{
}

/// An update that succeeded asked three things of the store: the child as
/// stored, the new values for the very row read, and one history entry, of
/// the type `UPDATE`, that holds the child as it was and as it is. Where the
/// record passed in is the one that was read, the entry's two states are the
/// same text.
pub proof fn lemma_update_enters_history_once(enfant: EnfantView, steps: Seq<Exchange>)
    requires
        enfant.id is Some,
        updates(enfant, steps, Ok(())),
    ensures
        steps.len() == 3,
        steps[0].statement == select_enfant_by_id(enfant.id->0),
        one_of_reply::<Enfant>(steps[0].reply) is Ok,
        steps[1].statement == update_enfant_statement(enfant),
        steps[2].statement == insert_history(
            update_entry(enfant.id->0, one_of_reply::<Enfant>(steps[0].reply)->Ok_0, enfant),
        ),
        steps[2].statement.params[1] == SqlDatum::Text(ACTION_UPDATE@),
        one_of_reply::<Enfant>(steps[0].reply) == Ok::<EnfantView, Failure>(enfant) ==> {
            let entry = update_entry(enfant.id->0, enfant, enfant);
            steps[2].statement == insert_history(entry) && entry.old_data == entry.new_data
        },
{
    let rest = steps.skip(1);
    assert(rest.len() == 2);
    assert(rest[0] == steps[1]);
    assert(rest[1] == steps[2]);
}

/// A deletion that succeeded asked four things of the store, in this order:
/// the child as stored; one snapshot in the deletion log, under the child's
/// identifier; one history entry of the type `DELETE`, holding the child as
/// it was; and the removal of the child.
pub proof fn lemma_delete_keeps_trail(enfant_id: i64, user_id: Option<i64>, steps: Seq<Exchange>)
    requires
        deletes(enfant_id, user_id, steps, Ok(())),
    ensures
        steps.len() == 4,
        steps[0].statement == select_enfant_by_id(enfant_id),
        one_of_reply::<Enfant>(steps[0].reply) is Ok,
        steps[1].statement == insert_deletion(
            deletion_snapshot(enfant_id, user_id, one_of_reply::<Enfant>(steps[0].reply)->Ok_0),
        ),
        steps[1].statement.params[0] == SqlDatum::Integer(enfant_id),
        steps[2].statement == insert_history(
            deletion_entry(enfant_id, user_id, one_of_reply::<Enfant>(steps[0].reply)->Ok_0),
        ),
        steps[2].statement.params[1] == SqlDatum::Text(ACTION_DELETE@),
        steps[3].statement == delete_enfant_statement(enfant_id),
{
    let rest = steps.skip(1);
    assert(rest.len() == 3);
    assert(rest[0] == steps[1]);
    assert(rest[1] == steps[2]);
    assert(rest[2] == steps[3]);
}

/// A child that the store does not have is not deleted: nothing is written,
/// and the failure is `NotFound`.
pub proof fn lemma_delete_of_unknown(enfant_id: i64, user_id: Option<i64>, steps: Seq<Exchange>, result: Result<(), Failure>)
    requires
        deletes(enfant_id, user_id, steps, result),
        steps[0].reply == Reply::Rows(Seq::empty()),
    ensures
        steps.len() == 1,
        result == Err::<(), Failure>(Failure::NotFound),
{
}

/// An update that succeeded asked five things of the store and no more:
/// `BEGIN`, the child as stored, the new values, one history entry of the
/// type `UPDATE`, and `COMMIT`.
pub proof fn lemma_update_is_one_transaction(before: Database, after: Database, enfant: EnfantView)
    requires
        before.is_open(),
        enfant.id is Some,
        in_transaction(
            before,
            after,
            Ok::<(), Failure>(()),
            |steps: Seq<Exchange>, inner: Result<(), Failure>| updates(enfant, steps, inner),
        ),
    ensures
        trace(before, after).len() == 5,
        trace(before, after)[0].statement == plain(BEGIN@),
        trace(before, after)[1].statement == select_enfant_by_id(enfant.id->0),
        trace(before, after)[2].statement == update_enfant_statement(enfant),
        trace(before, after)[3].statement == insert_history(
            update_entry(enfant.id->0, one_of_reply::<Enfant>(trace(before, after)[1].reply)->Ok_0, enfant),
        ),
        trace(before, after)[3].statement.params[1] == SqlDatum::Text(ACTION_UPDATE@),
        trace(before, after)[4].statement == plain(COMMIT@),
{
    let steps = trace(before, after);
    let body = |steps: Seq<Exchange>, inner: Result<(), Failure>| updates(enfant, steps, inner);
    lemma_committed(steps, (), body);
    let inside = steps.subrange(1, steps.len() - 1);
    lemma_update_enters_history_once(enfant, inside);
    assert(inside[0] == steps[1]);
    assert(inside[1] == steps[2]);
    assert(inside[2] == steps[3]);
}

/// A deletion that succeeded asked six things of the store and no more:
/// `BEGIN`, the child as stored, one snapshot in the deletion log under the
/// child's identifier, one history entry of the type `DELETE`, the removal of
/// the child, and `COMMIT`.
pub proof fn lemma_delete_is_one_transaction(before: Database, after: Database, enfant_id: i64, user_id: Option<i64>)
    requires
        before.is_open(),
        in_transaction(
            before,
            after,
            Ok::<(), Failure>(()),
            |steps: Seq<Exchange>, inner: Result<(), Failure>| deletes(enfant_id, user_id, steps, inner),
        ),
    ensures
        trace(before, after).len() == 6,
        trace(before, after)[0].statement == plain(BEGIN@),
        trace(before, after)[1].statement == select_enfant_by_id(enfant_id),
        trace(before, after)[2].statement == insert_deletion(
            deletion_snapshot(enfant_id, user_id, one_of_reply::<Enfant>(trace(before, after)[1].reply)->Ok_0),
        ),
        trace(before, after)[2].statement.params[0] == SqlDatum::Integer(enfant_id),
        trace(before, after)[3].statement == insert_history(
            deletion_entry(enfant_id, user_id, one_of_reply::<Enfant>(trace(before, after)[1].reply)->Ok_0),
        ),
        trace(before, after)[3].statement.params[1] == SqlDatum::Text(ACTION_DELETE@),
        trace(before, after)[4].statement == delete_enfant_statement(enfant_id),
        trace(before, after)[5].statement == plain(COMMIT@),
{
    let steps = trace(before, after);
    let body = |steps: Seq<Exchange>, inner: Result<(), Failure>| deletes(enfant_id, user_id, steps, inner);
    lemma_committed(steps, (), body);
    let inside = steps.subrange(1, steps.len() - 1);
    lemma_delete_keeps_trail(enfant_id, user_id, inside);
    assert(inside[0] == steps[1]);
    assert(inside[1] == steps[2]);
    assert(inside[2] == steps[3]);
    assert(inside[3] == steps[4]);
}

/// The creation of a child that came without a code, once it succeeded,
/// ended with: the look-up of a code of the generated format, to which the
/// store answered that no child has it; the child stored under that very
/// code; the creation entered in the history; and `COMMIT`.
pub proof fn lemma_create_assigns_a_fresh_code(before: Database, after: Database, enfant: EnfantView, id: i64)
    requires
        before.is_open(),
        !has_code(enfant),
        in_transaction(
            before,
            after,
            Ok::<i64, Failure>(id),
            |steps: Seq<Exchange>, inner: Result<i64, Failure>| creates(enfant, steps, inner),
        ),
    ensures
        trace(before, after).len() >= 5,
        trace(before, after)[0].statement == plain(BEGIN@),
        trace(before, after).last().statement == plain(COMMIT@),
        exists|code: Seq<char>|
            {
                let steps = trace(before, after);
                &&& has_code_format(code)
                &&& steps[steps.len() - 4].statement == #[trigger] select_enfant_by_code(code)
                &&& optional_of_reply::<Enfant>(steps[steps.len() - 4].reply) == Ok::<
                    Option<EnfantView>,
                    Failure,
                >(None)
                &&& steps[steps.len() - 3].statement == insert_enfant(enfant, code)
                &&& steps[steps.len() - 2].statement == insert_history(
                    creation_entry(id, stored_as(enfant, Some(id), Some(code))),
                )
            },
{
    let steps = trace(before, after);
    let body = |steps: Seq<Exchange>, inner: Result<i64, Failure>| creates(enfant, steps, inner);
    lemma_committed(steps, id, body);
    let inside = steps.subrange(1, steps.len() - 1);
    lemma_created_code_is_fresh(enfant, inside, id);
    let code = choose|code: Seq<char>|
        {
            &&& has_code_format(code)
            &&& #[trigger] insert_enfant(enfant, code) == inside[inside.len() - 2].statement
            &&& inside[inside.len() - 3].statement == select_enfant_by_code(code)
            &&& optional_of_reply::<Enfant>(inside[inside.len() - 3].reply) == Ok::<
                Option<EnfantView>,
                Failure,
            >(None)
            &&& inside.last().statement == insert_history(
                creation_entry(id, stored_as(enfant, Some(id), Some(code))),
            )
        };
    assert(inside[inside.len() - 3] == steps[steps.len() - 4]);
    assert(inside[inside.len() - 2] == steps[steps.len() - 3]);
    assert(inside.last() == steps[steps.len() - 2]);
    assert(steps[steps.len() - 4].statement == select_enfant_by_code(code));
}

/// Writing back a child that was read from a row writes the row's own values:
/// every written column but the date of birth gets exactly the value that the
/// row holds for it, and the date of birth gets the text of the date that the
/// row's value was read as.
pub proof fn lemma_update_writes_back_what_was_read(row: Seq<SqlDatum>)
    requires
        conforms(row, Enfant::kinds()),
    ensures
        ({
            let enfant = Enfant::of_fields(row);
            let written = update_enfant_statement(enfant).params;
            &&& written.len() == 13
            &&& written[0] == row[1]
            &&& written[1] == row[2]
            &&& written[2] == row[3]
            &&& written[3] == date_datum(as_date(row[4]))
            &&& written[4] == row[5]
            &&& written[5] == row[6]
            &&& written[6] == row[7]
            &&& written[7] == row[8]
            &&& written[8] == row[9]
            &&& written[9] == row[10]
            &&& written[10] == row[11]
            &&& written[11] == row[12]
            &&& written[12] == row[0]
        }),
{
    let kinds = Enfant::kinds();
    assert(fits(row[0], kinds[0]));
    assert(fits(row[1], kinds[1]));
    assert(fits(row[2], kinds[2]));
    assert(fits(row[3], kinds[3]));
    assert(fits(row[5], kinds[5]));
    assert(fits(row[6], kinds[6]));
    assert(fits(row[7], kinds[7]));
    assert(fits(row[8], kinds[8]));
    assert(fits(row[9], kinds[9]));
    assert(fits(row[10], kinds[10]));
    assert(fits(row[11], kinds[11]));
    assert(fits(row[12], kinds[12]));
}

} // verus!
