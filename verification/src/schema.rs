//! The tables and indexes of the register.
//!
//! Every statement creates what it names only where it does not exist yet, so
//! the schema can be set up at each start, whatever the store holds already.

use vstd::prelude::*;
use crate::error::{DbError, outcome_view};
use crate::store::{Database, Statement, plain};
use crate::transaction::{Prepared, continues, trace, write_in_order, wrote_in_order};
use crate::value::{SqlValue, SqlDatum};

verus! {

pub const CREATE_USERS: &'static str =
    "CREATE TABLE IF NOT EXISTS users (
        id INTEGER PRIMARY KEY AUTOINCREMENT,
        username TEXT NOT NULL UNIQUE,
        password_hash TEXT NOT NULL,
        account_type TEXT CHECK(account_type IN ('admin', 'user', 'moderator')) DEFAULT 'user',
        status TEXT CHECK(status IN ('connected', 'disconnected')) DEFAULT 'disconnected',
        created_at TIMESTAMP DEFAULT CURRENT_TIMESTAMP,
        updated_at TIMESTAMP DEFAULT CURRENT_TIMESTAMP
    )";

pub const CREATE_LOGINS: &'static str =
    "CREATE TABLE IF NOT EXISTS logins (
        user_id INTEGER PRIMARY KEY,
        username TEXT NOT NULL,
        ip_address TEXT NOT NULL,
        status TEXT CHECK(status IN ('connected', 'disconnected')) DEFAULT 'connected',
        last_login TIMESTAMP DEFAULT CURRENT_TIMESTAMP,
        FOREIGN KEY (user_id) REFERENCES users(id) ON DELETE CASCADE
    )";

pub const CREATE_FOKOTANY: &'static str =
    "CREATE TABLE IF NOT EXISTS fokotany (
        id INTEGER PRIMARY KEY AUTOINCREMENT,
        nom TEXT NOT NULL,
        px REAL,
        py REAL,
        created_at TIMESTAMP DEFAULT CURRENT_TIMESTAMP,
        updated_at TIMESTAMP DEFAULT CURRENT_TIMESTAMP
    )";

pub const CREATE_HAMEAU: &'static str =
    "CREATE TABLE IF NOT EXISTS hameau (
        id INTEGER PRIMARY KEY AUTOINCREMENT,
        nom TEXT NOT NULL,
        px REAL NOT NULL,
        py REAL NOT NULL,
        created_at TIMESTAMP DEFAULT CURRENT_TIMESTAMP,
        updated_at TIMESTAMP DEFAULT CURRENT_TIMESTAMP
    )";

pub const CREATE_VACCINS: &'static str =
    "CREATE TABLE IF NOT EXISTS vaccins (
        id INTEGER PRIMARY KEY AUTOINCREMENT,
        nom TEXT NOT NULL,
        duree INTEGER,
        date_arrivee TEXT,
        date_peremption TEXT,
        description TEXT,
        created_at TIMESTAMP DEFAULT CURRENT_TIMESTAMP,
        updated_at TIMESTAMP DEFAULT CURRENT_TIMESTAMP,
        duree_jours INTEGER,
        age_annees INTEGER NOT NULL DEFAULT 0,
        age_mois INTEGER NOT NULL DEFAULT 0,
        age_jours INTEGER NOT NULL DEFAULT 0,
        lot TEXT DEFAULT '',
        stock INTEGER DEFAULT 0
    )";

pub const CREATE_ENFANTS: &'static str =
    "CREATE TABLE IF NOT EXISTS enfants (
        id INTEGER PRIMARY KEY AUTOINCREMENT,
        nom TEXT NOT NULL,
        prenom TEXT NOT NULL,
        code TEXT UNIQUE,
        date_naissance TEXT NOT NULL,
        age_premier_contact INTEGER,
        sexe TEXT CHECK(sexe IN ('M', 'F')) NOT NULL,
        nom_mere TEXT,
        nom_pere TEXT,
        domicile TEXT,
        fokotany TEXT,
        hameau TEXT,
        telephone TEXT,
        created_at TIMESTAMP DEFAULT CURRENT_TIMESTAMP,
        updated_at TIMESTAMP DEFAULT CURRENT_TIMESTAMP
    )";

pub const CREATE_VACCIN_PREREQUIS: &'static str =
    "CREATE TABLE IF NOT EXISTS vaccin_prerequis (
        id INTEGER PRIMARY KEY AUTOINCREMENT,
        vaccin_id INTEGER NOT NULL,
        prerequis_id INTEGER NOT NULL,
        strict INTEGER NOT NULL DEFAULT 0,
        FOREIGN KEY (vaccin_id) REFERENCES vaccins(id) ON DELETE CASCADE,
        FOREIGN KEY (prerequis_id) REFERENCES vaccins(id) ON DELETE CASCADE
    )";

pub const CREATE_VACCIN_SUITE: &'static str =
    "CREATE TABLE IF NOT EXISTS vaccin_suite (
        id INTEGER PRIMARY KEY AUTOINCREMENT,
        vaccin_id INTEGER NOT NULL,
        suite_id INTEGER NOT NULL,
        strict INTEGER NOT NULL DEFAULT 0,
        delai INTEGER NOT NULL DEFAULT 0,
        type TEXT NOT NULL,
        description TEXT,
        FOREIGN KEY (vaccin_id) REFERENCES vaccins(id) ON DELETE CASCADE,
        FOREIGN KEY (suite_id) REFERENCES vaccins(id) ON DELETE CASCADE
    )";

pub const CREATE_VACCINATIONS: &'static str =
    "CREATE TABLE IF NOT EXISTS vaccinations (
        id INTEGER PRIMARY KEY AUTOINCREMENT,
        enfant_id INTEGER NOT NULL,
        vaccin_id INTEGER NOT NULL,
        date_vaccination TEXT NOT NULL,
        remarque TEXT,
        created_at TIMESTAMP DEFAULT CURRENT_TIMESTAMP,
        updated_at TIMESTAMP DEFAULT CURRENT_TIMESTAMP,
        FOREIGN KEY (enfant_id) REFERENCES enfants(id) ON DELETE CASCADE,
        FOREIGN KEY (vaccin_id) REFERENCES vaccins(id) ON DELETE CASCADE
    )";

/// The history outlives the child: `child_id` is no foreign key.
pub const CREATE_CHILD_HISTORY: &'static str =
    "CREATE TABLE IF NOT EXISTS child_history (
        id INTEGER PRIMARY KEY AUTOINCREMENT,
        child_id INTEGER NOT NULL,
        action_type TEXT CHECK(action_type IN ('CREATE', 'UPDATE', 'DELETE')) NOT NULL,
        action_date TIMESTAMP DEFAULT CURRENT_TIMESTAMP,
        user_id INTEGER,
        old_data TEXT,
        new_data TEXT,
        FOREIGN KEY (user_id) REFERENCES users(id) ON DELETE SET NULL
    )";

pub const CREATE_DELETED_CHILDREN_LOG: &'static str =
    "CREATE TABLE IF NOT EXISTS deleted_children_log (
        id INTEGER PRIMARY KEY AUTOINCREMENT,
        original_id INTEGER NOT NULL,
        action_date TIMESTAMP DEFAULT CURRENT_TIMESTAMP,
        user_id INTEGER,
        child_data TEXT,
        FOREIGN KEY (user_id) REFERENCES users(id) ON DELETE SET NULL
    )";

pub const CREATE_NOTIFICATIONS: &'static str =
    "CREATE TABLE IF NOT EXISTS notifications (
        id INTEGER PRIMARY KEY AUTOINCREMENT,
        user_id INTEGER,
        title TEXT NOT NULL,
        message TEXT NOT NULL,
        type TEXT CHECK(type IN ('success', 'error', 'warning', 'info')) NOT NULL DEFAULT 'info',
        category TEXT CHECK(category IN ('action_feedback', 'vaccination_alert', 'statistics', 'system', 'user_activity')) NOT NULL,
        is_read INTEGER DEFAULT 0,
        action_link TEXT,
        entity_type TEXT,
        entity_id INTEGER,
        created_at TIMESTAMP DEFAULT CURRENT_TIMESTAMP,
        expires_at TIMESTAMP,
        FOREIGN KEY (user_id) REFERENCES users(id) ON DELETE SET NULL
    )";

pub const INDEX_ENFANTS_CODE: &'static str = "CREATE INDEX IF NOT EXISTS idx_enfants_code ON enfants(code)";

pub const INDEX_VACCINATIONS_ENFANT: &'static str =
    "CREATE INDEX IF NOT EXISTS idx_vaccinations_enfant_id ON vaccinations(enfant_id)";

pub const INDEX_VACCINATIONS_VACCIN: &'static str =
    "CREATE INDEX IF NOT EXISTS idx_vaccinations_vaccin_id ON vaccinations(vaccin_id)";

pub const INDEX_HISTORY_CHILD: &'static str =
    "CREATE INDEX IF NOT EXISTS idx_child_history_child_id ON child_history(child_id)";

pub const INDEX_NOTIFICATIONS_USER: &'static str =
    "CREATE INDEX IF NOT EXISTS idx_notifications_user_id ON notifications(user_id)";

pub const INDEX_NOTIFICATIONS_READ: &'static str =
    "CREATE INDEX IF NOT EXISTS idx_notifications_is_read ON notifications(is_read)";

pub const INDEX_NOTIFICATIONS_CREATED: &'static str =
    "CREATE INDEX IF NOT EXISTS idx_notifications_created_at ON notifications(created_at)";

pub const INDEX_NOTIFICATIONS_CATEGORY: &'static str =
    "CREATE INDEX IF NOT EXISTS idx_notifications_category ON notifications(category)";

/// The statements of the schema, in the order in which they are run: the
/// tables first, each after those it refers to, then the indexes.
pub open spec fn schema_statements() -> Seq<Statement> {
    seq![
        plain(CREATE_USERS@),
        plain(CREATE_LOGINS@),
        plain(CREATE_FOKOTANY@),
        plain(CREATE_HAMEAU@),
        plain(CREATE_VACCINS@),
        plain(CREATE_ENFANTS@),
        plain(CREATE_VACCIN_PREREQUIS@),
        plain(CREATE_VACCIN_SUITE@),
        plain(CREATE_VACCINATIONS@),
        plain(CREATE_CHILD_HISTORY@),
        plain(CREATE_DELETED_CHILDREN_LOG@),
        plain(CREATE_NOTIFICATIONS@),
        plain(INDEX_ENFANTS_CODE@),
        plain(INDEX_VACCINATIONS_ENFANT@),
        plain(INDEX_VACCINATIONS_VACCIN@),
        plain(INDEX_HISTORY_CHILD@),
        plain(INDEX_NOTIFICATIONS_USER@),
        plain(INDEX_NOTIFICATIONS_READ@),
        plain(INDEX_NOTIFICATIONS_CREATED@),
        plain(INDEX_NOTIFICATIONS_CATEGORY@),
    ]
}

fn unbound(sql: &'static str) -> (prepared: Prepared)
    ensures
        prepared@ == plain(sql@),
{
    let params: Vec<SqlValue> = Vec::new();
    assert(params.deep_view() =~= Seq::<SqlDatum>::empty());
    Prepared { sql, params }
}

/// Creates the tables and indexes that do not exist yet, stopping at the
/// first statement that the store refuses. On a closed handle nothing is
/// asked.
pub fn initialize_schema(db: &mut Database) -> (created: Result<(), DbError>)
    ensures
        continues(*old(db), *final(db)),
        if old(db).is_open() {
            wrote_in_order(schema_statements(), trace(*old(db), *final(db)), outcome_view(created))
        } else {
            final(db).journal() == old(db).journal() && created matches Err(DbError::NotInitialized)
        },
{
    let statements = vec![
        unbound(CREATE_USERS),
        unbound(CREATE_LOGINS),
        unbound(CREATE_FOKOTANY),
        unbound(CREATE_HAMEAU),
        unbound(CREATE_VACCINS),
        unbound(CREATE_ENFANTS),
        unbound(CREATE_VACCIN_PREREQUIS),
        unbound(CREATE_VACCIN_SUITE),
        unbound(CREATE_VACCINATIONS),
        unbound(CREATE_CHILD_HISTORY),
        unbound(CREATE_DELETED_CHILDREN_LOG),
        unbound(CREATE_NOTIFICATIONS),
        unbound(INDEX_ENFANTS_CODE),
        unbound(INDEX_VACCINATIONS_ENFANT),
        unbound(INDEX_VACCINATIONS_VACCIN),
        unbound(INDEX_HISTORY_CHILD),
        unbound(INDEX_NOTIFICATIONS_USER),
        unbound(INDEX_NOTIFICATIONS_READ),
        unbound(INDEX_NOTIFICATIONS_CREATED),
        unbound(INDEX_NOTIFICATIONS_CATEGORY),
    ];
    assert(statements.deep_view() =~= schema_statements());
    write_in_order(db, &statements)
}

} // verus!
