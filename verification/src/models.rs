//! The records of the register.
//!
//! Each record has a view over sequences, which the contracts speak of. A record
//! that queries return also says what each of its columns is read as.

use vstd::prelude::*;
use crate::columns::{
    ColumnKind, as_date, as_flag, as_integer, as_optional_date, as_optional_flag,
    as_optional_instant, as_optional_integer, as_optional_text, as_text, date_of, flag_of,
    integer_of, optional_date_of, optional_flag_of, optional_instant_of, optional_integer_of,
    optional_text_of, text_of,
};
use crate::dates::{Date, Instant, Timestamp, Ymd};
use crate::record::Record;
use crate::value::{SqlValue, SqlDatum};

verus! {

/// A person who may use the register.
#[derive(Clone, Debug, PartialEq, Eq)]
pub struct User {
    pub id: Option<i64>,
    pub username: String,
    pub password_hash: String,
    pub account_type: String,
    pub status: String,
    pub created_at: Option<Timestamp>,
    pub updated_at: Option<Timestamp>,
}

/// A `User` over sequences.
pub struct UserView {
    pub id: Option<i64>,
    pub username: Seq<char>,
    pub password_hash: Seq<char>,
    pub account_type: Seq<char>,
    pub status: Seq<char>,
    pub created_at: Option<Instant>,
    pub updated_at: Option<Instant>,
}

impl View for User {
    type V = UserView;

    open spec fn view(&self) -> UserView {
        UserView {
            id: self.id,
            username: self.username@,
            password_hash: self.password_hash@,
            account_type: self.account_type@,
            status: self.status@,
            created_at: self.created_at.deep_view(),
            updated_at: self.updated_at.deep_view(),
        }
    }
}

impl DeepView for User {
    type V = UserView;

    open spec fn deep_view(&self) -> UserView {
        self@
    }
}

impl Record for User {
    open spec fn kinds() -> Seq<ColumnKind> {
        seq![
            ColumnKind::Integer,
            ColumnKind::Text,
            ColumnKind::Text,
            ColumnKind::Text,
            ColumnKind::Text,
            ColumnKind::OptionalInstant,
            ColumnKind::OptionalInstant,
        ]
    }

    open spec fn of_fields(row: Seq<SqlDatum>) -> UserView {
        UserView {
            id: Some(as_integer(row[0])),
            username: as_text(row[1]),
            password_hash: as_text(row[2]),
            account_type: as_text(row[3]),
            status: as_text(row[4]),
            created_at: as_optional_instant(row[5]),
            updated_at: as_optional_instant(row[6]),
        }
    }

    fn columns() -> (kinds: Vec<ColumnKind>) {
        let kinds = vec![
            ColumnKind::Integer,
            ColumnKind::Text,
            ColumnKind::Text,
            ColumnKind::Text,
            ColumnKind::Text,
            ColumnKind::OptionalInstant,
            ColumnKind::OptionalInstant,
        ];
        assert(kinds@ =~= Self::kinds());
        kinds
    }

    fn from_fields(row: &Vec<SqlValue>) -> (record: User) {
        User {
            id: Some(integer_of(row, 0)),
            username: text_of(row, 1),
            password_hash: text_of(row, 2),
            account_type: text_of(row, 3),
            status: text_of(row, 4),
            created_at: optional_instant_of(row, 5),
            updated_at: optional_instant_of(row, 6),
        }
    }
}

/// The session record of a user: one per user, overwritten at each login.
#[derive(Clone, Debug, PartialEq, Eq)]
pub struct Login {
    pub user_id: i64,
    pub username: String,
    pub ip_address: String,
    pub status: String,
    pub last_login: Option<Timestamp>,
}

/// A `Login` over sequences.
pub struct LoginView {
    pub user_id: i64,
    pub username: Seq<char>,
    pub ip_address: Seq<char>,
    pub status: Seq<char>,
    pub last_login: Option<Instant>,
}

impl View for Login {
    type V = LoginView;

    open spec fn view(&self) -> LoginView {
        LoginView {
            user_id: self.user_id,
            username: self.username@,
            ip_address: self.ip_address@,
            status: self.status@,
            last_login: self.last_login.deep_view(),
        }
    }
}

impl DeepView for Login {
    type V = LoginView;

    open spec fn deep_view(&self) -> LoginView {
        self@
    }
}

/// An administrative area. Each coordinate is kept as the decimal numeral of a real number.
#[derive(Clone, Debug, PartialEq, Eq)]
pub struct Fokotany {
    pub id: Option<i64>,
    pub nom: String,
    pub px: Option<String>,
    pub py: Option<String>,
    pub created_at: Option<Timestamp>,
    pub updated_at: Option<Timestamp>,
}

/// A `Fokotany` over sequences.
pub struct FokotanyView {
    pub id: Option<i64>,
    pub nom: Seq<char>,
    pub px: Option<Seq<char>>,
    pub py: Option<Seq<char>>,
    pub created_at: Option<Instant>,
    pub updated_at: Option<Instant>,
}

impl View for Fokotany {
    type V = FokotanyView;

    open spec fn view(&self) -> FokotanyView {
        FokotanyView {
            id: self.id,
            nom: self.nom@,
            px: self.px.deep_view(),
            py: self.py.deep_view(),
            created_at: self.created_at.deep_view(),
            updated_at: self.updated_at.deep_view(),
        }
    }
}

impl DeepView for Fokotany {
    type V = FokotanyView;

    open spec fn deep_view(&self) -> FokotanyView {
        self@
    }
}

impl Record for Fokotany {
    open spec fn kinds() -> Seq<ColumnKind> {
        seq![
            ColumnKind::Integer,
            ColumnKind::Text,
            ColumnKind::OptionalText,
            ColumnKind::OptionalText,
            ColumnKind::OptionalInstant,
            ColumnKind::OptionalInstant,
        ]
    }

    open spec fn of_fields(row: Seq<SqlDatum>) -> FokotanyView {
        FokotanyView {
            id: Some(as_integer(row[0])),
            nom: as_text(row[1]),
            px: as_optional_text(row[2]),
            py: as_optional_text(row[3]),
            created_at: as_optional_instant(row[4]),
            updated_at: as_optional_instant(row[5]),
        }
    }

    fn columns() -> (kinds: Vec<ColumnKind>) {
        let kinds = vec![
            ColumnKind::Integer,
            ColumnKind::Text,
            ColumnKind::OptionalText,
            ColumnKind::OptionalText,
            ColumnKind::OptionalInstant,
            ColumnKind::OptionalInstant,
        ];
        assert(kinds@ =~= Self::kinds());
        kinds
    }

    fn from_fields(row: &Vec<SqlValue>) -> (record: Fokotany) {
        Fokotany {
            id: Some(integer_of(row, 0)),
            nom: text_of(row, 1),
            px: optional_text_of(row, 2),
            py: optional_text_of(row, 3),
            created_at: optional_instant_of(row, 4),
            updated_at: optional_instant_of(row, 5),
        }
    }
}

/// A sub-area. Each coordinate is kept as the decimal numeral of a real number.
#[derive(Clone, Debug, PartialEq, Eq)]
pub struct Hameau {
    pub id: Option<i64>,
    pub nom: String,
    pub px: String,
    pub py: String,
    pub created_at: Option<Timestamp>,
    pub updated_at: Option<Timestamp>,
}

/// A `Hameau` over sequences.
pub struct HameauView {
    pub id: Option<i64>,
    pub nom: Seq<char>,
    pub px: Seq<char>,
    pub py: Seq<char>,
    pub created_at: Option<Instant>,
    pub updated_at: Option<Instant>,
}

impl View for Hameau {
    type V = HameauView;

    open spec fn view(&self) -> HameauView {
        HameauView {
            id: self.id,
            nom: self.nom@,
            px: self.px@,
            py: self.py@,
            created_at: self.created_at.deep_view(),
            updated_at: self.updated_at.deep_view(),
        }
    }
}

impl DeepView for Hameau {
    type V = HameauView;

    open spec fn deep_view(&self) -> HameauView {
        self@
    }
}

impl Record for Hameau {
    open spec fn kinds() -> Seq<ColumnKind> {
        seq![
            ColumnKind::Integer,
            ColumnKind::Text,
            ColumnKind::Text,
            ColumnKind::Text,
            ColumnKind::OptionalInstant,
            ColumnKind::OptionalInstant,
        ]
    }

    open spec fn of_fields(row: Seq<SqlDatum>) -> HameauView {
        HameauView {
            id: Some(as_integer(row[0])),
            nom: as_text(row[1]),
            px: as_text(row[2]),
            py: as_text(row[3]),
            created_at: as_optional_instant(row[4]),
            updated_at: as_optional_instant(row[5]),
        }
    }

    fn columns() -> (kinds: Vec<ColumnKind>) {
        let kinds = vec![
            ColumnKind::Integer,
            ColumnKind::Text,
            ColumnKind::Text,
            ColumnKind::Text,
            ColumnKind::OptionalInstant,
            ColumnKind::OptionalInstant,
        ];
        assert(kinds@ =~= Self::kinds());
        kinds
    }

    fn from_fields(row: &Vec<SqlValue>) -> (record: Hameau) {
        Hameau {
            id: Some(integer_of(row, 0)),
            nom: text_of(row, 1),
            px: text_of(row, 2),
            py: text_of(row, 3),
            created_at: optional_instant_of(row, 4),
            updated_at: optional_instant_of(row, 5),
        }
    }
}

/// The definition of a vaccine.
#[derive(Clone, Debug, PartialEq, Eq)]
pub struct Vaccin {
    pub id: Option<i64>,
    pub nom: String,
    pub duree: Option<i64>,
    pub date_arrivee: Option<Date>,
    pub date_peremption: Option<Date>,
    pub description: Option<String>,
    pub created_at: Option<Timestamp>,
    pub updated_at: Option<Timestamp>,
    pub duree_jours: Option<i64>,
    pub age_annees: i64,
    pub age_mois: i64,
    pub age_jours: i64,
    pub lot: Option<String>,
    pub stock: Option<i64>,
}

/// A `Vaccin` over sequences.
pub struct VaccinView {
    pub id: Option<i64>,
    pub nom: Seq<char>,
    pub duree: Option<i64>,
    pub date_arrivee: Option<Ymd>,
    pub date_peremption: Option<Ymd>,
    pub description: Option<Seq<char>>,
    pub created_at: Option<Instant>,
    pub updated_at: Option<Instant>,
    pub duree_jours: Option<i64>,
    pub age_annees: i64,
    pub age_mois: i64,
    pub age_jours: i64,
    pub lot: Option<Seq<char>>,
    pub stock: Option<i64>,
}

impl View for Vaccin {
    type V = VaccinView;

    open spec fn view(&self) -> VaccinView {
        VaccinView {
            id: self.id,
            nom: self.nom@,
            duree: self.duree,
            date_arrivee: self.date_arrivee.deep_view(),
            date_peremption: self.date_peremption.deep_view(),
            description: self.description.deep_view(),
            created_at: self.created_at.deep_view(),
            updated_at: self.updated_at.deep_view(),
            duree_jours: self.duree_jours,
            age_annees: self.age_annees,
            age_mois: self.age_mois,
            age_jours: self.age_jours,
            lot: self.lot.deep_view(),
            stock: self.stock,
        }
    }
}

impl DeepView for Vaccin {
    type V = VaccinView;

    open spec fn deep_view(&self) -> VaccinView {
        self@
    }
}

impl Record for Vaccin {
    open spec fn kinds() -> Seq<ColumnKind> {
        seq![
            ColumnKind::Integer,
            ColumnKind::Text,
            ColumnKind::OptionalInteger,
            ColumnKind::OptionalDate,
            ColumnKind::OptionalDate,
            ColumnKind::OptionalText,
            ColumnKind::OptionalInstant,
            ColumnKind::OptionalInstant,
            ColumnKind::OptionalInteger,
            ColumnKind::Integer,
            ColumnKind::Integer,
            ColumnKind::Integer,
            ColumnKind::OptionalText,
            ColumnKind::OptionalInteger,
        ]
    }

    open spec fn of_fields(row: Seq<SqlDatum>) -> VaccinView {
        VaccinView {
            id: Some(as_integer(row[0])),
            nom: as_text(row[1]),
            duree: as_optional_integer(row[2]),
            date_arrivee: as_optional_date(row[3]),
            date_peremption: as_optional_date(row[4]),
            description: as_optional_text(row[5]),
            created_at: as_optional_instant(row[6]),
            updated_at: as_optional_instant(row[7]),
            duree_jours: as_optional_integer(row[8]),
            age_annees: as_integer(row[9]),
            age_mois: as_integer(row[10]),
            age_jours: as_integer(row[11]),
            lot: as_optional_text(row[12]),
            stock: as_optional_integer(row[13]),
        }
    }

    fn columns() -> (kinds: Vec<ColumnKind>) {
        let kinds = vec![
            ColumnKind::Integer,
            ColumnKind::Text,
            ColumnKind::OptionalInteger,
            ColumnKind::OptionalDate,
            ColumnKind::OptionalDate,
            ColumnKind::OptionalText,
            ColumnKind::OptionalInstant,
            ColumnKind::OptionalInstant,
            ColumnKind::OptionalInteger,
            ColumnKind::Integer,
            ColumnKind::Integer,
            ColumnKind::Integer,
            ColumnKind::OptionalText,
            ColumnKind::OptionalInteger,
        ];
        assert(kinds@ =~= Self::kinds());
        kinds
    }

    fn from_fields(row: &Vec<SqlValue>) -> (record: Vaccin) {
        Vaccin {
            id: Some(integer_of(row, 0)),
            nom: text_of(row, 1),
            duree: optional_integer_of(row, 2),
            date_arrivee: optional_date_of(row, 3),
            date_peremption: optional_date_of(row, 4),
            description: optional_text_of(row, 5),
            created_at: optional_instant_of(row, 6),
            updated_at: optional_instant_of(row, 7),
            duree_jours: optional_integer_of(row, 8),
            age_annees: integer_of(row, 9),
            age_mois: integer_of(row, 10),
            age_jours: integer_of(row, 11),
            lot: optional_text_of(row, 12),
            stock: optional_integer_of(row, 13),
        }
    }
}

/// A child of the register.
#[derive(Clone, Debug, PartialEq, Eq)]
pub struct Enfant {
    pub id: Option<i64>,
    pub nom: String,
    pub prenom: String,
    pub code: Option<String>,
    pub date_naissance: Date,
    pub age_premier_contact: Option<i64>,
    pub sexe: String,
    pub nom_mere: Option<String>,
    pub nom_pere: Option<String>,
    pub domicile: Option<String>,
    pub fokotany: Option<String>,
    pub hameau: Option<String>,
    pub telephone: Option<String>,
    pub created_at: Option<Timestamp>,
    pub updated_at: Option<Timestamp>,
}

/// A `Enfant` over sequences.
pub struct EnfantView {
    pub id: Option<i64>,
    pub nom: Seq<char>,
    pub prenom: Seq<char>,
    pub code: Option<Seq<char>>,
    pub date_naissance: Ymd,
    pub age_premier_contact: Option<i64>,
    pub sexe: Seq<char>,
    pub nom_mere: Option<Seq<char>>,
    pub nom_pere: Option<Seq<char>>,
    pub domicile: Option<Seq<char>>,
    pub fokotany: Option<Seq<char>>,
    pub hameau: Option<Seq<char>>,
    pub telephone: Option<Seq<char>>,
    pub created_at: Option<Instant>,
    pub updated_at: Option<Instant>,
}

impl View for Enfant {
    type V = EnfantView;

    open spec fn view(&self) -> EnfantView {
        EnfantView {
            id: self.id,
            nom: self.nom@,
            prenom: self.prenom@,
            code: self.code.deep_view(),
            date_naissance: self.date_naissance@,
            age_premier_contact: self.age_premier_contact,
            sexe: self.sexe@,
            nom_mere: self.nom_mere.deep_view(),
            nom_pere: self.nom_pere.deep_view(),
            domicile: self.domicile.deep_view(),
            fokotany: self.fokotany.deep_view(),
            hameau: self.hameau.deep_view(),
            telephone: self.telephone.deep_view(),
            created_at: self.created_at.deep_view(),
            updated_at: self.updated_at.deep_view(),
        }
    }
}

impl DeepView for Enfant {
    type V = EnfantView;

    open spec fn deep_view(&self) -> EnfantView {
        self@
    }
}

impl Record for Enfant {
    open spec fn kinds() -> Seq<ColumnKind> {
        seq![
            ColumnKind::Integer,
            ColumnKind::Text,
            ColumnKind::Text,
            ColumnKind::OptionalText,
            ColumnKind::Date,
            ColumnKind::OptionalInteger,
            ColumnKind::Text,
            ColumnKind::OptionalText,
            ColumnKind::OptionalText,
            ColumnKind::OptionalText,
            ColumnKind::OptionalText,
            ColumnKind::OptionalText,
            ColumnKind::OptionalText,
            ColumnKind::OptionalInstant,
            ColumnKind::OptionalInstant,
        ]
    }

    open spec fn of_fields(row: Seq<SqlDatum>) -> EnfantView {
        EnfantView {
            id: Some(as_integer(row[0])),
            nom: as_text(row[1]),
            prenom: as_text(row[2]),
            code: as_optional_text(row[3]),
            date_naissance: as_date(row[4]),
            age_premier_contact: as_optional_integer(row[5]),
            sexe: as_text(row[6]),
            nom_mere: as_optional_text(row[7]),
            nom_pere: as_optional_text(row[8]),
            domicile: as_optional_text(row[9]),
            fokotany: as_optional_text(row[10]),
            hameau: as_optional_text(row[11]),
            telephone: as_optional_text(row[12]),
            created_at: as_optional_instant(row[13]),
            updated_at: as_optional_instant(row[14]),
        }
    }

    fn columns() -> (kinds: Vec<ColumnKind>) {
        let kinds = vec![
            ColumnKind::Integer,
            ColumnKind::Text,
            ColumnKind::Text,
            ColumnKind::OptionalText,
            ColumnKind::Date,
            ColumnKind::OptionalInteger,
            ColumnKind::Text,
            ColumnKind::OptionalText,
            ColumnKind::OptionalText,
            ColumnKind::OptionalText,
            ColumnKind::OptionalText,
            ColumnKind::OptionalText,
            ColumnKind::OptionalText,
            ColumnKind::OptionalInstant,
            ColumnKind::OptionalInstant,
        ];
        assert(kinds@ =~= Self::kinds());
        kinds
    }

    fn from_fields(row: &Vec<SqlValue>) -> (record: Enfant) {
        Enfant {
            id: Some(integer_of(row, 0)),
            nom: text_of(row, 1),
            prenom: text_of(row, 2),
            code: optional_text_of(row, 3),
            date_naissance: date_of(row, 4),
            age_premier_contact: optional_integer_of(row, 5),
            sexe: text_of(row, 6),
            nom_mere: optional_text_of(row, 7),
            nom_pere: optional_text_of(row, 8),
            domicile: optional_text_of(row, 9),
            fokotany: optional_text_of(row, 10),
            hameau: optional_text_of(row, 11),
            telephone: optional_text_of(row, 12),
            created_at: optional_instant_of(row, 13),
            updated_at: optional_instant_of(row, 14),
        }
    }
}

/// A vaccine that must or should come before another.
#[derive(Clone, Debug, PartialEq, Eq)]
pub struct VaccinPrerequis {
    pub id: Option<i64>,
    pub vaccin_id: i64,
    pub prerequis_id: i64,
    pub strict: bool,
}

/// A `VaccinPrerequis` over sequences.
pub struct VaccinPrerequisView {
    pub id: Option<i64>,
    pub vaccin_id: i64,
    pub prerequis_id: i64,
    pub strict: bool,
}

impl View for VaccinPrerequis {
    type V = VaccinPrerequisView;

    open spec fn view(&self) -> VaccinPrerequisView {
        VaccinPrerequisView {
            id: self.id,
            vaccin_id: self.vaccin_id,
            prerequis_id: self.prerequis_id,
            strict: self.strict,
        }
    }
}

impl DeepView for VaccinPrerequis {
    type V = VaccinPrerequisView;

    open spec fn deep_view(&self) -> VaccinPrerequisView {
        self@
    }
}

impl Record for VaccinPrerequis {
    open spec fn kinds() -> Seq<ColumnKind> {
        seq![
            ColumnKind::Integer,
            ColumnKind::Integer,
            ColumnKind::Integer,
            ColumnKind::Flag,
        ]
    }

    open spec fn of_fields(row: Seq<SqlDatum>) -> VaccinPrerequisView {
        VaccinPrerequisView {
            id: Some(as_integer(row[0])),
            vaccin_id: as_integer(row[1]),
            prerequis_id: as_integer(row[2]),
            strict: as_flag(row[3]),
        }
    }

    fn columns() -> (kinds: Vec<ColumnKind>) {
        let kinds = vec![
            ColumnKind::Integer,
            ColumnKind::Integer,
            ColumnKind::Integer,
            ColumnKind::Flag,
        ];
        assert(kinds@ =~= Self::kinds());
        kinds
    }

    fn from_fields(row: &Vec<SqlValue>) -> (record: VaccinPrerequis) {
        VaccinPrerequis {
            id: Some(integer_of(row, 0)),
            vaccin_id: integer_of(row, 1),
            prerequis_id: integer_of(row, 2),
            strict: flag_of(row, 3),
        }
    }
}

/// A vaccine that follows another after a delay.
#[derive(Clone, Debug, PartialEq, Eq)]
pub struct VaccinSuite {
    pub id: Option<i64>,
    pub vaccin_id: i64,
    pub suite_id: i64,
    pub strict: bool,
    pub delai: i64,
    pub type_suite: String,
    pub description: Option<String>,
}

/// A `VaccinSuite` over sequences.
pub struct VaccinSuiteView {
    pub id: Option<i64>,
    pub vaccin_id: i64,
    pub suite_id: i64,
    pub strict: bool,
    pub delai: i64,
    pub type_suite: Seq<char>,
    pub description: Option<Seq<char>>,
}

impl View for VaccinSuite {
    type V = VaccinSuiteView;

    open spec fn view(&self) -> VaccinSuiteView {
        VaccinSuiteView {
            id: self.id,
            vaccin_id: self.vaccin_id,
            suite_id: self.suite_id,
            strict: self.strict,
            delai: self.delai,
            type_suite: self.type_suite@,
            description: self.description.deep_view(),
        }
    }
}

impl DeepView for VaccinSuite {
    type V = VaccinSuiteView;

    open spec fn deep_view(&self) -> VaccinSuiteView {
        self@
    }
}

impl Record for VaccinSuite {
    open spec fn kinds() -> Seq<ColumnKind> {
        seq![
            ColumnKind::Integer,
            ColumnKind::Integer,
            ColumnKind::Integer,
            ColumnKind::Flag,
            ColumnKind::Integer,
            ColumnKind::Text,
            ColumnKind::OptionalText,
        ]
    }

    open spec fn of_fields(row: Seq<SqlDatum>) -> VaccinSuiteView {
        VaccinSuiteView {
            id: Some(as_integer(row[0])),
            vaccin_id: as_integer(row[1]),
            suite_id: as_integer(row[2]),
            strict: as_flag(row[3]),
            delai: as_integer(row[4]),
            type_suite: as_text(row[5]),
            description: as_optional_text(row[6]),
        }
    }

    fn columns() -> (kinds: Vec<ColumnKind>) {
        let kinds = vec![
            ColumnKind::Integer,
            ColumnKind::Integer,
            ColumnKind::Integer,
            ColumnKind::Flag,
            ColumnKind::Integer,
            ColumnKind::Text,
            ColumnKind::OptionalText,
        ];
        assert(kinds@ =~= Self::kinds());
        kinds
    }

    fn from_fields(row: &Vec<SqlValue>) -> (record: VaccinSuite) {
        VaccinSuite {
            id: Some(integer_of(row, 0)),
            vaccin_id: integer_of(row, 1),
            suite_id: integer_of(row, 2),
            strict: flag_of(row, 3),
            delai: integer_of(row, 4),
            type_suite: text_of(row, 5),
            description: optional_text_of(row, 6),
        }
    }
}

/// A dose given to a child.
#[derive(Clone, Debug, PartialEq, Eq)]
pub struct Vaccination {
    pub id: Option<i64>,
    pub enfant_id: i64,
    pub vaccin_id: i64,
    pub date_vaccination: Date,
    pub remarque: Option<String>,
    pub created_at: Option<Timestamp>,
    pub updated_at: Option<Timestamp>,
}

/// A `Vaccination` over sequences.
pub struct VaccinationView {
    pub id: Option<i64>,
    pub enfant_id: i64,
    pub vaccin_id: i64,
    pub date_vaccination: Ymd,
    pub remarque: Option<Seq<char>>,
    pub created_at: Option<Instant>,
    pub updated_at: Option<Instant>,
}

impl View for Vaccination {
    type V = VaccinationView;

    open spec fn view(&self) -> VaccinationView {
        VaccinationView {
            id: self.id,
            enfant_id: self.enfant_id,
            vaccin_id: self.vaccin_id,
            date_vaccination: self.date_vaccination@,
            remarque: self.remarque.deep_view(),
            created_at: self.created_at.deep_view(),
            updated_at: self.updated_at.deep_view(),
        }
    }
}

impl DeepView for Vaccination {
    type V = VaccinationView;

    open spec fn deep_view(&self) -> VaccinationView {
        self@
    }
}

impl Record for Vaccination {
    open spec fn kinds() -> Seq<ColumnKind> {
        seq![
            ColumnKind::Integer,
            ColumnKind::Integer,
            ColumnKind::Integer,
            ColumnKind::Date,
            ColumnKind::OptionalText,
            ColumnKind::OptionalInstant,
            ColumnKind::OptionalInstant,
        ]
    }

    open spec fn of_fields(row: Seq<SqlDatum>) -> VaccinationView {
        VaccinationView {
            id: Some(as_integer(row[0])),
            enfant_id: as_integer(row[1]),
            vaccin_id: as_integer(row[2]),
            date_vaccination: as_date(row[3]),
            remarque: as_optional_text(row[4]),
            created_at: as_optional_instant(row[5]),
            updated_at: as_optional_instant(row[6]),
        }
    }

    fn columns() -> (kinds: Vec<ColumnKind>) {
        let kinds = vec![
            ColumnKind::Integer,
            ColumnKind::Integer,
            ColumnKind::Integer,
            ColumnKind::Date,
            ColumnKind::OptionalText,
            ColumnKind::OptionalInstant,
            ColumnKind::OptionalInstant,
        ];
        assert(kinds@ =~= Self::kinds());
        kinds
    }

    fn from_fields(row: &Vec<SqlValue>) -> (record: Vaccination) {
        Vaccination {
            id: Some(integer_of(row, 0)),
            enfant_id: integer_of(row, 1),
            vaccin_id: integer_of(row, 2),
            date_vaccination: date_of(row, 3),
            remarque: optional_text_of(row, 4),
            created_at: optional_instant_of(row, 5),
            updated_at: optional_instant_of(row, 6),
        }
    }
}

/// One entry of the audit trail of a child.
#[derive(Clone, Debug, PartialEq, Eq)]
pub struct ChildHistory {
    pub id: Option<i64>,
    pub child_id: i64,
    pub action_type: String,
    pub action_date: Option<Timestamp>,
    pub user_id: Option<i64>,
    pub old_data: Option<String>,
    pub new_data: Option<String>,
}

/// A `ChildHistory` over sequences.
pub struct ChildHistoryView {
    pub id: Option<i64>,
    pub child_id: i64,
    pub action_type: Seq<char>,
    pub action_date: Option<Instant>,
    pub user_id: Option<i64>,
    pub old_data: Option<Seq<char>>,
    pub new_data: Option<Seq<char>>,
}

impl View for ChildHistory {
    type V = ChildHistoryView;

    open spec fn view(&self) -> ChildHistoryView {
        ChildHistoryView {
            id: self.id,
            child_id: self.child_id,
            action_type: self.action_type@,
            action_date: self.action_date.deep_view(),
            user_id: self.user_id,
            old_data: self.old_data.deep_view(),
            new_data: self.new_data.deep_view(),
        }
    }
}

impl DeepView for ChildHistory {
    type V = ChildHistoryView;

    open spec fn deep_view(&self) -> ChildHistoryView {
        self@
    }
}

/// The snapshot of a child taken when it was deleted.
#[derive(Clone, Debug, PartialEq, Eq)]
pub struct DeletedChildrenLog {
    pub id: Option<i64>,
    pub original_id: i64,
    pub action_date: Option<Timestamp>,
    pub user_id: Option<i64>,
    pub child_data: Option<String>,
}

/// A `DeletedChildrenLog` over sequences.
pub struct DeletedChildrenLogView {
    pub id: Option<i64>,
    pub original_id: i64,
    pub action_date: Option<Instant>,
    pub user_id: Option<i64>,
    pub child_data: Option<Seq<char>>,
}

impl View for DeletedChildrenLog {
    type V = DeletedChildrenLogView;

    open spec fn view(&self) -> DeletedChildrenLogView {
        DeletedChildrenLogView {
            id: self.id,
            original_id: self.original_id,
            action_date: self.action_date.deep_view(),
            user_id: self.user_id,
            child_data: self.child_data.deep_view(),
        }
    }
}

impl DeepView for DeletedChildrenLog {
    type V = DeletedChildrenLogView;

    open spec fn deep_view(&self) -> DeletedChildrenLogView {
        self@
    }
}

/// A message for one user, or for all where `user_id` is absent.
#[derive(Clone, Debug, PartialEq, Eq)]
pub struct Notification {
    pub id: Option<i64>,
    pub user_id: Option<i64>,
    pub title: String,
    pub message: String,
    pub notification_type: String,
    pub category: String,
    pub is_read: Option<bool>,
    pub action_link: Option<String>,
    pub entity_type: Option<String>,
    pub entity_id: Option<i64>,
    pub created_at: Option<Timestamp>,
    pub expires_at: Option<Timestamp>,
}

/// A `Notification` over sequences.
pub struct NotificationView {
    pub id: Option<i64>,
    pub user_id: Option<i64>,
    pub title: Seq<char>,
    pub message: Seq<char>,
    pub notification_type: Seq<char>,
    pub category: Seq<char>,
    pub is_read: Option<bool>,
    pub action_link: Option<Seq<char>>,
    pub entity_type: Option<Seq<char>>,
    pub entity_id: Option<i64>,
    pub created_at: Option<Instant>,
    pub expires_at: Option<Instant>,
}

impl View for Notification {
    type V = NotificationView;

    open spec fn view(&self) -> NotificationView {
        NotificationView {
            id: self.id,
            user_id: self.user_id,
            title: self.title@,
            message: self.message@,
            notification_type: self.notification_type@,
            category: self.category@,
            is_read: self.is_read,
            action_link: self.action_link.deep_view(),
            entity_type: self.entity_type.deep_view(),
            entity_id: self.entity_id,
            created_at: self.created_at.deep_view(),
            expires_at: self.expires_at.deep_view(),
        }
    }
}

impl DeepView for Notification {
    type V = NotificationView;

    open spec fn deep_view(&self) -> NotificationView {
        self@
    }
}

impl Record for Notification {
    open spec fn kinds() -> Seq<ColumnKind> {
        seq![
            ColumnKind::Integer,
            ColumnKind::OptionalInteger,
            ColumnKind::Text,
            ColumnKind::Text,
            ColumnKind::Text,
            ColumnKind::Text,
            ColumnKind::OptionalFlag,
            ColumnKind::OptionalText,
            ColumnKind::OptionalText,
            ColumnKind::OptionalInteger,
            ColumnKind::OptionalInstant,
            ColumnKind::OptionalInstant,
        ]
    }

    open spec fn of_fields(row: Seq<SqlDatum>) -> NotificationView {
        NotificationView {
            id: Some(as_integer(row[0])),
            user_id: as_optional_integer(row[1]),
            title: as_text(row[2]),
            message: as_text(row[3]),
            notification_type: as_text(row[4]),
            category: as_text(row[5]),
            is_read: as_optional_flag(row[6]),
            action_link: as_optional_text(row[7]),
            entity_type: as_optional_text(row[8]),
            entity_id: as_optional_integer(row[9]),
            created_at: as_optional_instant(row[10]),
            expires_at: as_optional_instant(row[11]),
        }
    }

    fn columns() -> (kinds: Vec<ColumnKind>) {
        let kinds = vec![
            ColumnKind::Integer,
            ColumnKind::OptionalInteger,
            ColumnKind::Text,
            ColumnKind::Text,
            ColumnKind::Text,
            ColumnKind::Text,
            ColumnKind::OptionalFlag,
            ColumnKind::OptionalText,
            ColumnKind::OptionalText,
            ColumnKind::OptionalInteger,
            ColumnKind::OptionalInstant,
            ColumnKind::OptionalInstant,
        ];
        assert(kinds@ =~= Self::kinds());
        kinds
    }

    fn from_fields(row: &Vec<SqlValue>) -> (record: Notification) {
        Notification {
            id: Some(integer_of(row, 0)),
            user_id: optional_integer_of(row, 1),
            title: text_of(row, 2),
            message: text_of(row, 3),
            notification_type: text_of(row, 4),
            category: text_of(row, 5),
            is_read: optional_flag_of(row, 6),
            action_link: optional_text_of(row, 7),
            entity_type: optional_text_of(row, 8),
            entity_id: optional_integer_of(row, 9),
            created_at: optional_instant_of(row, 10),
            expires_at: optional_instant_of(row, 11),
        }
    }
}

} // verus!
