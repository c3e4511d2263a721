//! The persistence and domain services of a vaccination register: children,
//! vaccines, vaccinations, areas, users and notifications, kept in a local
//! SQLite store.
//!
//! The store itself is not verified. What is verified is everything the
//! library does around it: which statements it puts to the store, with which
//! values and in which order, and how it reads each result off the store's
//! replies. [`store::Database`] keeps a ghost journal of that conversation,
//! and the contracts of the services are stated over it.

pub mod code;
pub mod columns;
pub mod commands;
pub mod dates;
pub mod enfant_service;
pub mod error;
pub mod fokotany_service;
pub mod hameau_service;
pub mod json;
pub mod models;
pub mod notification_service;
pub mod record;
pub mod schema;
pub mod store;
pub mod transaction;
pub mod user_service;
pub mod vaccin_service;
pub mod vaccination_service;
pub mod value;

pub use schema::initialize_schema;
pub use store::{get_connection, initialize_db, initialize_in_memory, Database};
