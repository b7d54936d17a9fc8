//! Verified core of the PostgresPlaysPokemon client: the messages sent to the
//! emulator, the rows of the foreign tables that show the game, and the rules
//! that turn scans, updates and inserts of those rows into requests.
//!
//! Module layout:
//! - `messages`: the RPC messages, as plain values;
//! - `client`: where the emulator listens and the message of each call;
//! - `row`: rows as the database hands them over, and reading their columns;
//! - `fdw`: the three tables and the columns of their rows;
//! - `scan`: the state machine of a table scan;
//! - `modify`: updates and inserts, turned into requests;
//! - `catalog`: the statements that create the tables, and their key columns;
//! - `report`: the lines the command-line tool prints;
//! - `text`: comparing strings, rendering and parsing numbers.

pub mod catalog;
pub mod client;
pub mod fdw;
pub mod messages;
pub mod modify;
pub mod report;
pub mod row;
pub mod scan;
pub mod text;

pub use client::Client;
pub use messages::UpdatePokemon;
