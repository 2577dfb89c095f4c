pub mod db;
pub mod laws;
pub mod orders;
pub mod reducers;
pub mod schema;
pub mod seed;
pub mod table;
pub mod text;
pub mod time;
pub mod totals;
