pub mod database;
pub mod util;
