pub mod mysql;
pub mod mysql_laws;
pub mod utilities;
