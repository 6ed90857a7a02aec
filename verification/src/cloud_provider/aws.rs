pub mod databases;
