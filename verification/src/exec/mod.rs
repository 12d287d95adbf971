pub mod admin;
