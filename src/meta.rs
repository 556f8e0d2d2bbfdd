pub mod checks;
