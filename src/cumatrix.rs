pub mod ptr;
pub mod view;
