pub mod guard;
