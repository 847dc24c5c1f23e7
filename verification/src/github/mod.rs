pub mod action;
pub mod action_parser;
pub mod client;
pub mod data;
pub mod webhook;
