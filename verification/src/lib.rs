//! The rules of a bot that carries out commands left in comments on GitHub.
//!
//! A delivery is checked, the comment in it is read as a command, its
//! author is held against the list of those who may give commands, and the
//! command is turned into the steps that carry it out in a checkout of the
//! pull request. Nothing here touches the network, the file system or a
//! process: each function says what is to be done, and what the answer to
//! it means.

pub mod config;
pub mod github;
pub mod hacktober;
pub mod mason;
pub mod mason_registry;
pub mod path;
pub mod script;
pub mod spawn;
pub mod status;
pub mod text;
pub mod workspace;
