//! An agent's interface to the RapidRAW editor: the logic of the control server
//! that the editor runs on the local machine, and of the command line that drives
//! it.
//!
//! Human and agent edit the same image. The editor's window owns the edits; the
//! server hands an agent's patches on to it and keeps a mirror of what it holds.
//!
//! - [`json`] and [`text`]: documents and text, and what they hold.
//! - [`merge`]: the deep merge of a patch onto a document.
//! - [`adjustments`]: slider flags, and the patch that they make.
//! - [`session`], [`preview`], [`masks`], [`pipeline`], [`schema`]: what the server
//!   does with each request, with [`wire`] and [`reply`] for the answers.
//! - [`routes`]: which request goes where.
//! - [`discover`]: how the server's port is published and found.
//! - [`client`], [`cli`], [`command`], [`listing`]: what the command line sends and
//!   prints.
//!
//! Nothing here touches a file or the network. Where the outside world decides,
//! such as an image that fails to load, a function takes what came of it as an
//! argument.
pub mod adjustments;
pub mod cli;
pub mod client;
pub mod command;
pub mod discover;
pub mod json;
pub mod listing;
pub mod masks;
pub mod merge;
pub mod pipeline;
pub mod preview;
pub mod reply;
pub mod routes;
pub mod schema;
pub mod session;
pub mod text;
pub mod wire;
