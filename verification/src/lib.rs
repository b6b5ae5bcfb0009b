//! The verified core of a collaborative subtitle-editing service.
//!
//! The service turns a reference to a video of an external media source into a project
//! whose subtitles several people edit at once. This library holds its rules: which stream
//! of a video is ingested and how ([`media`], [`pipeline`]), what each request asks of the
//! store and how it ends ([`workspace`], [`project`], [`subtitle`], [`snapshot`], [`auth`]),
//! what collaborators are told of a change ([`events`]) and what of it reaches one client
//! ([`stream`]).
//!
//! Nothing here reads a socket, a database or a clock. A request is a flow: a function that
//! takes the state of the request and the reply to its last question, and gives the next
//! question or the end of the request ([`gateway`]). Whoever drives a flow performs the
//! questions.

pub mod auth;
pub mod events;
pub mod gateway;
pub mod media;
pub mod models;
pub mod pipeline;
pub mod project;
pub mod snapshot;
pub mod status;
pub mod stream;
pub mod subtitle;
pub mod text;
pub mod workspace;
