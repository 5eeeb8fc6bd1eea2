//! Declarations of native types and functions for a foreign host language.
//!
//! A generation pass walks a tree of nested modules. It keeps a stack of the open
//! scopes, a registry of every name it has bound, and an append-only sink of text
//! lines. Each declaration is checked against the registry before anything is
//! written, so that a pass either yields a complete module or an error.
//!
//! The passes of the campaign are scripts, walked by one interpreter. An outline
//! reads a script before it runs; what it accepts is proved to run without an
//! error, and it accepts every script of the campaign.
pub mod campaign;
pub mod decl;
pub mod error;
pub mod laws;
pub mod outline;
pub mod pass;
pub mod placeholder;
pub mod registry;
pub mod scope;
pub mod script;
pub mod text;
