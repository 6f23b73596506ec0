//! Identifiers, points, kinds and the textual grammar of the cosmic resource mesh.
pub mod text;
pub mod point;
pub mod report;
pub mod error;
pub mod parse;
pub mod textmap;
pub mod env;
pub mod resolve;
pub mod readback;
pub mod subst;
pub mod case;
pub mod kind;
pub mod layer;
pub mod kinds;
pub mod kindparse;
pub mod star;
pub mod command;
pub mod props;
pub mod model;
pub mod block;
pub mod path;
pub mod fail;
pub mod util;
pub mod sys;
pub mod cli;
pub mod host;
pub mod lane;
pub mod port;
pub mod config;
pub mod traversal;
pub mod matching;
pub mod interchange;
pub mod errreport;
pub mod auth;
pub mod bind;
pub mod document;
pub mod scopes;
pub mod hosterr;
