//! The verified core of a wasmCloud control plane hub.

pub mod auth;
pub mod bindings;
pub mod bucket;
pub mod callout_laws;
pub mod claims;
pub mod client;
pub mod component;
pub mod config;
pub mod control;
pub mod ctl;
pub mod effects;
pub mod formatter;
pub mod generator;
pub mod generator_laws;
pub mod headers;
pub mod ids;
pub mod interface_laws;
pub mod jwt;
pub mod keys;
pub mod labels;
pub mod lattice_laws;
pub mod lattice_proto;
pub mod lattice_proto_laws;
pub mod lattice_proto_store;
pub mod lattice_store;
pub mod lattice_wrpc;
pub mod proto;
pub mod secrets;
pub mod service_laws;
pub mod text;
pub mod vm;
pub mod wire;
pub mod worker;
