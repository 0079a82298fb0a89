//! The core of an add-on manager for a game client that takes its add-ons
//! from several hosting sources and keeps one registry of what is installed.
//!
//! The library decides and computes; it reads no file and asks no server. A
//! caller hands it what was read (addresses, metadata documents, the listing
//! of an unpacked archive, the registry) and carries out what it answers
//! (addresses to ask, steps on the file system, the registry to write).
//!
//! - [`resolve`]: from the address of an add-on's page to its descriptor
//! - [`addon`]: the descriptor, and the address of its metadata
//! - [`metadata`]: version, download address and name, source by source
//! - [`batch`]: the metadata stage of a batch, and the merge into the registry
//! - [`discover`]: which directories of an unpacked archive are the add-on
//! - [`install`]: the steps that put an add-on in the place of the old one
//! - [`ids`], [`numbers`]: the numbers of the registry, and that they stay apart
//! - [`registry`]: the registry as a JSON document
//! - [`unzip`]: what unpacking does with the entries of an archive
//! - [`json`], [`text`], [`pattern`]: documents, texts and regular expressions

pub mod addon;
pub mod batch;
pub mod config;
pub mod discover;
pub mod failure;
pub mod identity;
pub mod ids;
pub mod install;
pub mod json;
pub mod metadata;
pub mod numbers;
pub mod pattern;
pub mod registry;
pub mod resolve;
pub mod text;
pub mod unzip;
