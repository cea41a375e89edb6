//! Sol Atlas core: identity, claims, evidence classification and Confluence
//! binning for the Sol Atlas world model.
pub mod ieee;
pub mod text;
pub mod types;
pub mod confluence;
pub mod entity;
pub mod json;
pub mod geojson;
pub mod planetary;
pub mod time_text;
pub mod evidence;
pub mod evidence_confluence;
pub mod claims;
pub mod view;
pub mod evidence_view;
pub mod data;
