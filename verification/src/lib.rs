//! Forms built from data: each field of a value becomes a widget of a form,
//! and the form's properties can be read, written and renamed by name.
//!
//! The widget tree is described by plain values (`Widget`); the property
//! logic works on that description and is verified against it.
pub mod data;
pub mod error;
pub mod field_laws;
pub mod fields;
pub mod form;
pub mod laws;
pub mod propmap;
pub mod props;
pub mod text;
pub mod widget;

