//! A PDF generation library: document resources, fonts, geometry and text
//! layout primitives, with their behaviour stated as contracts.
pub mod conformance;
pub mod text_out;
pub mod cmap;
pub mod geometry;
pub mod styles;
pub mod font;
pub mod text;
pub mod image;
pub mod ttf;
pub mod font_face;
pub mod ids;
pub mod font_map;
pub mod pdf_types;
pub mod key_order;
pub mod resources;
pub mod table;
pub mod pages;
pub mod emoji;
pub mod writer;
pub mod write;
pub mod layout;
pub mod svg_glyph;
pub mod pdf_object;
pub mod pdf_dicts;
pub mod ops;
pub mod text_style;
pub mod actions;
pub mod document;
