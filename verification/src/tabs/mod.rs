//! The toolkit's tabs, each with the logic behind its views.
pub mod asset_browser;
pub mod browser;
pub mod dye_export;
pub mod dye_files;
pub mod dye_import;
pub mod dyes;
pub mod editor;
pub mod editor_ops;
pub mod pak_operations;
pub mod search;
pub mod tools;
pub mod uuid_generator;
