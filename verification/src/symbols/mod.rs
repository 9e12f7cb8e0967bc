mod error;
mod export;
mod module;
mod module_name;
mod module_segment;

pub use error::MapFileError;
pub use module::Module;
pub use module_name::ModuleName;
pub use module_segment::ModuleSegment;
pub use export::{
    export_text, export_views, name_le, lemma_name_le_antisymmetric, lemma_name_le_total,
    lemma_name_le_transitive, sorted_exports, AddressSize, Export, ExportKind, ExportView,
};
pub(crate) use export::{chars_le, sort_exports};
