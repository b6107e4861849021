//! Storage of food images under an application's data directory.
//!
//! The data directory is handed in by the caller; the library decides where an
//! image goes and how each step of saving it turns into the caller's result.
//! The file-system work itself is done by the caller, one step at a time.
mod layout;
mod save;

pub use layout::{
    image_path, image_path_of, images_dir, images_dir_of, lemma_image_path_ends_in_name, needs_separator,
    lemma_same_file_iff_same_name,
};
pub use save::{command_result, PendingDir, PendingWrite, SaveError, SaveRequest};
