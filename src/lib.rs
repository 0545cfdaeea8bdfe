//! Location and naming of the file that holds a package's compiled program bytes.

pub mod bytes;
pub mod path;

pub use bytes::{
    artifact_name, resolved_path, BytesFile, BYTES_FILE_EXTENSION, OUTPUTS_DIRECTORY_NAME,
};
pub use path::{path_ends_with, pushed, pushed_path};
