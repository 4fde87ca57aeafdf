pub mod cas;
pub mod decompress;
pub mod file;
pub mod hashes;
pub mod indicator;
pub mod redirection_middleware;
pub mod scheduler;

pub use file::{DLError, DLFile, Phase, TaskAction, TaskEvent, TaskRun};
pub use hashes::{DLHashType, DLHashes};
pub use scheduler::{Batch, Downloader, Slot};
