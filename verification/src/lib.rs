mod chunks;
mod config;
mod error;
mod headers;
mod session;
mod urlpath;

pub use chunks::{
    assemble, assemble_into, concat_chunks, lemma_concat_chunks_is_flatten, lemma_reassembly_exact,
};
pub use config::{
    lemma_default_name_is_last_segment, lemma_same_config_same_target, ConfigModel, Downloader,
};
pub use error::DownloadError;
pub use headers::{
    header_entries, lower_chars, valid_header_name, valid_header_value, visible_value,
};
pub use session::{lemma_dir_before_file, DownloadSession, SessionModel, Step};
pub use urlpath::{join_path, last_segment, last_segment_of};
