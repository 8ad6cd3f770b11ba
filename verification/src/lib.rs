//! Caption ingestion: scraping a caption manifest out of a watch page,
//! reading a timed-text transcript, cutting it into token-bounded chunks and
//! sequencing one ingestion run, with every rule stated as a contract.

pub mod captions;
pub mod chunker;
pub mod entries;
pub mod html;
pub mod ingest;
pub mod json;
pub mod loader;
pub mod schema;
pub mod text;
pub mod transcript;
