//! Verified core of the paper search service: the data model of papers and
//! search results, the payload encoding of papers in the vector store, the
//! decimal text of corpus ids, the inference request for an embedding model,
//! and the decisions that the service's handlers make.

pub mod text;
pub mod time;
pub mod surface;
pub mod model;
pub mod fatcat;
pub mod payload;
pub mod embedding;
pub mod inference;
pub mod service;
