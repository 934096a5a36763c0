//! Client library for a remote document-search API: the request pipeline that
//! every operation goes through (configuration and authentication, retry with
//! exponential backoff, and the mapping of response statuses to typed errors),
//! together with the values that the API exchanges.
use vstd::prelude::*;

pub mod client;
pub mod error;
pub mod foreign;
pub mod response;
pub mod retry;
pub mod types;

pub use client::{Client, ClientBuilder, EnvDefaults};
pub use error::ClientError;
pub use response::{choose_error_message, error_from_response, error_message, is_success};
pub use retry::{calculate_retry_delay, next_action, should_retry, RetryAction};
pub use types::{
    CollectionListResponse, CollectionResponse, DocumentContent, DocumentInfo,
    DocumentInfoListResponse, DocumentInfoResponse, DocumentResponse, IndexStatus, LatencyMode,
    Metadata, MetadataValue, PageInfo, PageInfoResponse, RerankDocument, StatusResponse,
};

verus! {

} // verus!
