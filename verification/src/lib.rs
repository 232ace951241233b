//! Client library for a news-aggregation HTTP API.
//!
//! The library builds query URLs for the two supported endpoints (top
//! headlines and full-text search), performs the HTTP call, decodes the JSON
//! envelope `{status, articles[], code}`, and maps application-level error
//! codes to a closed error taxonomy.

pub mod client;
pub mod domain;
pub mod error;
pub mod json;
pub mod response;
mod stdx;
mod web;

pub use client::NewsAPI;
pub use domain::Country;
pub use domain::Endpoint;
pub use error::NewsApiError;
pub use response::Article;
pub use response::NewsAPIResponse;
pub use response::map_response_err;
pub use response::select_article;
