//! Request construction for the [polygon.io](https://polygon.io) REST API.
//!
//! A [`rest::RESTClient`] holds the API key and base URL; each of its
//! endpoint methods returns the [`rest::Request`] (URL, bearer token and
//! query parameters) that the endpoint is called with.

pub mod rest;
pub mod text;
pub mod types;
