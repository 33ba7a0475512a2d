//! Client library for the CenySlovensko price API: query building, response
//! handling, the shared web client configuration and the JSON-RPC dispatch
//! rules of the local server.
pub mod text;
pub mod product_price;
pub mod product_category;
pub mod version;
pub mod vendor;
pub mod web_client;
pub mod rpc_protocol;
pub mod rpc_application;
pub mod http_source;
pub mod server_config;
