//! A layered configuration store and the request-pipeline pieces that use it.
//!
//! The store is [`config_bag`]: a chain of named layers in which client-level
//! defaults, operation-level overrides and per-request overrides compose
//! without any layer changing another. Its mathematical model is [`layers`],
//! what holds of every chain is [`laws`], and [`property_store`] is the type
//! map that backs a layer.
//!
//! Around it stand the decisions of four collaborators: which checksum a
//! response is validated against ([`http_response_checksum`]), which
//! requests are health checks ([`alb_health_check`]), how an object is
//! uploaded ([`upload`]) and what an XML error document says
//! ([`rest_xml_unwrapped_errors`]).

pub mod alb_health_check;
pub mod checksum_algorithms;
pub mod config_bag;
pub mod headers;
pub mod http_response_checksum;
pub mod laws;
pub mod layers;
pub mod property_store;
pub mod rest_xml_unwrapped_errors;
pub mod upload;
pub mod value;
