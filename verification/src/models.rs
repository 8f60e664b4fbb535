//! The data transfer shapes exchanged with the server.
//!
//! Response shapes are decoded from the server's JSON; request shapes are
//! rendered by the encoder. Parameter metadata the client never inspects
//! (default values, bounds) is carried through as opaque JSON values.

use vstd::prelude::*;

use crate::values::ParamMap;

verus! {

/// Declares serde_json's dynamic JSON value so that it can be carried in
/// fields and signatures; the library never looks inside it.
#[verifier::external_type_specification]
#[verifier::external_body]
pub struct ExValue(serde_json::Value);

/// The body of a set-color request.
#[derive(Debug, Clone)]
pub struct ColorRequest {
    pub color: String,
}

/// The body of a start-effect request.
#[derive(Debug, Clone)]
pub struct EffectStartRequest {
    pub name: String,
    pub parameters: ParamMap,
}

/// The shape of a failing response body: `{"detail": "..."}`.
#[derive(Debug, Clone)]
pub struct ErrorResponse {
    pub detail: String,
}

/// One entry of the effects list.
#[derive(Debug, Clone)]
pub struct EffectInfo {
    pub name: String,
    pub description: String,
}

/// The response to a list-effects request.
#[derive(Debug, Clone)]
pub struct EffectsListResponse {
    pub effects: Vec<EffectInfo>,
}

/// One declared parameter of an effect. The default value and the bounds
/// are opaque JSON values: the client renders them but never reads them.
#[derive(Debug)]
pub struct EffectParameter {
    pub name: String,
    pub param_type: String,
    pub description: String,
    pub default: serde_json::Value,
    pub min_value: Option<serde_json::Value>,
    pub max_value: Option<serde_json::Value>,
    pub options: Option<Vec<String>>,
}

/// The detailed description of one effect.
#[derive(Debug)]
pub struct EffectDetailedInfo {
    pub name: String,
    pub description: String,
    pub parameters: Vec<EffectParameter>,
}

/// The response to a status request. The runtime is carried as the JSON
/// number literal the server sent; the parameter values are opaque.
#[derive(Debug)]
pub struct EffectStatusResponse {
    pub running: bool,
    pub name: Option<String>,
    pub description: Option<String>,
    pub parameters: Option<Vec<(String, serde_json::Value)>>,
    pub start_time: Option<String>,
    pub runtime: Option<String>,
}

} // verus!
