//! Records of the first submission service.
use vstd::prelude::*;

verus! {

/// The service's greeting.
#[derive(Clone, Debug)]
pub struct MotdRespose {
    pub motd: String,
    pub valid_version: bool,
    pub update_available: bool,
}

/// The greeting request: the client version.
#[derive(Clone, Debug)]
pub struct MotdRequest {
    pub version: String,
}

/// The answer to a submitted run.
#[derive(Clone, Debug)]
pub struct SubmitRunResponse {
    pub message: String,
    pub game_id: i32,
}

} // verus!
