//! Requests to the first submission service.
use vstd::prelude::*;
use vstd::string::*;
use crate::text::push_str;

verus! {

/// The greeting address: `<host>/api/v2/client_connect`.
pub fn motd_url(host: &str) -> (s: String)
    ensures
        s@ == host@ + "/api/v2/client_connect"@,
{
    let mut s = String::from_str(host);
    push_str(&mut s, "/api/v2/client_connect");
    s
}

/// The submission address: `<host>/api/submit_game`.
pub fn submit_url(host: &str) -> (s: String)
    ensures
        s@ == host@ + "/api/submit_game"@,
{
    let mut s = String::from_str(host);
    push_str(&mut s, "/api/submit_game");
    s
}

/// Whether a recorded run goes to the service: online, and the player's own
/// run (not a replay of someone else's).
pub fn submits_run(offline: bool, replay_player_id: i32) -> (r: bool)
    ensures
        r == (!offline && replay_player_id == 0),
{
    !offline && replay_player_id == 0
}

} // verus!
