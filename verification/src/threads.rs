//! The message bus between the program's tasks, and how the shared state
//! follows it.
use vstd::prelude::*;
use std::sync::Arc;
use crate::client::{ConnectionState, SubmitGameEvent};
use crate::mem::StatsBlockWithFrames;
use crate::socketio_client::SubmitSioEvent;
use crate::websocket_server::WsBroadcast;

verus! {

/// A message on the bus.
#[derive(Clone)]
pub enum Message {
    Log(String),
    SubmitGame(Arc<SubmitGameEvent>),
    NewGameData(Arc<StatsBlockWithFrames>),
    NewSnowflake(Arc<u128>),
    NewConnectionState(Arc<ConnectionState>),
    WebSocketMessage(WsBroadcast),
    SocketIoMessage(SubmitSioEvent),
    UploadReplayBuffer,
    UploadReplayData(Arc<Vec<u8>>, bool),
    PlayReplayLocalFile(String),
    Replay(Arc<Vec<u8>>),
    ShowWindow,
    HideWindow,
    SaveCfg,
    Exit,
}

/// What every task reads: whether the game is attached, the newest
/// record, and the session snowflake.
pub struct SharedState {
    pub conn: Arc<ConnectionState>,
    pub last_poll: Arc<StatsBlockWithFrames>,
    pub snowflake: Arc<u128>,
}

/// What the bus loop does after a message.
#[derive(Clone, Copy, Debug, PartialEq, Eq, Structural)]
pub enum BusOutcome {
    /// Nothing more.
    Continue,
    /// Save the configuration.
    SaveConfig,
    /// Save the configuration and stop the loop.
    SaveAndExit,
}

/// Applies a bus message to the shared state: new records, snowflakes and
/// connection states replace the old ones; saving and exiting are
/// reported; everything else leaves the state alone.
pub fn apply_message(state: &mut SharedState, msg: Message) -> (o: BusOutcome)
    ensures
        match msg {
            Message::NewGameData(d) => *final(state) == SharedState { last_poll: d, ..*old(state) }
                && o == BusOutcome::Continue,
            Message::NewSnowflake(s) => *final(state) == SharedState { snowflake: s, ..*old(state) }
                && o == BusOutcome::Continue,
            Message::NewConnectionState(c) => *final(state) == SharedState { conn: c, ..*old(state) }
                && o == BusOutcome::Continue,
            Message::SaveCfg => *final(state) == *old(state) && o == BusOutcome::SaveConfig,
            Message::Exit => *final(state) == *old(state) && o == BusOutcome::SaveAndExit,
            _ => *final(state) == *old(state) && o == BusOutcome::Continue,
        },
{
    match msg {
        Message::NewGameData(d) => {
            state.last_poll = d;
            BusOutcome::Continue
        },
        Message::NewSnowflake(s) => {
            state.snowflake = s;
            BusOutcome::Continue
        },
        Message::NewConnectionState(c) => {
            state.conn = c;
            BusOutcome::Continue
        },
        Message::SaveCfg => BusOutcome::SaveConfig,
        Message::Exit => BusOutcome::SaveAndExit,
        _ => BusOutcome::Continue,
    }
}

/// The capacity of the bus.
pub const BUS_CAPACITY: usize = 1024;

} // verus!
