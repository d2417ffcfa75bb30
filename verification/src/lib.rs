//! Game-session logic of the Devil Daggers stats client: run bookkeeping,
//! submission rules, message framing, configuration migration and the
//! decisions behind its background tasks.
pub mod timing;
pub mod text;
pub mod float_bits;
pub mod mem;
pub mod web_clients;
pub mod grpc_models;
pub mod client;
pub mod consts;
pub mod config;
pub mod ui;
pub mod grpc_client;
pub mod socketio_client;
pub mod websocket_server;
pub mod discord;
pub mod crypto_encoder;
pub mod tray;
pub mod replay_recv;
pub mod updater;
pub mod threads;
pub mod structs;
pub mod net;
