use ddstats_rust::client::ConnectionState;
use ddstats_rust::discord::{dagger_for_time, presence, rpc_after, rpc_step, should_fetch_entry, EntryFetcher, RpcStep};
use ddstats_rust::mem::{StatsBlockWithFrames, StatsFrame};

#[test]
fn dagger_thresholds() {
    let d = |t: f64| dagger_for_time(Some(t.to_bits()));
    assert_eq!(dagger_for_time(None), "pleb");
    assert_eq!(d(0.0), "pleb");
    assert_eq!(d(59.9999), "pleb");
    assert_eq!(d(60.0), "bronze");
    assert_eq!(d(120.0), "silver");
    assert_eq!(d(250.0), "gold");
    assert_eq!(d(499.99), "gold");
    assert_eq!(d(500.0), "devil");
    assert_eq!(d(1000.0), "levi");
    assert_eq!(d(1500.5), "levi");
    assert_eq!(d(f64::NAN), "pleb");
}

#[test]
fn better_time_never_lesser_dagger() {
    let rank = |s: &str| ["pleb", "bronze", "silver", "gold", "devil", "levi"].iter().position(|x| *x == s).unwrap();
    let times = [0.0f64, 30.0, 60.0, 100.0, 120.0, 200.0, 250.0, 400.0, 500.0, 900.0, 1000.0, 2000.0];
    for w in times.windows(2) {
        assert!(rank(dagger_for_time(Some(w[0].to_bits()))) <= rank(dagger_for_time(Some(w[1].to_bits()))));
    }
}

#[test]
fn fetching_and_connection_steps() {
    assert!(should_fetch_entry(false, ConnectionState::Connected, 14, 5));
    assert!(!should_fetch_entry(false, ConnectionState::Connected, 15, 5));
    assert!(!should_fetch_entry(true, ConnectionState::Connected, 0, 5));
    assert!(!should_fetch_entry(false, ConnectionState::Connected, 0, 0));
    assert_eq!(rpc_step(false, ConnectionState::Connected), RpcStep::TryConnect);
    assert_eq!(rpc_step(true, ConnectionState::NotConnected), RpcStep::TryClose);
    assert_eq!(rpc_step(false, ConnectionState::Connecting), RpcStep::Skip);
    assert_eq!(rpc_step(true, ConnectionState::Connected), RpcStep::Update);
    assert_eq!(rpc_after(RpcStep::TryConnect, true, false), (true, false));
    assert_eq!(rpc_after(RpcStep::TryClose, true, true), (false, false));
    assert_eq!(rpc_after(RpcStep::TryClose, false, true), (true, true));
    assert_eq!(rpc_after(RpcStep::Update, true, true), (true, true));
}

fn record(status: i32) -> StatsBlockWithFrames {
    let mut d = StatsBlockWithFrames::default();
    d.block.status = status;
    d.block.gems_collected = 300;
    d.block.gems_eaten = 4;
    d.block.gems_despawned = 6;
    d.block.level_gems = 71;
    d.block.homing = 120;
    d
}

#[test]
fn presence_texts() {
    let playing = record(3);
    let p = presence(&playing, "gold", "512.3456").unwrap();
    assert_eq!(p.state, "120 at 512.3456s");
    assert_eq!(p.details, "300 Gems (10 Lost)");
    assert_eq!(p.large_image, "gold");
    assert_eq!(p.large_text, "Playing V3");
    assert_eq!(p.small, Some(("homing_colored", "120 Homing".to_string())));

    let mut replay = record(7);
    replay.block.is_replay = true;
    replay.block.level_gems = 70;
    assert_eq!(presence(&replay, "pleb", "1.0000").unwrap().state, "Replay | 120 LVL3 at 1.0000s");
    replay.block.level_gems = 12;
    let p = presence(&replay, "pleb", "1.0000").unwrap();
    assert_eq!(p.state, "Replay | Level 2 at 1.0000s");
    assert!(p.small.is_none());

    let mut dead = record(4);
    dead.block.death_type = 13;
    let mut f = StatsFrame::default();
    f.level_gems = 5;
    dead.frames = vec![f];
    assert_eq!(presence(&dead, "pleb", "9.5000").unwrap().state, "Incarnated | Level 1 at 9.5000s");
    dead.frames.clear();
    assert!(presence(&dead, "pleb", "9.5000").is_none());
    dead.block.death_type = 17;
    dead.frames = vec![f];
    assert!(presence(&dead, "pleb", "9.5000").is_none());
    assert!(presence(&record(99), "pleb", "0").is_none());
}

#[test]
fn leaderboard_fetched_at_most_fifteen_times() {
    let mut f = EntryFetcher::new();
    assert_eq!(f.begin_tick(ConnectionState::NotConnected, 7), None);
    assert_eq!(f.begin_tick(ConnectionState::Connected, 0), None);
    assert_eq!(f.tries, 0);
    let mut asked = 0;
    for _ in 0..40 {
        if let Some(id) = f.begin_tick(ConnectionState::Connected, 7) {
            assert_eq!(id, 7);
            asked += 1;
            f.fetched(false);
        }
    }
    assert_eq!(asked, 15);
    assert_eq!(f.tries, 15);

    let mut g = EntryFetcher::new();
    assert_eq!(g.begin_tick(ConnectionState::Connected, 3), Some(3));
    g.fetched(true);
    assert_eq!(g.begin_tick(ConnectionState::Connected, 3), None);
    assert_eq!(g, EntryFetcher { have_entry: true, tries: 1 });
}
