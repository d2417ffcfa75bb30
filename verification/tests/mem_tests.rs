use ddstats_rust::mem::{hex_string, GameStatus, StatsBlockWithFrames, StatsDataBlock, StatsFrame};

fn name_bytes(s: &[u8]) -> [u8; 32] {
    let mut b = [0u8; 32];
    b[..s.len()].copy_from_slice(s);
    b
}

#[test]
fn usernames_stop_at_nul() {
    let mut block = StatsDataBlock::default();
    block.username = name_bytes(b"xvlv");
    block.replay_player_name = name_bytes("Ångström".as_bytes());
    assert_eq!(block.player_username(), "xvlv");
    assert_eq!(block.replay_player_username(), "Ångström");
}

#[test]
fn invalid_username_is_unknown() {
    let mut block = StatsDataBlock::default();
    block.username = name_bytes(&[0xff, 0xfe, 0x41]);
    assert_eq!(block.player_username(), "unknown");
    block.username = [0u8; 32];
    assert_eq!(block.player_username(), "");
}

#[test]
fn level_hash_is_upper_hex() {
    let mut block = StatsDataBlock::default();
    block.survival_md5 = [0x56, 0x9f, 0xea, 0xd8, 0x7a, 0xbf, 0x4d, 0x30, 0xfd, 0xee, 0x42, 0x31, 0xa6, 0x39, 0x80, 0x51];
    assert_eq!(block.level_hash(), "569FEAD87ABF4D30FDEE4231A6398051");
    let expected: String = block.survival_md5.iter().map(|b| format!("{:02X}", b)).collect();
    assert_eq!(block.level_hash(), expected);
    assert_eq!(hex_string(&[0x0a, 0xff], false), "0aff");
}

#[test]
fn status_numbers() {
    assert_eq!(GameStatus::from_i32(0), Some(GameStatus::Title));
    assert_eq!(GameStatus::from_i32(4), Some(GameStatus::Dead));
    assert_eq!(GameStatus::from_i32(8), Some(GameStatus::LocalReplay));
    assert_eq!(GameStatus::from_i32(9), None);
    assert_eq!(GameStatus::from_i32(-1), None);
    for v in 0..9 {
        assert_eq!(GameStatus::from_i32(v).unwrap().as_i32(), v);
    }
    let mut block = StatsDataBlock::default();
    block.status = 3;
    assert_eq!(block.status(), GameStatus::Playing);
}

fn frame(level_gems: i32, homing: i32) -> StatsFrame {
    let mut f = StatsFrame::default();
    f.level_gems = level_gems;
    f.homing = homing;
    f
}

fn reference_usage(frames: &[StatsFrame], cutoff: usize) -> u32 {
    let n = if cutoff + 1 > frames.len() { frames.len().saturating_sub(1) } else { cutoff };
    let (mut n3, mut n4, mut l3, mut l4) = (0i32, 0i32, 0i32, 0i32);
    for f in &frames[..n] {
        if f.level_gems == 70 {
            if f.homing < l3 { n3 += l3 - f.homing; }
            l3 = f.homing;
        } else if f.level_gems == 71 {
            if f.homing < l4 { n4 += l4 - f.homing; }
            l4 = f.homing;
        }
    }
    (n3 + n4) as u32
}

#[test]
fn homing_usage_counts_drops_per_level() {
    let frames = vec![
        frame(10, 0), frame(70, 20), frame(70, 15), frame(70, 30), frame(70, 10),
        frame(71, 40), frame(71, 35), frame(71, 50), frame(71, 20), frame(71, 20),
    ];
    let data = StatsBlockWithFrames { block: StatsDataBlock::default(), frames: frames.clone() };
    // level 3: 20->15 (5), 30->10 (20); level 4: 40->35 (5), 50->20 (30)
    assert_eq!(data.homing_usage_from_frames(usize::MAX - 1), 60);
    assert_eq!(data.homing_usage_from_frames(3), 5);
    assert_eq!(data.homing_usage_from_frames(0), 0);
    for cutoff in 0..12 {
        assert_eq!(data.homing_usage_from_frames(cutoff), reference_usage(&frames, cutoff));
    }
    let empty = StatsBlockWithFrames::default();
    assert_eq!(empty.homing_usage_from_frames(5), 0);
}

#[test]
fn stats_pointer_is_little_endian() {
    let mut block = StatsDataBlock::default();
    assert_eq!(block.get_stats_pointer(), 0);
    block.stats_base = [0x10, 0x02, 0, 0, 0, 0, 0, 0];
    assert_eq!(block.get_stats_pointer(), 0x0210);
    block.stats_base = [0x78, 0x56, 0x34, 0x12, 0, 0, 0, 0];
    assert_eq!(block.get_stats_pointer(), 0x1234_5678);
    block.stats_base = [0xff; 8];
    assert_eq!(block.get_stats_pointer(), usize::MAX);
}
