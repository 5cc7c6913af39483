use dd2_height_alarm::live::{find_player_aux, CurrPlayers};
use dd2_height_alarm::players::PlayerHeight;
use dd2_height_alarm::settings::{alarm_watch_due, leaderboard_due, live_heights_due, selected_device_label};

fn b(x: f32) -> u32 {
    x.to_bits()
}

fn ph(name: &str, height: f32, rank: i64) -> PlayerHeight {
    PlayerHeight {
        name: name.to_string(),
        wsid: format!("id-{}", name),
        height: b(height),
        color: None,
        rank,
        pos: None,
        vel: None,
    }
}

#[test]
fn aux_finds_the_first_entry_by_name() {
    let me = ph("x", 1.0, 1);
    let mut last = vec![ph("y", 2.0, 2), ph("x", 3.0, 3), ph("x", 4.0, 4)];
    last[1].pos = Some([1, 2, 3]);
    let aux = find_player_aux(&me, &last, &vec![ph("x", 9.0, 9)], &vec![]);
    assert_eq!(aux.last_live.as_ref().unwrap().rank, 3);
    assert_eq!(aux.last_live.as_ref().unwrap().pos, Some([1, 2, 3]));
    assert_eq!(aux.pb.as_ref().unwrap().height, b(9.0));
    assert!(aux.last_pb.is_none());
}

#[test]
fn players_are_built_from_the_newest_snapshots() {
    let mut a = ph("a", 100.0, 1);
    a.color = Some([b(0.1), b(0.2), b(0.3)]);
    a.pos = Some([5, 6, 7]);
    let mut last_a = ph("a", 90.0, 2);
    last_a.pos = Some([8, 9, 10]);
    let lhs = vec![vec![a, ph("b", 50.0, 2)], vec![last_a]];
    let lbs = vec![vec![ph("a", 1500.0, 7)]];
    let players = CurrPlayers::new(&lhs, &lbs);
    assert_eq!(players.fade_player_hover, 0);
    assert_eq!(players.live.len(), 2);
    let pa = &players.live[0];
    assert_eq!(pa.name, "a");
    assert_eq!(pa.wsid, "id-a");
    assert_eq!(pa.rank, 1);
    assert_eq!(pa.last_rank, Some(2));
    assert_eq!(pa.live_height, b(100.0));
    assert_eq!(pa.last_height, Some(b(90.0)));
    assert_eq!(pa.pb_height, b(1500.0));
    assert_eq!(pa.pb_rank, 7);
    assert_eq!(pa.color, [b(0.1), b(0.2), b(0.3), b(1.0)]);
    assert_eq!(pa.pos, Some([5, 6, 7]));
    assert_eq!(pa.last_pos, Some([8, 9, 10]));
    assert_eq!(pa.t, 0);
    let pb = &players.live[1];
    assert_eq!(pb.last_rank, None);
    assert_eq!(pb.pb_height, 0);
    assert_eq!(pb.pb_rank, 0);
    assert_eq!(pb.color, [b(1.0); 4]);
}

#[test]
fn no_snapshots_no_players() {
    let players = CurrPlayers::new(&vec![], &vec![]);
    assert_eq!(players.live.len(), 0);
}

#[test]
fn device_label() {
    let devices = vec!["speakers".to_string(), "headset".to_string()];
    assert_eq!(selected_device_label(&devices, 1), "headset");
    assert_eq!(selected_device_label(&devices, usize::MAX), "speakers");
    assert_eq!(selected_device_label(&vec![], 0), "None (No Devices?)");
}

#[test]
fn refresh_timing() {
    assert!(!live_heights_due(5_000_000_000));
    assert!(live_heights_due(5_000_000_001));
    assert!(!leaderboard_due(61_234_000_000));
    assert!(leaderboard_due(61_234_000_001));
}

#[test]
fn the_watch_runs_once_per_cleared_list_with_settings_hidden() {
    assert!(alarm_watch_due(false, false));
    assert!(!alarm_watch_due(false, true));
    assert!(!alarm_watch_due(true, false));
    assert!(!alarm_watch_due(true, true));
}
