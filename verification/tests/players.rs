use dd2_height_alarm::live::PlayerStates;
use dd2_height_alarm::players::{
    read_live_heights, to_vec_3, update_leaderboard, update_player_heights, AlarmState, PlayerDeets, PlayerHeight,
    PlayerRecord, PlayerState, UpdateType,
};

fn b(x: f32) -> u32 {
    x.to_bits()
}

fn record() -> PlayerRecord {
    PlayerRecord {
        display_name: Some("Bren".to_string()),
        height: Some(b(512.5)),
        color: Some(vec![Some(b(0.25)), Some(b(0.5)), Some(b(0.75))]),
        rank: Some(3),
        pos: Some(vec![Some(b(1.0)), Some(b(2.0)), Some(b(3.0))]),
        vel: None,
        user_id: Some("5d6b14db-4d41-47a4-93e2-36a3bf229f9b".to_string()),
    }
}

#[test]
fn complete_record_reads() {
    let p = PlayerHeight::try_from(&record()).unwrap();
    assert_eq!(p.name, "Bren");
    assert_eq!(p.wsid, "5d6b14db-4d41-47a4-93e2-36a3bf229f9b");
    assert_eq!(p.height, b(512.5));
    assert_eq!(p.color, Some([b(0.25), b(0.5), b(0.75)]));
    assert_eq!(p.rank, 3);
    assert_eq!(p.pos, Some([b(1.0), b(2.0), b(3.0)]));
    assert_eq!(p.vel, None);
}

#[test]
fn missing_fields_give_the_first_error() {
    let mut r = record();
    r.display_name = None;
    r.height = None;
    assert_eq!(PlayerHeight::try_from(&r).err().unwrap(), "Bad Name");
    let mut r = record();
    r.height = None;
    r.rank = None;
    assert_eq!(PlayerHeight::try_from(&r).err().unwrap(), "Bad Height");
    let mut r = record();
    r.rank = None;
    r.user_id = None;
    assert_eq!(PlayerHeight::try_from(&r).err().unwrap(), "bad rank");
    let mut r = record();
    r.user_id = None;
    assert_eq!(PlayerHeight::try_from(&r).err().unwrap(), "Bad wsid");
}

#[test]
fn short_colours_are_filled() {
    let mut r = record();
    r.color = Some(vec![Some(b(0.5)), None]);
    let p = PlayerHeight::try_from(&r).unwrap();
    assert_eq!(p.color, Some([b(0.5), b(1.0), b(0.0)]));
    r.color = Some(vec![]);
    assert_eq!(PlayerHeight::try_from(&r).unwrap().color, Some([0, 0, 0]));
    r.color = None;
    assert_eq!(PlayerHeight::try_from(&r).unwrap().color, None);
}

#[test]
fn triples_need_three_numbers() {
    assert_eq!(to_vec_3(&vec![Some(1), Some(2), Some(3)]), Some([1, 2, 3]));
    assert_eq!(to_vec_3(&vec![Some(1), Some(2)]), None);
    assert_eq!(to_vec_3(&vec![Some(1), Some(2), Some(3), Some(4)]), None);
    assert_eq!(to_vec_3(&vec![Some(1), None, Some(3)]), None);
    let mut r = record();
    r.pos = Some(vec![Some(1), Some(2)]);
    r.vel = Some(vec![Some(4), Some(5), Some(6)]);
    let p = PlayerHeight::try_from(&r).unwrap();
    assert_eq!(p.pos, None);
    assert_eq!(p.vel, Some([4, 5, 6]));
}

#[test]
fn live_heights_keep_readable_entries() {
    let mut bad = record();
    bad.rank = None;
    let mut other = record();
    other.display_name = Some("Lars".to_string());
    let heights = read_live_heights(&vec![record(), bad, other]);
    assert_eq!(heights.len(), 2);
    assert_eq!(heights[0].name, "Bren");
    assert_eq!(heights[1].name, "Lars");
}

fn ph(name: &str) -> PlayerHeight {
    PlayerHeight {
        name: name.to_string(),
        wsid: name.to_string(),
        height: 0,
        color: None,
        rank: 0,
        pos: None,
        vel: None,
    }
}

#[test]
fn snapshots_keep_the_three_newest() {
    let mut history: Vec<Vec<PlayerHeight>> = Vec::new();
    update_leaderboard(&mut history, vec![ph("a")]);
    assert_eq!(history.len(), 1);
    update_leaderboard(&mut history, vec![ph("b")]);
    update_leaderboard(&mut history, vec![ph("c")]);
    update_leaderboard(&mut history, vec![ph("d"), ph("e")]);
    assert_eq!(history.len(), 3);
    assert_eq!(history[0][0].name, "d");
    assert_eq!(history[0][1].name, "e");
    assert_eq!(history[1][0].name, "c");
    assert_eq!(history[2][0].name, "b");
}

fn deets(wsid: &str, height: f32) -> PlayerDeets {
    PlayerDeets {
        name: format!("name of {}", wsid),
        wsid: wsid.to_string(),
        rank: 1,
        last_rank: None,
        live_height: b(height),
        last_height: None,
        pb_height: 0,
        pb_rank: 0,
        color: [0; 4],
        pos: None,
        vel: None,
        last_pos: None,
        last_vel: None,
        t: 0,
    }
}

#[test]
fn new_state_starts_on_its_floor() {
    let s = PlayerState::new(&deets("w", 530.0));
    assert_eq!(s.floor, 5);
    assert_eq!(s.last_floor, 0);
    assert_eq!(s.height, b(530.0));
    assert_eq!(s.last_height, b(530.0));
    assert_eq!(s.last_alarm_floor, None);
    assert!(s.last_alarm_time.is_none());
    assert!(!s.has_fired_alarm);
    assert_eq!(s.name, "name of w");
}

#[test]
fn climbing_raises_one_alarm_per_new_floor() {
    let mut s = PlayerState::new(&deets("w", 530.0));
    assert_eq!(s.update(&deets("w", 530.0)), AlarmState::NoAlarm);
    assert_eq!(s.update(&deets("w", 640.0)), AlarmState::Alarm(6));
    assert_eq!(s.last_alarm_floor, Some(6));
    assert!(s.last_alarm_time.is_some());
    assert_eq!(s.last_floor, 5);
    assert_eq!(s.update(&deets("w", 650.0)), AlarmState::NoAlarm);
    assert_eq!(s.update(&deets("w", 800.0)), AlarmState::Alarm(7));
}

#[test]
fn small_dips_do_not_rearm() {
    let mut s = PlayerState::new(&deets("w", 530.0));
    assert_eq!(s.update(&deets("w", 940.0)), AlarmState::Alarm(9));
    assert_eq!(s.update(&deets("w", 730.0)), AlarmState::NoAlarm);
    assert_eq!(s.last_alarm_floor, Some(9));
    assert_eq!(s.update(&deets("w", 940.0)), AlarmState::NoAlarm);
}

#[test]
fn a_big_fall_rearms() {
    let mut s = PlayerState::new(&deets("w", 530.0));
    assert_eq!(s.update(&deets("w", 940.0)), AlarmState::Alarm(9));
    assert_eq!(s.update(&deets("w", 600.0)), AlarmState::NoAlarm);
    assert_eq!(s.last_alarm_floor, None);
    assert!(s.last_alarm_time.is_none());
    assert_eq!(s.update(&deets("w", 720.0)), AlarmState::Alarm(6));
}

#[test]
fn refresh_messages() {
    assert!(UpdateType::Players.clears_players());
    assert!(!UpdateType::Render.clears_players());
}

#[test]
fn watch_reports_the_last_alarm_above_the_start() {
    let mut states = PlayerStates::new();
    let first = vec![deets("a", 100.0), deets("b", 1000.0), deets("c", 1200.0)];
    assert_eq!(states.check_alarms(&first, 11), None);
    assert_eq!(states.len(), 3);
    let second = vec![deets("a", 1300.0), deets("b", 1500.0), deets("c", 1200.0)];
    assert_eq!(states.check_alarms(&second, 11), Some(1));
    assert_eq!(states.get(&"a".to_string()).unwrap().last_alarm_floor, Some(12));
    assert_eq!(states.get(&"b".to_string()).unwrap().last_alarm_floor, Some(14));
    let third = vec![deets("a", 1300.0), deets("c", 1400.0), deets("d", 1900.0)];
    assert_eq!(states.check_alarms(&third, 14), None);
    assert_eq!(states.get(&"c".to_string()).unwrap().last_alarm_floor, Some(13));
    assert_eq!(states.len(), 4);
    assert!(states.get(&"zz".to_string()).is_none());
}

#[test]
fn live_height_updates_read_then_keep_three() {
    let mut history: Vec<Vec<PlayerHeight>> = vec![vec![ph("old1")], vec![ph("old2")], vec![ph("old3")]];
    let mut bad = record();
    bad.user_id = None;
    update_player_heights(&mut history, &vec![bad, record()]);
    assert_eq!(history.len(), 3);
    assert_eq!(history[0].len(), 1);
    assert_eq!(history[0][0].name, "Bren");
    assert_eq!(history[1][0].name, "old1");
    assert_eq!(history[2][0].name, "old2");
}

#[test]
fn the_same_list_again_raises_no_alarm() {
    let mut states = PlayerStates::new();
    let first = vec![deets("a", 100.0), deets("b", 1000.0)];
    let second = vec![deets("a", 1300.0), deets("b", 1500.0)];
    assert_eq!(states.check_alarms(&first, 0), None);
    assert_eq!(states.check_alarms(&second, 0), Some(1));
    assert_eq!(states.check_alarms(&second, 0), None);
    assert_eq!(states.check_alarms(&second, -5), None);
}

#[test]
fn first_sightings_are_silent() {
    let mut states = PlayerStates::new();
    let list = vec![deets("a", 1700.0), deets("b", 1800.0)];
    assert_eq!(states.check_alarms(&list, 0), None);
    assert_eq!(states.get(&"a".to_string()).unwrap().floor, 16);
    assert_eq!(states.get(&"b".to_string()).unwrap().floor, 17);
}

#[test]
fn the_alarm_time_is_kept_until_the_next_alarm_or_reset() {
    let mut s = PlayerState::new(&deets("w", 530.0));
    assert_eq!(s.update(&deets("w", 640.0)), AlarmState::Alarm(6));
    let stamped = s.last_alarm_time;
    assert!(stamped.is_some());
    assert_eq!(s.update(&deets("w", 650.0)), AlarmState::NoAlarm);
    assert_eq!(s.last_alarm_time, stamped);
    assert_eq!(s.update(&deets("w", 640.0)), AlarmState::NoAlarm);
    assert_eq!(s.last_alarm_time, stamped);
}

#[test]
fn untouched_climbers_keep_their_alarm_time() {
    let mut states = PlayerStates::new();
    assert_eq!(states.check_alarms(&vec![deets("a", 100.0), deets("b", 100.0)], 0), None);
    assert_eq!(states.check_alarms(&vec![deets("a", 1300.0)], 0), Some(0));
    let stamped = states.get(&"a".to_string()).unwrap().last_alarm_time;
    assert!(stamped.is_some());
    assert_eq!(states.check_alarms(&vec![deets("b", 200.0)], 0), Some(0));
    assert_eq!(states.get(&"a".to_string()).unwrap().last_alarm_time, stamped);
    assert_eq!(states.get(&"a".to_string()).unwrap().last_alarm_floor, Some(12));
}
