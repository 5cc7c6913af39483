use dd2_height_alarm::play_sound::{
    alarm_clip, get_player_name, play_for_player_floor, random_alarm, test_play_sounds, Clip,
    SoundTheme, Voice,
};

fn is_alarm(c: Clip) -> bool {
    matches!(c, Clip::Alarm12 | Clip::Alarm14 | Clip::Alarm16 | Clip::AlarmAlarm)
}

#[test]
fn known_climbers_have_their_voice() {
    assert_eq!(get_player_name("5d6b14db-4d41-47a4-93e2-36a3bf229f9b"), Clip::Player(Voice::Bren));
    assert_eq!(get_player_name("011b6ce7-e49d-4fba-beeb-7650bbb26557"), Clip::Player(Voice::Wally));
    assert_eq!(get_player_name("c1299945-2692-42dd-b28d-03c32dea8768"), Clip::Player(Voice::Youronlyhope7));
}

#[test]
fn unknown_climbers_are_someone() {
    assert_eq!(get_player_name(""), Clip::Player(Voice::Someone));
    assert_eq!(get_player_name("5d6b14db-4d41-47a4-93e2-36a3bf229f9"), Clip::Player(Voice::Someone));
    assert_eq!(get_player_name("5d6b14db-4d41-47a4-93e2-36a3bf229f9bx"), Clip::Player(Voice::Someone));
    assert_eq!(get_player_name("5D6B14DB-4D41-47A4-93E2-36A3BF229F9B"), Clip::Player(Voice::Someone));
}

#[test]
fn announcer_calls_out_floors() {
    let user = "e3ff2309-bc24-414a-b9f1-81954236c34b";
    for floor in 1..=16i64 {
        let s = play_for_player_floor(SoundTheme::Announcer, user, floor);
        assert_eq!(s.len(), 4);
        assert!(is_alarm(s[0]));
        assert_eq!(s[1], Clip::Player(Voice::Lars));
        assert_eq!(&s[2..], &[Clip::HasReachedFloor, Clip::FloorNumber(floor as u8)]);
    }
    let s = play_for_player_floor(SoundTheme::Announcer, user, 17);
    assert_eq!(&s[1..], &[Clip::Player(Voice::Lars), Clip::IsApproachingTheEnd]);
    let s = play_for_player_floor(SoundTheme::Announcer, user, 0);
    assert_eq!(&s[1..], &[Clip::Player(Voice::Lars), Clip::HasReachedFloor]);
    let s = play_for_player_floor(SoundTheme::Announcer, user, -1);
    assert_eq!(&s[1..], &[Clip::Player(Voice::Lars), Clip::HasReachedFloor]);
    let s = play_for_player_floor(SoundTheme::Announcer, user, 18);
    assert_eq!(&s[1..], &[Clip::Player(Voice::Lars), Clip::AlarmAlarm]);
    let s = play_for_player_floor(SoundTheme::Announcer, user, 100);
    assert_eq!(&s[1..], &[Clip::Player(Voice::Lars), Clip::AlarmAlarm]);
}

#[test]
fn custom_sound_is_the_plain_alarm() {
    let s = play_for_player_floor(SoundTheme::CustomSound, "nobody", 5);
    assert_eq!(s.len(), 3);
    assert!(is_alarm(s[0]));
    assert_eq!(&s[1..], &[Clip::Player(Voice::Someone), Clip::AlarmAlarm]);
}

#[test]
fn alarm_clips_by_choice() {
    assert_eq!(alarm_clip(1), Clip::Alarm12);
    assert_eq!(alarm_clip(2), Clip::Alarm14);
    assert_eq!(alarm_clip(3), Clip::Alarm16);
    assert_eq!(alarm_clip(0), Clip::AlarmAlarm);
    assert_eq!(alarm_clip(9), Clip::AlarmAlarm);
}

#[test]
fn random_alarm_draws_among_the_four() {
    let mut seen = Vec::new();
    for _ in 0..400 {
        let c = random_alarm();
        assert!(is_alarm(c));
        if !seen.contains(&c) {
            seen.push(c);
        }
    }
    assert_eq!(seen.len(), 4);
}

#[test]
fn sound_test_clips() {
    let s = test_play_sounds();
    assert_eq!(s.len(), 4);
    assert!(is_alarm(s[0]));
    assert_eq!(
        &s[1..],
        &[Clip::Player(Voice::Bren), Clip::HasReachedFloor, Clip::FloorNumber(16)]
    );
}
