//! Climbers as the height feeds report them, the recent snapshots of those
//! feeds, and each watched climber's alarm state.
//!
//! Every `f32` of a climber (height, colour, position, velocity) is held as
//! its bit pattern (`f32::to_bits`); see `float_bits`.
use crate::float_bits::{F32_ONE_BITS, F32_ZERO_BITS};
use crate::floors::{floor_of, height_to_floor, lemma_floor_range};
use std::time::SystemTime;
use vstd::prelude::*;

verus! {

/// The fields of one entry of the live-heights feed, as read from its JSON
/// object: each is `None` where the key is missing or holds another kind of
/// value. Numbers are `f32` bit patterns; an array holds `None` for each
/// element that is not a number.
pub struct PlayerRecord {
    pub display_name: Option<String>,
    pub height: Option<u32>,
    pub color: Option<Vec<Option<u32>>>,
    pub rank: Option<i64>,
    pub pos: Option<Vec<Option<u32>>>,
    pub vel: Option<Vec<Option<u32>>>,
    pub user_id: Option<String>,
}

/// One climber in a snapshot of the live heights or of the leaderboard.
pub struct PlayerHeight {
    pub name: String,
    pub wsid: String,
    pub height: u32,
    pub color: Option<[u32; 3]>,
    pub rank: i64,
    pub pos: Option<[u32; 3]>,
    pub vel: Option<[u32; 3]>,
}

/// What a refresh message asks to redraw.
#[derive(Debug, Clone, Copy, PartialEq, Eq, Structural)]
pub enum UpdateType {
    Players,
    Render,
}

impl UpdateType {
    /// Whether the message makes the drawn player list be rebuilt from the
    /// snapshots (only a players update does).
    pub fn clears_players(&self) -> (clears: bool)
        ensures
            clears == (*self == UpdateType::Players),
    {
        match self {
            UpdateType::Players => true,
            UpdateType::Render => false,
        }
    }
}

/// A copy of a climber entry.
pub(crate) fn copy_player_height(p: &PlayerHeight) -> (copy: PlayerHeight)
    ensures
        copy == *p,
{
    PlayerHeight {
        name: p.name.clone(),
        wsid: p.wsid.clone(),
        height: p.height,
        color: p.color,
        rank: p.rank,
        pos: p.pos,
        vel: p.vel,
    }
}

/// The triple of an array of exactly three numbers.
pub open spec fn triple_of(v: Seq<Option<u32>>) -> Option<[u32; 3]> {
    if v.len() == 3 && v[0] is Some && v[1] is Some && v[2] is Some {
        Some([v[0]->0, v[1]->0, v[2]->0])
    } else {
        None
    }
}

/// The three numbers of an array of exactly three numbers; `None` for any
/// other length or where an element is not a number.
pub fn to_vec_3(v: &Vec<Option<u32>>) -> (out: Option<[u32; 3]>)
    ensures
        out == triple_of(v@),
{
    if v.len() != 3 {
        return None;
    }
    match (v[0], v[1], v[2]) {
        (Some(x), Some(y), Some(z)) => Some([x, y, z]),
        _ => None,
    }
}

/// Entry `i` of a colour read from the array `a`: the element where it is a
/// number, 1.0 where it is not, and 0.0 past the end of the array.
pub open spec fn color_entry(a: Seq<Option<u32>>, i: int) -> u32 {
    if i < a.len() {
        match a[i] {
            Some(x) => x,
            None => F32_ONE_BITS,
        }
    } else {
        F32_ZERO_BITS
    }
}

/// The colour read from an array of at most three elements.
pub open spec fn color_of(a: Seq<Option<u32>>) -> [u32; 3] {
    [color_entry(a, 0), color_entry(a, 1), color_entry(a, 2)]
}

fn read_color(a: &Vec<Option<u32>>) -> (c: [u32; 3])
    requires
        a@.len() <= 3,
    ensures
        c == color_of(a@),
{
    let mut out: [u32; 3] = [F32_ZERO_BITS, F32_ZERO_BITS, F32_ZERO_BITS];
    let mut i: usize = 0;
    while i < a.len()
        invariant
            a@.len() <= 3,
            0 <= i <= a@.len(),
            forall|k: int| 0 <= k < i ==> out@[k] == color_entry(a@, k),
            forall|k: int| i <= k < 3 ==> out@[k] == F32_ZERO_BITS,
        decreases a@.len() - i,
    {
        let v = match a[i] {
            Some(x) => x,
            None => F32_ONE_BITS,
        };
        out[i] = v;
        i += 1;
    }
    assert(out@ =~= color_of(a@)@);
    out
}

/// The message of the first field of `rec` that is missing, in the order
/// name, height, rank, user id; `None` when none is.
pub open spec fn record_error(rec: PlayerRecord) -> Option<Seq<char>> {
    if rec.display_name is None {
        Some("Bad Name"@)
    } else if rec.height is None {
        Some("Bad Height"@)
    } else if rec.rank is None {
        Some("bad rank"@)
    } else if rec.user_id is None {
        Some("Bad wsid"@)
    } else {
        None
    }
}

/// A colour array longer than three cannot be read: it is reached once the
/// name and height are there.
pub open spec fn record_readable(rec: PlayerRecord) -> bool {
    (rec.display_name is Some && rec.height is Some && rec.color is Some) ==> rec.color->0@.len()
        <= 3
}

/// `p` is the climber that the complete record `rec` describes.
pub open spec fn read_from(rec: PlayerRecord, p: PlayerHeight) -> bool {
    &&& p.name == rec.display_name->0
    &&& p.wsid == rec.user_id->0
    &&& p.height == rec.height->0
    &&& p.rank == rec.rank->0
    &&& p.color == (match rec.color {
        Some(a) => Some(color_of(a@)),
        None => None,
    })
    &&& p.pos == (match rec.pos {
        Some(a) => triple_of(a@),
        None => None,
    })
    &&& p.vel == (match rec.vel {
        Some(a) => triple_of(a@),
        None => None,
    })
}

fn copy_opt_string(s: &Option<String>) -> (out: Option<String>)
    ensures
        out == *s,
{
    match s {
        Some(x) => Some(x.clone()),
        None => None,
    }
}

impl PlayerHeight {
    /// Reads a climber from one entry of the live-heights feed. The first
    /// missing field among name, height, rank and user id gives the error
    /// "Bad Name", "Bad Height", "bad rank" or "Bad wsid"; a colour with
    /// fewer than three numbers is filled up with 1.0 for non-numbers and 0.0
    /// past its end; a position or velocity that is not three numbers is
    /// dropped.
    pub fn try_from(v: &PlayerRecord) -> (res: Result<PlayerHeight, String>)
        requires
            record_readable(*v),
        ensures
            res is Ok <==> record_error(*v) is None,
            res matches Ok(p) ==> read_from(*v, p),
            res matches Err(e) ==> record_error(*v) == Some(e@),
    {
        proof {
            reveal_strlit("Bad Name");
            reveal_strlit("Bad Height");
            reveal_strlit("bad rank");
            reveal_strlit("Bad wsid");
        }
        let name = match copy_opt_string(&v.display_name) {
            Some(n) => n,
            None => {
                return Err(String::from_str("Bad Name"));
            },
        };
        let height = match v.height {
            Some(h) => h,
            None => {
                return Err(String::from_str("Bad Height"));
            },
        };
        let color = match &v.color {
            Some(a) => Some(read_color(a)),
            None => None,
        };
        let rank = match v.rank {
            Some(r) => r,
            None => {
                return Err(String::from_str("bad rank"));
            },
        };
        let pos = match &v.pos {
            Some(a) => to_vec_3(a),
            None => None,
        };
        let vel = match &v.vel {
            Some(a) => to_vec_3(a),
            None => None,
        };
        let wsid = match copy_opt_string(&v.user_id) {
            Some(w) => w,
            None => {
                return Err(String::from_str("Bad wsid"));
            },
        };
        Ok(PlayerHeight { name, wsid, height, color, rank, pos, vel })
    }
}

/// The records of `recs` that read without error, in order.
pub open spec fn complete_records(recs: Seq<PlayerRecord>) -> Seq<PlayerRecord>
    decreases recs.len(),
{
    if recs.len() == 0 {
        Seq::empty()
    } else if record_error(recs.last()) is None {
        complete_records(recs.drop_last()).push(recs.last())
    } else {
        complete_records(recs.drop_last())
    }
}

/// The readable part of a feed is its entries with no missing field, all of
/// them, in feed order: exactly what filtering by "no field missing" keeps.
pub proof fn lemma_complete_records_keep_every_complete_entry(recs: Seq<PlayerRecord>)
    ensures
        complete_records(recs) == recs.filter(|r: PlayerRecord| record_error(r) is None),
    decreases recs.len(),
{
    reveal(Seq::filter);
    if recs.len() > 0 {
        lemma_complete_records_keep_every_complete_entry(recs.drop_last());
    }
}

/// Reads a snapshot of the live-heights feed, keeping the climbers whose
/// entries read and dropping the others.
pub fn read_live_heights(records: &Vec<PlayerRecord>) -> (heights: Vec<PlayerHeight>)
    requires
        forall|i: int| 0 <= i < records@.len() ==> record_readable(#[trigger] records@[i]),
    ensures
        heights@.len() == complete_records(records@).len(),
        forall|j: int|
            0 <= j < heights@.len() ==> read_from(
                complete_records(records@)[j],
                #[trigger] heights@[j],
            ),
{
    let mut heights: Vec<PlayerHeight> = Vec::new();
    let mut i: usize = 0;
    while i < records.len()
        invariant
            0 <= i <= records@.len(),
            forall|k: int| 0 <= k < records@.len() ==> record_readable(#[trigger] records@[k]),
            heights@.len() == complete_records(records@.take(i as int)).len(),
            forall|j: int|
                0 <= j < heights@.len() ==> read_from(
                    complete_records(records@.take(i as int))[j],
                    #[trigger] heights@[j],
                ),
        decreases records@.len() - i,
    {
        assert(records@.take(i + 1).drop_last() =~= records@.take(i as int));
        let parsed = PlayerHeight::try_from(&records[i]);
        match parsed {
            Ok(p) => {
                heights.push(p);
            },
            Err(_) => {},
        }
        i += 1;
    }
    assert(records@.take(records@.len() as int) =~= records@);
    heights
}

/// The snapshots kept after `snapshot` arrives: it goes first, and only
/// the three newest are kept.
pub open spec fn with_snapshot<T>(history: Seq<T>, snapshot: T) -> Seq<T> {
    let all = seq![snapshot] + history;
    if all.len() > 3 {
        all.take(3)
    } else {
        all
    }
}

fn push_snapshot(history: &mut Vec<Vec<PlayerHeight>>, snapshot: Vec<PlayerHeight>)
    ensures
        final(history)@ == with_snapshot(old(history)@, snapshot),
{
    let ghost all = seq![snapshot] + old(history)@;
    history.insert(0, snapshot);
    assert(history@ =~= all);
    while history.len() > 3
        invariant
            all.len() > 3 ==> history@.len() >= 3,
            all.len() <= 3 ==> history@ == all,
            history@.len() <= all.len(),
            history@ == all.take(history@.len() as int),
        decreases history@.len(),
    {
        history.pop();
        assert(history@ =~= all.take(history@.len() as int));
    }
}

/// Takes a fetched snapshot of the live heights: reads its entries, keeping
/// those that read, puts the snapshot first in the history and keeps the
/// three newest.
pub fn update_player_heights(out_heights: &mut Vec<Vec<PlayerHeight>>, records: &Vec<PlayerRecord>)
    requires
        forall|i: int| 0 <= i < records@.len() ==> record_readable(#[trigger] records@[i]),
    ensures
        final(out_heights)@ == with_snapshot(old(out_heights)@, final(out_heights)@[0]),
        final(out_heights)@[0]@.len() == complete_records(records@).len(),
        forall|j: int|
            0 <= j < final(out_heights)@[0]@.len() ==> read_from(
                complete_records(records@)[j],
                #[trigger] final(out_heights)@[0]@[j],
            ),
{
    let heights = read_live_heights(records);
    let ghost snapshot = heights;
    push_snapshot(out_heights, heights);
    assert(out_heights@[0] == snapshot);
}

/// Takes a fetched leaderboard: puts it first in the history and keeps the
/// three newest.
pub fn update_leaderboard(out_leaderboard: &mut Vec<Vec<PlayerHeight>>, leaderboard: Vec<PlayerHeight>)
    ensures
        final(out_leaderboard)@ == with_snapshot(old(out_leaderboard)@, leaderboard),
{
    push_snapshot(out_leaderboard, leaderboard);
}

/// A snapshot of the history always holds the newest snapshot first and at
/// most three in all.
pub proof fn lemma_snapshot_history<T>(history: Seq<T>, snapshot: T)
    ensures
        with_snapshot(history, snapshot).len() <= 3,
        with_snapshot(history, snapshot).len() >= 1,
        with_snapshot(history, snapshot)[0] == snapshot,
        forall|i: int|
            1 <= i < with_snapshot(history, snapshot).len() ==> with_snapshot(history, snapshot)[i]
                == history[i - 1],
{
}

/// What a climber's alarm state answers after a new height comes in.
#[derive(Debug, Clone, Copy, PartialEq, Eq, Structural)]
pub enum AlarmState {
    NoAlarm,
    Alarm(i32),
}

/// `SystemTime` of std, carried through as the time of the last alarm.
#[verifier::external_type_specification]
#[verifier::external_body]
pub struct ExSystemTime(SystemTime);

/// `SystemTime::now` of std: the current system time. It depends on the
/// clock, so nothing is stated of it.
#[verifier::external_body]
fn system_time_now() -> SystemTime {
    SystemTime::now()
}

/// A watched climber's state, updated on every new height.
pub struct PlayerState {
    pub name: String,
    pub wsid: String,
    pub height: u32,
    pub floor: i32,
    pub last_alarm_time: Option<SystemTime>,
    pub last_alarm_floor: Option<i32>,
    pub last_floor: i32,
    pub last_height: u32,
    pub has_fired_alarm: bool,
}

/// Everything of a `PlayerState` that its updates decide (the time of the
/// last alarm only by whether there is one).
pub struct AlarmMemory {
    pub height: u32,
    pub floor: i32,
    pub alarm_time_set: bool,
    pub last_alarm_floor: Option<i32>,
    pub last_floor: i32,
    pub last_height: u32,
    pub has_fired_alarm: bool,
}

/// The floor of the last alarm, or 0 when there is none.
pub open spec fn alarm_floor_or_zero(m: AlarmMemory) -> int {
    match m.last_alarm_floor {
        Some(f) => f as int,
        None => 0,
    }
}

/// A new height sends the climber to a floor below the last alarm's by more
/// than two, and below the floor they were on: the alarm is re-armed.
pub open spec fn rearms(m: AlarmMemory, next: int) -> bool {
    next < m.floor && next < alarm_floor_or_zero(m) - 2
}

/// A new height takes the climber above the floor they were on and above
/// the floor of the last alarm.
pub open spec fn climbs_to_new_high(m: AlarmMemory, next: int) -> bool {
    next > m.floor && next > alarm_floor_or_zero(m)
}

/// The alarm state after the height with bit pattern `height` comes in, and
/// the answer: an alarm at the new floor when it is a new high, nothing
/// (and a cleared alarm) after a fall that re-arms, nothing otherwise.
pub open spec fn alarm_step(m: AlarmMemory, height: u32) -> (AlarmMemory, AlarmState) {
    let next = floor_of(height);
    if rearms(m, next) {
        (
            AlarmMemory {
                height,
                floor: next as i32,
                alarm_time_set: false,
                last_alarm_floor: None,
                last_floor: m.floor,
                last_height: m.height,
                has_fired_alarm: false,
            },
            AlarmState::NoAlarm,
        )
    } else if climbs_to_new_high(m, next) {
        (
            AlarmMemory {
                height,
                floor: next as i32,
                alarm_time_set: true,
                last_alarm_floor: Some(next as i32),
                last_floor: m.floor,
                last_height: m.height,
                has_fired_alarm: false,
            },
            AlarmState::Alarm(next as i32),
        )
    } else {
        (
            AlarmMemory {
                height,
                floor: next as i32,
                alarm_time_set: m.alarm_time_set,
                last_alarm_floor: m.last_alarm_floor,
                last_floor: m.floor,
                last_height: m.height,
                has_fired_alarm: m.has_fired_alarm,
            },
            AlarmState::NoAlarm,
        )
    }
}

/// The alarm state of a climber first seen at the height with bit pattern
/// `height`.
pub open spec fn first_sighting(height: u32) -> AlarmMemory {
    AlarmMemory {
        height,
        floor: floor_of(height) as i32,
        alarm_time_set: false,
        last_alarm_floor: None,
        last_floor: 0,
        last_height: height,
        has_fired_alarm: false,
    }
}

/// The alarm floors that an update can compute with: the floor of the last
/// alarm leaves room to subtract two.
pub open spec fn update_fits(m: AlarmMemory, height: u32) -> bool {
    (floor_of(height) < m.floor && m.last_alarm_floor is Some) ==> m.last_alarm_floor->0
        >= i32::MIN + 2
}

/// An update raises an alarm exactly when the new floor is a new high: above
/// the floor the climber was on and above the last alarm's floor (0 when
/// there is none). The alarm names the new floor.
pub proof fn lemma_alarm_exactly_at_new_high(m: AlarmMemory, height: u32)
    ensures
        alarm_step(m, height).1 is Alarm <==> climbs_to_new_high(m, floor_of(height)),
        alarm_step(m, height).1 matches AlarmState::Alarm(f) ==> f == floor_of(height) && f
            > m.floor && f > alarm_floor_or_zero(m),
{
    lemma_floor_range(height);
}

/// The floor of the last alarm, written out: that floor, or 0 when there is
/// none yet.
proof fn lemma_alarm_floor_or_zero(m: AlarmMemory)
    ensures
        alarm_floor_or_zero(m) == (match m.last_alarm_floor {
            Some(f) => f as int,
            None => 0int,
        }),
{
}

/// An update raises an alarm at the new floor whenever that floor is above
/// the floor the climber was on and above the last alarm's floor (above 0
/// when there was none), and the alarm floor becomes the new floor; and
/// only then does it raise one.
pub proof fn lemma_climb_above_floor_and_last_alarm_alarms(m: AlarmMemory, height: u32)
    ensures
        (floor_of(height) > m.floor && (match m.last_alarm_floor {
            Some(f) => floor_of(height) > f,
            None => floor_of(height) > 0,
        })) ==> alarm_step(m, height).1 == AlarmState::Alarm(floor_of(height) as i32)
            && alarm_step(m, height).0.last_alarm_floor == Some(floor_of(height) as i32),
        alarm_step(m, height).1 is Alarm ==> floor_of(height) > m.floor && (match m.last_alarm_floor {
            Some(f) => floor_of(height) > f,
            None => floor_of(height) > 0,
        }),
{
    lemma_floor_range(height);
    lemma_alarm_floor_or_zero(m);
}

/// A fall below the floor the climber was on, and more than two floors
/// below the last alarm's floor (below -2 when there was none), answers no
/// alarm and clears the alarm floor and time.
pub proof fn lemma_big_fall_clears_alarm(m: AlarmMemory, height: u32)
    requires
        floor_of(height) < m.floor,
        match m.last_alarm_floor {
            Some(f) => floor_of(height) < f - 2,
            None => floor_of(height) < -2,
        },
    ensures
        alarm_step(m, height).1 == AlarmState::NoAlarm,
        alarm_step(m, height).0.last_alarm_floor is None,
        !alarm_step(m, height).0.alarm_time_set,
{
    lemma_floor_range(height);
    lemma_alarm_floor_or_zero(m);
}

/// After an alarm and a dip of at most two floors, climbing above the
/// alarm's floor raises an alarm at the floor climbed to.
pub proof fn lemma_climb_past_alarm_after_dip(m: AlarmMemory, up: u32, dip: u32, again: u32)
    requires
        alarm_step(m, up).1 is Alarm,
        floor_of(up) - 2 <= floor_of(dip) <= floor_of(up),
        floor_of(again) > floor_of(up),
    ensures
        alarm_step(alarm_step(alarm_step(m, up).0, dip).0, again).1 == AlarmState::Alarm(
            floor_of(again) as i32,
        ),
{
    lemma_floor_range(up);
    lemma_floor_range(dip);
    lemma_floor_range(again);
    lemma_climb_above_floor_and_last_alarm_alarms(m, up);
    let m1 = alarm_step(m, up).0;
    assert(m1.last_alarm_floor == Some(floor_of(up) as i32));
    let m2 = alarm_step(m1, dip).0;
    lemma_alarm_floor_or_zero(m1);
    assert(m2.last_alarm_floor == Some(floor_of(up) as i32));
    assert(m2.floor == floor_of(dip));
    lemma_climb_above_floor_and_last_alarm_alarms(m2, again);
}

/// Staying on a floor never raises a second alarm: after any update, an
/// update with a height on the same floor answers no alarm and keeps the
/// last alarm's floor.
pub proof fn lemma_no_second_alarm_on_same_floor(m: AlarmMemory, first: u32, second: u32)
    requires
        floor_of(first) == floor_of(second),
    ensures
        alarm_step(alarm_step(m, first).0, second).1 == AlarmState::NoAlarm,
        alarm_step(alarm_step(m, first).0, second).0.last_alarm_floor == alarm_step(
            m,
            first,
        ).0.last_alarm_floor,
{
    lemma_floor_range(first);
}

/// After an alarm at floor `f`, a fall to a floor below `f - 2` clears the
/// alarm; climbing again to any floor above the one fallen to, and above 0,
/// raises a new alarm.
pub proof fn lemma_rearm_after_fall(m: AlarmMemory, up: u32, down: u32, again: u32)
    requires
        alarm_step(m, up).1 is Alarm,
        floor_of(down) < floor_of(up) - 2,
        floor_of(again) > floor_of(down),
        floor_of(again) > 0,
    ensures
        alarm_step(alarm_step(m, up).0, down).1 == AlarmState::NoAlarm,
        alarm_step(alarm_step(m, up).0, down).0.last_alarm_floor is None,
        alarm_step(alarm_step(alarm_step(m, up).0, down).0, again).1 == AlarmState::Alarm(
            floor_of(again) as i32,
        ),
{
    lemma_floor_range(up);
    lemma_floor_range(down);
    lemma_floor_range(again);
}

/// A dip of at most two floors below the last alarm does not re-arm it:
/// climbing back up to the alarm's floor raises no new alarm.
pub proof fn lemma_small_dip_keeps_alarm(m: AlarmMemory, up: u32, dip: u32, back: u32)
    requires
        alarm_step(m, up).1 is Alarm,
        floor_of(up) - 2 <= floor_of(dip) <= floor_of(up),
        floor_of(back) <= floor_of(up),
    ensures
        alarm_step(alarm_step(m, up).0, dip).0.last_alarm_floor == Some(floor_of(up) as i32),
        alarm_step(alarm_step(alarm_step(m, up).0, dip).0, back).1 == AlarmState::NoAlarm,
{
    lemma_floor_range(up);
    lemma_floor_range(dip);
    lemma_floor_range(back);
}

/// A climber seen for the first time raises no alarm on that same height.
pub proof fn lemma_first_sighting_is_silent(height: u32)
    ensures
        alarm_step(first_sighting(height), height).1 == AlarmState::NoAlarm,
{
    lemma_floor_range(height);
}

/// Every update moves the climber to the floor of the new height, and
/// remembers the floor and height it came from.
pub proof fn lemma_update_moves_floor(m: AlarmMemory, height: u32)
    ensures
        alarm_step(m, height).0.floor == floor_of(height),
        alarm_step(m, height).0.height == height,
        alarm_step(m, height).0.last_floor == m.floor,
        alarm_step(m, height).0.last_height == m.height,
{
    lemma_floor_range(height);
}

impl PlayerState {
    /// The part of the state that updates decide.
    pub open spec fn memory(&self) -> AlarmMemory {
        AlarmMemory {
            height: self.height,
            floor: self.floor,
            alarm_time_set: self.last_alarm_time is Some,
            last_alarm_floor: self.last_alarm_floor,
            last_floor: self.last_floor,
            last_height: self.last_height,
            has_fired_alarm: self.has_fired_alarm,
        }
    }

    /// The state of a climber first seen as `p`: on the floor of their
    /// height, with no alarm yet.
    pub fn new(p: &PlayerDeets) -> (s: Self)
        ensures
            s.name == p.name,
            s.wsid == p.wsid,
            s.memory() == first_sighting(p.live_height),
    {
        PlayerState {
            name: p.name.clone(),
            wsid: p.wsid.clone(),
            height: p.live_height,
            floor: height_to_floor(p.live_height),
            last_alarm_time: None,
            last_alarm_floor: None,
            last_floor: 0,
            last_height: p.live_height,
            has_fired_alarm: false,
        }
    }

    /// Takes the climber's new height from `p`: moves the floor on, raises an
    /// alarm (stamped with the current time) when the floor is a new high,
    /// and re-arms after a fall of more than two floors below the last alarm.
    pub fn update(&mut self, p: &PlayerDeets) -> (alarm: AlarmState)
        requires
            update_fits(old(self).memory(), p.live_height),
        ensures
            final(self).name == old(self).name,
            final(self).wsid == old(self).wsid,
            (final(self).memory(), alarm) == alarm_step(old(self).memory(), p.live_height),
            !rearms(old(self).memory(), floor_of(p.live_height)) && !climbs_to_new_high(
                old(self).memory(),
                floor_of(p.live_height),
            ) ==> final(self).last_alarm_time == old(self).last_alarm_time,
    {
        proof {
            lemma_floor_range(p.live_height);
        }
        self.last_floor = self.floor;
        self.last_height = self.height;
        let next_floor = height_to_floor(p.live_height);
        let last_alarm: i32 = match self.last_alarm_floor {
            Some(f) => f,
            None => 0,
        };
        let better_floor = next_floor > self.floor;
        let better_floor = next_floor > last_alarm && better_floor;
        let worse_floor = next_floor < self.floor;
        self.floor = next_floor;
        self.height = p.live_height;
        if worse_floor && next_floor < last_alarm - 2 {
            self.reset_alarm();
            return AlarmState::NoAlarm;
        } else if better_floor {
            self.last_alarm_time = Some(system_time_now());
            self.last_alarm_floor = Some(next_floor);
            self.has_fired_alarm = false;
            return AlarmState::Alarm(next_floor);
        }
        AlarmState::NoAlarm
    }

    /// A copy of the state, the alarm time included.
    pub(crate) fn clone_state(&self) -> (copy: PlayerState)
        ensures
            copy.name == self.name,
            copy.wsid == self.wsid,
            copy.memory() == self.memory(),
            copy.last_alarm_time == self.last_alarm_time,
    {
        PlayerState {
            name: self.name.clone(),
            wsid: self.wsid.clone(),
            height: self.height,
            floor: self.floor,
            last_alarm_time: self.last_alarm_time,
            last_alarm_floor: self.last_alarm_floor,
            last_floor: self.last_floor,
            last_height: self.last_height,
            has_fired_alarm: self.has_fired_alarm,
        }
    }

    fn reset_alarm(&mut self)
        ensures
            final(self).last_alarm_time is None,
            final(self).last_alarm_floor is None,
            !final(self).has_fired_alarm,
            final(self).name == old(self).name,
            final(self).wsid == old(self).wsid,
            final(self).height == old(self).height,
            final(self).floor == old(self).floor,
            final(self).last_floor == old(self).last_floor,
            final(self).last_height == old(self).last_height,
    {
        self.last_alarm_time = None;
        self.last_alarm_floor = None;
        self.has_fired_alarm = false;
    }
}

/// A climber as drawn: the live entry with what the previous snapshot and
/// the leaderboard say of them. Colours are RGBA bit patterns.
pub struct PlayerDeets {
    pub name: String,
    pub wsid: String,
    pub rank: i64,
    pub last_rank: Option<i64>,
    pub live_height: u32,
    pub last_height: Option<u32>,
    pub pb_height: u32,
    pub pb_rank: i64,
    pub color: [u32; 4],
    pub pos: Option<[u32; 3]>,
    pub vel: Option<[u32; 3]>,
    pub last_pos: Option<[u32; 3]>,
    pub last_vel: Option<[u32; 3]>,
    pub t: u32,
}

} // verus!
