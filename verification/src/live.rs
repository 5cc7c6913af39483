//! The drawn player list, built from the newest snapshots, and the alarm
//! states of the watched climbers, updated from that list.
use crate::float_bits::F32_ONE_BITS;
use crate::float_bits::F32_ZERO_BITS;
use crate::floors::{floor_of, lemma_floor_range};
use crate::players::{
    alarm_step,
    lemma_first_sighting_is_silent,
    lemma_no_second_alarm_on_same_floor,
    lemma_update_moves_floor,
    copy_player_height,
    first_sighting,
    AlarmMemory,
    AlarmState,
    PlayerDeets,
    PlayerHeight,
    PlayerState,
};
use std::time::SystemTime;
use vstd::prelude::*;

verus! {

/// What the other snapshots say of one live climber.
pub struct PlayerAux {
    pub last_live: Option<PlayerHeight>,
    pub pb: Option<PlayerHeight>,
    pub last_pb: Option<PlayerHeight>,
}

/// The drawn player list: one entry per climber of the newest live snapshot.
pub struct CurrPlayers {
    pub live: Vec<PlayerDeets>,
    /// `f32` bit pattern of the hover fade.
    pub fade_player_hover: u32,
}

/// The first entry of `list` whose name is `name`.
pub open spec fn first_named(list: Seq<PlayerHeight>, name: Seq<char>) -> Option<PlayerHeight>
    decreases list.len(),
{
    if list.len() == 0 {
        None
    } else if list[0].name@ == name {
        Some(list[0])
    } else {
        first_named(list.drop_first(), name)
    }
}

/// The lookup is by name alone: it finds nothing exactly when no entry has
/// the name, and otherwise the earliest entry with the name, whatever its
/// other fields.
pub proof fn lemma_first_named_is_earliest_with_name(list: Seq<PlayerHeight>, name: Seq<char>)
    ensures
        first_named(list, name) is None <==> (forall|i: int| 0 <= i < list.len() ==> list[i].name@ != name),
        forall|i: int|
            0 <= i < list.len() && list[i].name@ == name && (forall|k: int| 0 <= k < i ==> list[k].name@ != name)
                ==> first_named(list, name) == Some(list[i]),
    decreases list.len(),
{
    if list.len() > 0 {
        let rest = list.drop_first();
        lemma_first_named_is_earliest_with_name(rest, name);
        assert forall|i: int| 1 <= i < list.len() implies list[i] == rest[i - 1] by {}
        if list[0].name@ != name {
            assert((forall|i: int| 0 <= i < list.len() ==> list[i].name@ != name) <==> (forall|i: int|
                0 <= i < rest.len() ==> rest[i].name@ != name)) by {
                if forall|i: int| 0 <= i < rest.len() ==> rest[i].name@ != name {
                    assert forall|i: int| 0 <= i < list.len() implies list[i].name@ != name by {
                        if i > 0 {
                            assert(rest[i - 1].name@ != name);
                        }
                    }
                }
            }
            assert forall|i: int|
                0 <= i < list.len() && list[i].name@ == name && (forall|k: int| 0 <= k < i ==> list[k].name@ != name)
                    implies first_named(list, name) == Some(list[i]) by {
                assert(i > 0);
                assert forall|k: int| 0 <= k < i - 1 implies rest[k].name@ != name by {
                    assert(list[k + 1].name@ != name);
                }
            }
        }
    }
}

fn find_named(list: &Vec<PlayerHeight>, name: &String) -> (found: Option<PlayerHeight>)
    ensures
        found == first_named(list@, name@),
{
    let mut i: usize = 0;
    assert(list@.skip(0) =~= list@);
    while i < list.len()
        invariant
            0 <= i <= list@.len(),
            first_named(list@, name@) == first_named(list@.skip(i as int), name@),
        decreases list@.len() - i,
    {
        assert(list@.skip(i as int)[0] == list@[i as int]);
        if list[i].name == *name {
            return Some(copy_player_height(&list[i]));
        }
        assert(list@.skip(i as int).drop_first() =~= list@.skip(i + 1));
        i += 1;
    }
    assert(list@.skip(i as int).len() == 0);
    None
}

/// Looks `ph` up, by name, in the previous live snapshot, the newest
/// leaderboard and the previous leaderboard.
pub fn find_player_aux(
    ph: &PlayerHeight,
    last_lh: &Vec<PlayerHeight>,
    lb1: &Vec<PlayerHeight>,
    last_lb: &Vec<PlayerHeight>,
) -> (aux: PlayerAux)
    ensures
        aux.last_live == first_named(last_lh@, ph.name@),
        aux.pb == first_named(lb1@, ph.name@),
        aux.last_pb == first_named(last_lb@, ph.name@),
{
    let last_live = find_named(last_lh, &ph.name);
    let pb = find_named(lb1, &ph.name);
    let last_pb = find_named(last_lb, &ph.name);
    PlayerAux { last_live, pb, last_pb }
}

/// Snapshot `i` of a history, or an empty one where there is none.
pub open spec fn snapshot_at(history: Seq<Vec<PlayerHeight>>, i: int) -> Seq<PlayerHeight> {
    if 0 <= i < history.len() {
        history[i]@
    } else {
        Seq::empty()
    }
}

/// The RGBA colour drawn for a climber: the reported colour, opaque, or
/// opaque white when there is none.
pub open spec fn rgba_of(color: Option<[u32; 3]>) -> [u32; 4] {
    match color {
        Some(c) => [c@[0], c@[1], c@[2], F32_ONE_BITS],
        None => [F32_ONE_BITS, F32_ONE_BITS, F32_ONE_BITS, F32_ONE_BITS],
    }
}

/// `d` is how the live entry `ph` is drawn, given the previous live
/// snapshot `last_lh` and the newest leaderboard `lb1`.
pub open spec fn drawn_as(
    d: PlayerDeets,
    ph: PlayerHeight,
    last_lh: Seq<PlayerHeight>,
    lb1: Seq<PlayerHeight>,
) -> bool {
    let last = first_named(last_lh, ph.name@);
    let pb = first_named(lb1, ph.name@);
    &&& d.name == ph.name
    &&& d.wsid == ph.wsid
    &&& d.rank == ph.rank
    &&& d.last_rank == (match last {
        Some(l) => Some(l.rank),
        None => None,
    })
    &&& d.live_height == ph.height
    &&& d.last_height == (match last {
        Some(l) => Some(l.height),
        None => None,
    })
    &&& d.pb_height == (match pb {
        Some(p) => p.height,
        None => F32_ZERO_BITS,
    })
    &&& d.pb_rank == (match pb {
        Some(p) => p.rank,
        None => 0,
    })
    &&& d.color == rgba_of(ph.color)
    &&& d.pos == ph.pos
    &&& d.vel == ph.vel
    &&& d.last_pos == (match last {
        Some(l) => l.pos,
        None => None,
    })
    &&& d.last_vel == (match last {
        Some(l) => l.vel,
        None => None,
    })
    &&& d.t == F32_ZERO_BITS
}

fn rgba_from(color: Option<[u32; 3]>) -> (rgba: [u32; 4])
    ensures
        rgba == rgba_of(color),
{
    match color {
        Some(c) => [c[0], c[1], c[2], F32_ONE_BITS],
        None => [F32_ONE_BITS, F32_ONE_BITS, F32_ONE_BITS, F32_ONE_BITS],
    }
}

fn deets_for(ph: &PlayerHeight, aux: &PlayerAux) -> (d: PlayerDeets)
    ensures
        d.name == ph.name,
        d.wsid == ph.wsid,
        d.rank == ph.rank,
        d.last_rank == (match aux.last_live {
            Some(l) => Some(l.rank),
            None => None,
        }),
        d.live_height == ph.height,
        d.last_height == (match aux.last_live {
            Some(l) => Some(l.height),
            None => None,
        }),
        d.pb_height == (match aux.pb {
            Some(p) => p.height,
            None => F32_ZERO_BITS,
        }),
        d.pb_rank == (match aux.pb {
            Some(p) => p.rank,
            None => 0,
        }),
        d.color == rgba_of(ph.color),
        d.pos == ph.pos,
        d.vel == ph.vel,
        d.last_pos == (match aux.last_live {
            Some(l) => l.pos,
            None => None,
        }),
        d.last_vel == (match aux.last_live {
            Some(l) => l.vel,
            None => None,
        }),
        d.t == F32_ZERO_BITS,
{
    PlayerDeets {
        name: ph.name.clone(),
        wsid: ph.wsid.clone(),
        rank: ph.rank,
        last_rank: match &aux.last_live {
            Some(l) => Some(l.rank),
            None => None,
        },
        live_height: ph.height,
        last_height: match &aux.last_live {
            Some(l) => Some(l.height),
            None => None,
        },
        pb_height: match &aux.pb {
            Some(p) => p.height,
            None => F32_ZERO_BITS,
        },
        pb_rank: match &aux.pb {
            Some(p) => p.rank,
            None => 0,
        },
        color: rgba_from(ph.color),
        pos: ph.pos,
        vel: ph.vel,
        last_pos: match &aux.last_live {
            Some(l) => l.pos,
            None => None,
        },
        last_vel: match &aux.last_live {
            Some(l) => l.vel,
            None => None,
        },
        t: F32_ZERO_BITS,
    }
}

impl CurrPlayers {
    /// The player list for the newest live snapshot of `lhs`, in its order,
    /// each climber drawn with what the previous live snapshot and the newest
    /// leaderboard of `lbs` say of them; the hover fade starts at 0.
    pub fn new(lhs: &Vec<Vec<PlayerHeight>>, lbs: &Vec<Vec<PlayerHeight>>) -> (players: Self)
        ensures
            players.fade_player_hover == F32_ZERO_BITS,
            players.live@.len() == snapshot_at(lhs@, 0).len(),
            forall|j: int|
                0 <= j < players.live@.len() ==> drawn_as(
                    #[trigger] players.live@[j],
                    snapshot_at(lhs@, 0)[j],
                    snapshot_at(lhs@, 1),
                    snapshot_at(lbs@, 0),
                ),
    {
        let empty: Vec<PlayerHeight> = Vec::new();
        let lh1 = if lhs.len() > 0 {
            &lhs[0]
        } else {
            &empty
        };
        let last_lh = if lhs.len() > 1 {
            &lhs[1]
        } else {
            &empty
        };
        let lb1 = if lbs.len() > 0 {
            &lbs[0]
        } else {
            &empty
        };
        let last_lb = if lbs.len() > 1 {
            &lbs[1]
        } else {
            &empty
        };
        assert(lh1@ == snapshot_at(lhs@, 0));
        assert(last_lh@ == snapshot_at(lhs@, 1));
        assert(lb1@ == snapshot_at(lbs@, 0));
        let mut live: Vec<PlayerDeets> = Vec::new();
        let mut i: usize = 0;
        while i < lh1.len()
            invariant
                0 <= i <= lh1@.len(),
                live@.len() == i,
                forall|j: int|
                    0 <= j < i ==> drawn_as(#[trigger] live@[j], lh1@[j], last_lh@, lb1@),
            decreases lh1@.len() - i,
        {
            let ph = &lh1[i];
            let aux = find_player_aux(ph, last_lh, lb1, last_lb);
            live.push(deets_for(ph, &aux));
            i += 1;
        }
        CurrPlayers { live, fade_player_hover: F32_ZERO_BITS }
    }
}

/// What the alarm states hold of one climber: their name and alarm state.
pub type Watched = (Seq<char>, AlarmMemory);

/// The alarm states of the watched climbers, one per user id.
pub struct PlayerStates {
    states: Vec<PlayerState>,
}

/// No two states share a user id.
pub open spec fn distinct_ids(s: Seq<PlayerState>) -> bool {
    forall|i: int, j: int|
        0 <= i < s.len() && 0 <= j < s.len() && i != j ==> s[i].wsid@ != s[j].wsid@
}

/// Floors computed by the library lie between -1 and 17.
pub open spec fn floors_in_range(m: AlarmMemory) -> bool {
    &&& -1 <= m.floor <= 17
    &&& (m.last_alarm_floor matches Some(f) ==> -1 <= f <= 17)
}

/// The position of the state with user id `w`.
pub open spec fn index_of(s: Seq<PlayerState>, w: Seq<char>) -> int {
    choose|i: int| 0 <= i < s.len() && s[i].wsid@ == w
}

/// Some state has user id `w`.
pub open spec fn has_id(s: Seq<PlayerState>, w: Seq<char>) -> bool {
    exists|i: int| 0 <= i < s.len() && s[i].wsid@ == w
}

/// The states as a map from user id to name and alarm state.
pub open spec fn states_map(s: Seq<PlayerState>) -> Map<Seq<char>, Watched> {
    Map::new(|w: Seq<char>| has_id(s, w), |w: Seq<char>| (s[index_of(s, w)].name@, s[index_of(s, w)].memory()))
}

/// One sighting of the live climber `pd`: their state (a first-sighting one
/// when they are new) takes their height; also the answer of that update.
pub open spec fn sight(mems: Map<Seq<char>, Watched>, pd: PlayerDeets) -> (Map<Seq<char>, Watched>, AlarmState) {
    let cur: Watched = if mems.contains_key(pd.wsid@) {
        mems[pd.wsid@]
    } else {
        (pd.name@, first_sighting(pd.live_height))
    };
    let step = alarm_step(cur.1, pd.live_height);
    (mems.insert(pd.wsid@, (cur.0, step.0)), step.1)
}

/// The states after sighting each climber of `live` in order.
pub open spec fn after_sightings(mems: Map<Seq<char>, Watched>, live: Seq<PlayerDeets>) -> Map<Seq<char>, Watched>
    decreases live.len(),
{
    if live.len() == 0 {
        mems
    } else {
        sight(after_sightings(mems, live.drop_last()), live.last()).0
    }
}

/// The sighting of `live[j]` raises an alarm at a floor of at least `start`.
pub open spec fn reported_alarm(mems: Map<Seq<char>, Watched>, live: Seq<PlayerDeets>, j: int, start: i32) -> bool {
    sight(after_sightings(mems, live.take(j)), live[j]).1 matches AlarmState::Alarm(f) && f >= start
}

/// A climber seen for the first time raises no alarm in that sighting.
pub proof fn lemma_new_climber_is_silent(mems: Map<Seq<char>, Watched>, pd: PlayerDeets)
    requires
        !mems.contains_key(pd.wsid@),
    ensures
        sight(mems, pd).1 == AlarmState::NoAlarm,
{
    lemma_first_sighting_is_silent(pd.live_height);
}

/// Seeing a climber again on the same floor raises no alarm.
pub proof fn lemma_same_floor_again_is_silent(
    mems: Map<Seq<char>, Watched>,
    pd: PlayerDeets,
    again: PlayerDeets,
)
    requires
        again.wsid@ == pd.wsid@,
        floor_of(again.live_height) == floor_of(pd.live_height),
    ensures
        sight(sight(mems, pd).0, again).1 == AlarmState::NoAlarm,
{
    let cur: Watched = if mems.contains_key(pd.wsid@) {
        mems[pd.wsid@]
    } else {
        (pd.name@, first_sighting(pd.live_height))
    };
    lemma_no_second_alarm_on_same_floor(cur.1, pd.live_height, again.live_height);
}

/// After a round of sightings, everyone watched before is still watched,
/// and so is every climber of the round.
pub proof fn lemma_sightings_keep_everyone(mems: Map<Seq<char>, Watched>, live: Seq<PlayerDeets>)
    ensures
        forall|w: Seq<char>| mems.contains_key(w) ==> #[trigger] after_sightings(mems, live).contains_key(w),
        forall|j: int| 0 <= j < live.len() ==> after_sightings(mems, live).contains_key(#[trigger] live[j].wsid@),
    decreases live.len(),
{
    if live.len() > 0 {
        lemma_sightings_keep_everyone(mems, live.drop_last());
        assert forall|w: Seq<char>| mems.contains_key(w) implies #[trigger] after_sightings(mems, live).contains_key(w) by {
            assert(after_sightings(mems, live.drop_last()).contains_key(w));
        }
        assert forall|j: int| 0 <= j < live.len() implies after_sightings(mems, live).contains_key(#[trigger] live[j].wsid@) by {
            if j < live.len() - 1 {
                assert(live.drop_last()[j] == live[j]);
            }
        }
    }
}

/// No two climbers of a list share a user id.
pub open spec fn distinct_live_ids(live: Seq<PlayerDeets>) -> bool {
    forall|i: int, j: int|
        0 <= i < live.len() && 0 <= j < live.len() && i != j ==> live[i].wsid@ != live[j].wsid@
}

/// Every climber of `live` from position `from` on is watched, on the floor
/// of their height in `live`.
pub open spec fn on_listed_floors(mems: Map<Seq<char>, Watched>, live: Seq<PlayerDeets>, from: int) -> bool {
    forall|k: int|
        from <= k < live.len() ==> mems.contains_key(#[trigger] live[k].wsid@) && mems[live[k].wsid@].1.floor
            == floor_of(live[k].live_height)
}

proof fn lemma_round_sets_floors(mems: Map<Seq<char>, Watched>, live: Seq<PlayerDeets>)
    requires
        distinct_live_ids(live),
    ensures
        on_listed_floors(after_sightings(mems, live), live, 0),
    decreases live.len(),
{
    if live.len() > 0 {
        let rest = live.drop_last();
        assert(distinct_live_ids(rest)) by {
            assert forall|i: int, j: int|
                0 <= i < rest.len() && 0 <= j < rest.len() && i != j implies rest[i].wsid@ != rest[j].wsid@ by {
                assert(rest[i] == live[i]);
                assert(rest[j] == live[j]);
            }
        }
        lemma_round_sets_floors(mems, rest);
        let before = after_sightings(mems, rest);
        let last = live.last();
        let cur: Watched = if before.contains_key(last.wsid@) {
            before[last.wsid@]
        } else {
            (last.name@, first_sighting(last.live_height))
        };
        lemma_update_moves_floor(cur.1, last.live_height);
        assert forall|k: int| 0 <= k < live.len() implies after_sightings(mems, live).contains_key(#[trigger] live[k].wsid@)
            && after_sightings(mems, live)[live[k].wsid@].1.floor == floor_of(live[k].live_height) by {
            if k < live.len() - 1 {
                assert(rest[k] == live[k]);
                assert(live[k].wsid@ != last.wsid@);
            }
        }
    }
}

proof fn lemma_second_round_floors(m1: Map<Seq<char>, Watched>, live: Seq<PlayerDeets>, j: int)
    requires
        distinct_live_ids(live),
        on_listed_floors(m1, live, 0),
        0 <= j <= live.len(),
    ensures
        on_listed_floors(after_sightings(m1, live.take(j)), live, j),
    decreases j,
{
    if j == 0 {
        assert(live.take(0) =~= Seq::<PlayerDeets>::empty());
    } else {
        lemma_second_round_floors(m1, live, j - 1);
        assert(live.take(j).drop_last() =~= live.take(j - 1));
        assert(live.take(j).last() == live[j - 1]);
        let before = after_sightings(m1, live.take(j - 1));
        assert forall|k: int| j <= k < live.len() implies after_sightings(m1, live.take(j)).contains_key(#[trigger] live[k].wsid@)
            && after_sightings(m1, live.take(j))[live[k].wsid@].1.floor == floor_of(live[k].live_height) by {
            assert(live[k].wsid@ != live[j - 1].wsid@);
            assert(before.contains_key(live[k].wsid@));
        }
    }
}

/// Sighting the same list again raises no alarm: after a round of
/// sightings of climbers with distinct user ids, a second round over the
/// same list reports no alarm, whatever floor the alarms start from.
pub proof fn lemma_same_list_again_raises_no_alarm(
    mems: Map<Seq<char>, Watched>,
    live: Seq<PlayerDeets>,
    start: i32,
)
    requires
        distinct_live_ids(live),
    ensures
        forall|k: int| 0 <= k < live.len() ==> !reported_alarm(after_sightings(mems, live), live, k, start),
{
    let m1 = after_sightings(mems, live);
    lemma_round_sets_floors(mems, live);
    assert forall|k: int| 0 <= k < live.len() implies !reported_alarm(m1, live, k, start) by {
        lemma_second_round_floors(m1, live, k);
        let before = after_sightings(m1, live.take(k));
        assert(before.contains_key(live[k].wsid@));
        lemma_floor_range(live[k].live_height);
    }
}

/// Among the first `n` sightings of `live`, one of the climber with user id
/// `w` raised an alarm (and so stamped a new alarm time).
pub open spec fn alarmed_within(mems: Map<Seq<char>, Watched>, live: Seq<PlayerDeets>, w: Seq<char>, n: int) -> bool {
    exists|k: int|
        0 <= k < n && #[trigger] live[k].wsid@ == w && sight(after_sightings(mems, live.take(k)), live[k]).1 is Alarm
}

/// Every alarm at or above the start floor is reported, an alarm exactly at
/// the start floor included; an alarm below it, or no alarm, is not.
pub proof fn lemma_alarm_at_or_above_start_is_reported(
    mems: Map<Seq<char>, Watched>,
    live: Seq<PlayerDeets>,
    j: int,
    start: i32,
)
    requires
        0 <= j < live.len(),
    ensures
        forall|f: i32|
            sight(after_sightings(mems, live.take(j)), live[j]).1 == AlarmState::Alarm(f) ==> (
            reported_alarm(mems, live, j, start) <==> f >= start),
        sight(after_sightings(mems, live.take(j)), live[j]).1 == AlarmState::NoAlarm ==> !reported_alarm(
            mems,
            live,
            j,
            start,
        ),
{
}

impl View for PlayerStates {
    type V = Map<Seq<char>, Watched>;

    closed spec fn view(&self) -> Map<Seq<char>, Watched> {
        states_map(self.states@)
    }
}

proof fn lemma_update_at(s: Seq<PlayerState>, i: int, x: PlayerState)
    requires
        distinct_ids(s),
        0 <= i < s.len(),
        x.wsid@ == s[i].wsid@,
    ensures
        distinct_ids(s.update(i, x)),
        states_map(s.update(i, x)) == states_map(s).insert(x.wsid@, (x.name@, x.memory())),
        index_of(s.update(i, x), x.wsid@) == i,
        forall|w: Seq<char>|
            #[trigger] has_id(s, w) && w != x.wsid@ ==> has_id(s.update(i, x), w) && index_of(s.update(i, x), w)
                == index_of(s, w) && index_of(s, w) != i,
{
    let t = s.update(i, x);
    assert(has_id(s, x.wsid@));
    assert forall|w: Seq<char>| has_id(t, w) <==> has_id(s, w) by {
        if has_id(s, w) {
            let k = choose|k: int| 0 <= k < s.len() && s[k].wsid@ == w;
            assert(t[k].wsid@ == w);
        }
        if has_id(t, w) {
            let k = choose|k: int| 0 <= k < t.len() && t[k].wsid@ == w;
            assert(s[k].wsid@ == w);
        }
    }
    assert forall|w: Seq<char>| #[trigger] has_id(t, w) && w != x.wsid@ implies index_of(t, w) == index_of(s, w) by {
        let a = index_of(t, w);
        let b = index_of(s, w);
        assert(t[a].wsid@ == w);
        assert(s[b].wsid@ == w);
        assert(a != i);
        assert(b != i);
        assert(s[a].wsid@ == w);
    }
    assert(index_of(t, x.wsid@) == i) by {
        assert(t[i].wsid@ == x.wsid@);
    }
    assert(states_map(t) =~= states_map(s).insert(x.wsid@, (x.name@, x.memory())));
}

proof fn lemma_push_new(s: Seq<PlayerState>, x: PlayerState)
    requires
        distinct_ids(s),
        !has_id(s, x.wsid@),
    ensures
        distinct_ids(s.push(x)),
        states_map(s.push(x)) == states_map(s).insert(x.wsid@, (x.name@, x.memory())),
        index_of(s.push(x), x.wsid@) == s.len(),
        forall|w: Seq<char>|
            #[trigger] has_id(s, w) && w != x.wsid@ ==> has_id(s.push(x), w) && index_of(s.push(x), w)
                == index_of(s, w) && index_of(s, w) < s.len(),
{
    let t = s.push(x);
    assert forall|w: Seq<char>| has_id(t, w) <==> (has_id(s, w) || w == x.wsid@) by {
        if has_id(s, w) {
            let k = choose|k: int| 0 <= k < s.len() && s[k].wsid@ == w;
            assert(t[k].wsid@ == w);
        }
        if w == x.wsid@ {
            assert(t[s.len() as int].wsid@ == w);
        }
        if has_id(t, w) && w != x.wsid@ {
            let k = choose|k: int| 0 <= k < t.len() && t[k].wsid@ == w;
            assert(k != s.len());
            assert(s[k].wsid@ == w);
        }
    }
    assert forall|w: Seq<char>| #[trigger] has_id(t, w) && w != x.wsid@ implies index_of(t, w) == index_of(s, w) by {
        let a = index_of(t, w);
        let b = index_of(s, w);
        assert(t[a].wsid@ == w);
        assert(s[b].wsid@ == w);
        assert(a != s.len());
        assert(t[b].wsid@ == w);
    }
    assert(index_of(t, x.wsid@) == s.len()) by {
        assert(t[s.len() as int].wsid@ == x.wsid@);
    }
    assert(states_map(t) =~= states_map(s).insert(x.wsid@, (x.name@, x.memory())));
}

impl PlayerStates {
    /// The states are one per user id, with floors the library computed.
    pub closed spec fn wf(&self) -> bool {
        &&& distinct_ids(self.states@)
        &&& forall|i: int|
            0 <= i < self.states@.len() ==> floors_in_range(#[trigger] self.states@[i].memory())
    }

    /// The time of the last alarm stored for the climber with user id `w`.
    pub closed spec fn alarm_time_of(&self, w: Seq<char>) -> Option<SystemTime> {
        self.states@[index_of(self.states@, w)].last_alarm_time
    }

    /// No climber is watched yet.
    pub fn new() -> (states: Self)
        ensures
            states.wf(),
            states@ == Map::<Seq<char>, Watched>::empty(),
    {
        let states = PlayerStates { states: Vec::new() };
        assert(states@ =~= Map::<Seq<char>, Watched>::empty());
        states
    }

    /// How many climbers are watched.
    pub fn len(&self) -> (n: usize)
        requires
            self.wf(),
        ensures
            n == self@.len(),
    {
        proof {
            self.lemma_len();
        }
        self.states.len()
    }

    proof fn lemma_len(&self)
        requires
            self.wf(),
        ensures
            self@.dom().finite(),
            self@.len() == self.states@.len(),
        decreases self.states@.len(),
    {
        let s = self.states@;
        let ids = Seq::new(s.len(), |i: int| s[i].wsid@);
        assert(self@.dom() =~= ids.to_set()) by {
            assert forall|w: Seq<char>| self@.dom().contains(w) <==> ids.to_set().contains(w) by {
                if has_id(s, w) {
                    let k = choose|k: int| 0 <= k < s.len() && s[k].wsid@ == w;
                    assert(ids[k] == w);
                }
                if ids.to_set().contains(w) {
                    let k = choose|k: int| 0 <= k < ids.len() && ids[k] == w;
                    assert(s[k].wsid@ == w);
                }
            }
        }
        assert(ids.no_duplicates());
        ids.unique_seq_to_set();
    }

    /// The state of the climber with user id `wsid`.
    pub fn get(&self, wsid: &String) -> (state: Option<&PlayerState>)
        requires
            self.wf(),
        ensures
            state is None <==> !self@.contains_key(wsid@),
            state matches Some(s) ==> s.wsid@ == wsid@ && self@[wsid@] == (s.name@, s.memory())
                && s.last_alarm_time == self.alarm_time_of(wsid@),
    {
        match self.position(wsid) {
            Some(i) => Some(&self.states[i]),
            None => None,
        }
    }

    fn position(&self, wsid: &String) -> (pos: Option<usize>)
        requires
            self.wf(),
        ensures
            pos is None <==> !has_id(self.states@, wsid@),
            pos matches Some(i) ==> i < self.states@.len() && self.states@[i as int].wsid@ == wsid@
                && index_of(self.states@, wsid@) == i,
    {
        let mut i: usize = 0;
        while i < self.states.len()
            invariant
                self.wf(),
                0 <= i <= self.states@.len(),
                forall|k: int| 0 <= k < i ==> self.states@[k].wsid@ != wsid@,
            decreases self.states@.len() - i,
        {
            if self.states[i].wsid == *wsid {
                proof {
                    assert(has_id(self.states@, wsid@));
                    let k = index_of(self.states@, wsid@);
                    assert(self.states@[i as int].wsid@ == wsid@);
                    assert(self.states@[k].wsid@ == wsid@);
                    assert(distinct_ids(self.states@));
                    if k != i {
                        assert(self.states@[k].wsid@ != self.states@[i as int].wsid@);
                    }
                }
                return Some(i);
            }
            i += 1;
        }
        None
    }

    /// Sights every climber of `live` in order, as the alarm watch does on
    /// each new snapshot: a climber seen for the first time gets a state,
    /// then their state takes their height. Answers the position in `live` of
    /// the last climber whose update raised an alarm at a floor of at least
    /// `floor_alarm_start`.
    pub fn check_alarms(&mut self, live: &Vec<PlayerDeets>, floor_alarm_start: i32) -> (alarm_player: Option<usize>)
        requires
            old(self).wf(),
        ensures
            final(self).wf(),
            final(self)@ == after_sightings(old(self)@, live@),
            alarm_player matches Some(j) ==> j < live@.len() && reported_alarm(old(self)@, live@, j as int, floor_alarm_start)
                && forall|k: int| j < k < live@.len() ==> !reported_alarm(old(self)@, live@, k, floor_alarm_start),
            alarm_player is None ==> forall|k: int| 0 <= k < live@.len() ==> !reported_alarm(old(self)@, live@, k, floor_alarm_start),
            forall|w: Seq<char>|
                #[trigger] old(self)@.contains_key(w) && (forall|k: int| 0 <= k < live@.len() ==> live@[k].wsid@ != w)
                    ==> final(self).alarm_time_of(w) == old(self).alarm_time_of(w),
            forall|w: Seq<char>|
                #[trigger] final(self)@.contains_key(w) && !alarmed_within(old(self)@, live@, w, live@.len() as int)
                    && final(self).alarm_time_of(w) is Some ==> old(self)@.contains_key(w)
                    && final(self).alarm_time_of(w) == old(self).alarm_time_of(w),
    {
        let ghost start = self@;
        let mut alarm_player: Option<usize> = None;
        let mut j: usize = 0;
        while j < live.len()
            invariant
                0 <= j <= live@.len(),
                self.wf(),
                self@ == after_sightings(start, live@.take(j as int)),
                alarm_player matches Some(a) ==> a < j && reported_alarm(start, live@, a as int, floor_alarm_start)
                    && forall|k: int| a < k < j ==> !reported_alarm(start, live@, k, floor_alarm_start),
                alarm_player is None ==> forall|k: int| 0 <= k < j ==> !reported_alarm(start, live@, k, floor_alarm_start),
                start == old(self)@,
                forall|w: Seq<char>|
                    #[trigger] start.contains_key(w) && (forall|k: int| 0 <= k < j ==> live@[k].wsid@ != w)
                        ==> self.alarm_time_of(w) == old(self).alarm_time_of(w),
                forall|w: Seq<char>|
                    #[trigger] self@.contains_key(w) && !alarmed_within(start, live@, w, j as int)
                        && self.alarm_time_of(w) is Some ==> start.contains_key(w)
                        && self.alarm_time_of(w) == old(self).alarm_time_of(w),
            decreases live@.len() - j,
        {
            let pd = &live[j];
            assert(live@.take(j + 1).drop_last() =~= live@.take(j as int));
            assert(live@.take(j + 1).last() == live@[j as int]);
            let ghost before = self@;
            let ghost prev = self.states@;
            let ghost seen = sight(before, live@[j as int]);
            let i = match self.position(&pd.wsid) {
                Some(i) => i,
                None => {
                    let fresh = PlayerState::new(pd);
                    proof {
                        lemma_floor_range(pd.live_height);
                        lemma_push_new(self.states@, fresh);
                    }
                    self.states.push(fresh);
                    self.states.len() - 1
                },
            };
            proof {
                assert(self.states@[i as int].wsid@ == pd.wsid@);
                let m = self.states@[i as int].memory();
                assert(floors_in_range(m));
                assert(self@[pd.wsid@] == (if before.contains_key(pd.wsid@) {
                    before[pd.wsid@]
                } else {
                    (pd.name@, first_sighting(pd.live_height))
                }));
            }
            let ghost mid = self.states@;
            proof {
                assert forall|w: Seq<char>| #[trigger] has_id(prev, w) && w != pd.wsid@ implies has_id(mid, w)
                    && index_of(mid, w) == index_of(prev, w) && mid[index_of(mid, w)] == prev[index_of(prev, w)] by {
                    if mid != prev {
                        lemma_push_new(prev, mid.last());
                        assert(mid == prev.push(mid.last()));
                    }
                }
            }
            let mut state = self.states[i].clone_state();
            let alarm = state.update(pd);
            proof {
                lemma_floor_range(pd.live_height);
                lemma_update_at(self.states@, i as int, state);
            }
            self.states.set(i, state);
            proof {
                lemma_sightings_keep_everyone(start, live@.take(j as int));
                assert forall|w: Seq<char>|
                    #[trigger] start.contains_key(w) && (forall|k: int| 0 <= k < j + 1 ==> live@[k].wsid@ != w)
                        implies self.alarm_time_of(w) == old(self).alarm_time_of(w) by {
                    assert(live@[j as int].wsid@ != w);
                    assert(before.contains_key(w));
                    assert(has_id(prev, w));
                    assert(self.states@ == mid.update(i as int, state));
                }
                assert(self@ == seen.0);
                assert(alarm == seen.1);
            }
            match alarm {
                AlarmState::Alarm(f) => {
                    if f >= floor_alarm_start {
                        alarm_player = Some(j);
                    }
                },
                AlarmState::NoAlarm => {},
            }
            j += 1;
        }
        assert(live@.take(live@.len() as int) =~= live@);
        alarm_player
    }
}

} // verus!
