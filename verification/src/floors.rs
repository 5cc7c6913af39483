//! The tower's floors: the heights at which each floor starts, the floor a
//! height belongs to, and the labels drawn beside the floor ticks.
use crate::float_bits::{f32_below_whole, f32_bits_below};
use vstd::prelude::*;

verus! {

/// The number of entries in the floor table.
pub const DD2_FLOOR_COUNT: usize = 19;

/// The height, in whole metres, at which each entry of the tower starts:
/// floor gang, floors 1 to 16, the end floor (17) and the finish.
pub const DD2_FLOOR_HEIGHTS: [u32; 19] = [
    8,
    104,
    208,
    312,
    416,
    520,
    624,
    728,
    832,
    936,
    1040,
    1144,
    1264,
    1376,
    1480,
    1584,
    1688,
    1793,
    1910,
];

/// The floor table as a sequence of whole metres.
pub open spec fn floor_heights() -> Seq<u32> {
    DD2_FLOOR_HEIGHTS@
}

/// Scanning the table from entry `i` on: the entry before the first one the
/// height lies below, or 0 when it lies below none of them.
pub open spec fn floor_from(height_bits: u32, i: nat) -> int
    decreases 19 - i,
{
    if i >= 19 {
        0
    } else if f32_below_whole(height_bits, floor_heights()[i as int] as nat) {
        i - 1
    } else {
        floor_from(height_bits, i + 1)
    }
}

/// The floor of a height given by its `f32` bit pattern: one less than the
/// index of the first table entry the height lies below (so -1 below floor
/// gang), and 0 when it lies below no entry (at or above the finish, or NaN).
pub open spec fn floor_of(height_bits: u32) -> int {
    floor_from(height_bits, 0)
}

proof fn lemma_floor_from_range(height_bits: u32, i: nat)
    ensures
        -1 <= floor_from(height_bits, i) <= 17,
        i > 0 ==> 0 <= floor_from(height_bits, i),
    decreases 19 - i,
{
    if i < 19 {
        lemma_floor_from_range(height_bits, i + 1);
    }
}

/// Every height lies on a floor from -1 (below floor gang) to 17 (the end floor).
pub proof fn lemma_floor_range(height_bits: u32)
    ensures
        -1 <= floor_of(height_bits) <= 17,
{
    lemma_floor_from_range(height_bits, 0);
}

/// Which floor the height with bit pattern `height_bits` (`f32::to_bits`) is on.
pub fn height_to_floor(height_bits: u32) -> (floor: i32)
    ensures
        floor == floor_of(height_bits),
        -1 <= floor <= 17,
{
    proof {
        lemma_floor_range(height_bits);
    }
    let mut i: usize = 0;
    while i < DD2_FLOOR_COUNT
        invariant
            0 <= i <= 19,
            floor_of(height_bits) == floor_from(height_bits, i as nat),
        decreases 19 - i,
    {
        if f32_bits_below(height_bits, DD2_FLOOR_HEIGHTS[i]) {
            return i as i32 - 1;
        }
        i += 1;
    }
    0
}

/// A height lies below entry `k` of the table, and below every later one.
pub open spec fn below_entry(height_bits: u32, k: int) -> bool {
    f32_below_whole(height_bits, floor_heights()[k] as nat)
}

proof fn lemma_floor_from_monotone(low: u32, high: u32, i: nat)
    requires
        i <= 19,
        forall|k: int| i <= k < 19 && below_entry(high, k) ==> below_entry(low, k),
        below_entry(high, 18),
    ensures
        floor_from(low, i) <= floor_from(high, i),
    decreases 19 - i,
{
    if i < 19 {
        lemma_floor_from_monotone(low, high, i + 1);
        lemma_floor_from_range(low, i + 1);
        lemma_floor_from_range(high, i + 1);
        if !below_entry(high, i as int) && below_entry(low, i as int) {
            lemma_floor_from_at_least(high, i + 1);
        }
    }
}

proof fn lemma_floor_from_at_least(height_bits: u32, i: nat)
    requires
        i <= 18,
        below_entry(height_bits, 18),
    ensures
        floor_from(height_bits, i) >= i as int - 1,
    decreases 19 - i,
{
    if i < 18 {
        lemma_floor_from_at_least(height_bits, i + 1);
    }
}

/// Raising a height never lowers its floor, as long as the raised height is
/// still below the finish: whenever every table entry that `high` lies below
/// is also one that `low` lies below (so `low` is not above `high`), the
/// floor of `low` is at most that of `high`.
pub proof fn lemma_floor_monotone(low: u32, high: u32)
    requires
        forall|k: int| 0 <= k < 19 && below_entry(high, k) ==> below_entry(low, k),
        below_entry(high, 18),
    ensures
        floor_of(low) <= floor_of(high),
{
    lemma_floor_from_monotone(low, high, 0);
}

/// The decimal digits of `n`, most significant first.
pub open spec fn decimal(n: nat) -> Seq<char>
    decreases n,
{
    if n < 10 {
        seq![digit_char(n)]
    } else {
        decimal(n / 10).push(digit_char(n % 10))
    }
}

/// The character of the decimal digit `d`.
pub open spec fn digit_char(d: nat) -> char {
    (48 + d) as char
}

/// `n` in decimal, padded with a leading zero to at least two digits
/// (what `format!("{:02}", n)` gives).
pub open spec fn two_digits(n: nat) -> Seq<char> {
    if n < 10 {
        seq!['0'] + decimal(n)
    } else {
        decimal(n)
    }
}

/// The label drawn beside entry `i` of the floor table.
pub open spec fn floor_label_of(i: nat) -> Seq<char> {
    if i == 0 {
        "FG"@
    } else if i == 17 {
        "End"@
    } else if i == 18 {
        "Fin"@
    } else {
        two_digits(i)
    }
}

fn digit_str(d: usize) -> (s: &'static str)
    requires
        d < 10,
    ensures
        s@ == seq![digit_char(d as nat)],
{
    match d {
        0 => {
            proof {
                reveal_strlit("0");
            }
            "0"
        },
        1 => {
            proof {
                reveal_strlit("1");
            }
            "1"
        },
        2 => {
            proof {
                reveal_strlit("2");
            }
            "2"
        },
        3 => {
            proof {
                reveal_strlit("3");
            }
            "3"
        },
        4 => {
            proof {
                reveal_strlit("4");
            }
            "4"
        },
        5 => {
            proof {
                reveal_strlit("5");
            }
            "5"
        },
        6 => {
            proof {
                reveal_strlit("6");
            }
            "6"
        },
        7 => {
            proof {
                reveal_strlit("7");
            }
            "7"
        },
        8 => {
            proof {
                reveal_strlit("8");
            }
            "8"
        },
        _ => {
            proof {
                reveal_strlit("9");
            }
            "9"
        },
    }
}

fn push_decimal(s: &mut String, n: usize)
    ensures
        final(s)@ == old(s)@ + decimal(n as nat),
    decreases n,
{
    if n >= 10 {
        push_decimal(s, n / 10);
    }
    let d = digit_str(n % 10);
    s.append(d);
    proof {
        assert(old(s)@ + decimal(n as nat) =~= s@);
    }
}

/// The label drawn beside entry `i` of the floor table: "FG" for floor gang,
/// "End" and "Fin" for the last two entries, and the number with at least
/// two digits for the others.
pub fn floor_label(i: usize) -> (label: String)
    ensures
        label@ == floor_label_of(i as nat),
{
    if i == 0 {
        String::from_str("FG")
    } else if i == 17 {
        String::from_str("End")
    } else if i == 18 {
        String::from_str("Fin")
    } else {
        let mut s = if i < 10 {
            String::from_str("0")
        } else {
            String::new()
        };
        proof {
            reveal_strlit("0");
        }
        push_decimal(&mut s, i);
        assert(s@ =~= two_digits(i as nat));
        s
    }
}

} // verus!
