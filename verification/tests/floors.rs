use dd2_height_alarm::float_bits::f32_bits_below;
use dd2_height_alarm::floors::{floor_label, height_to_floor, DD2_FLOOR_HEIGHTS};

/// The floor lookup as floats do it, for comparison.
fn floor_by_floats(height: f32) -> i32 {
    let mut floor = 0;
    for (i, h) in DD2_FLOOR_HEIGHTS.iter().enumerate() {
        if height < *h as f32 {
            floor = (i as i32) - 1;
            break;
        }
    }
    floor
}

fn floor(h: f32) -> i32 {
    height_to_floor(h.to_bits())
}

#[test]
fn floors_of_plain_heights() {
    assert_eq!(floor(0.0), -1);
    assert_eq!(floor(7.9), -1);
    assert_eq!(floor(8.0), 0);
    assert_eq!(floor(103.99), 0);
    assert_eq!(floor(104.0), 1);
    assert_eq!(floor(500.0), 4);
    assert_eq!(floor(1263.5), 11);
    assert_eq!(floor(1264.0), 12);
    assert_eq!(floor(1792.9), 16);
    assert_eq!(floor(1793.0), 17);
    assert_eq!(floor(1909.99), 17);
}

#[test]
fn floors_at_and_past_the_finish_are_zero() {
    assert_eq!(floor(1910.0), 0);
    assert_eq!(floor(5000.0), 0);
    assert_eq!(floor(f32::INFINITY), 0);
    assert_eq!(floor(f32::NAN), 0);
}

#[test]
fn negative_heights_are_below_floor_gang() {
    assert_eq!(floor(-1.0), -1);
    assert_eq!(floor(-0.0), -1);
    assert_eq!(floor(f32::NEG_INFINITY), -1);
    assert_eq!(floor(f32::MIN_POSITIVE / 2.0), -1);
}

#[test]
fn floor_lookup_agrees_with_float_comparison() {
    let mut bits: u32 = 0;
    loop {
        let h = f32::from_bits(bits);
        assert_eq!(height_to_floor(bits), floor_by_floats(h), "bits {:#x}", bits);
        match bits.checked_add(40_009) {
            Some(b) => bits = b,
            None => break,
        }
    }
    for whole in 0..2000u32 {
        for frac in [0.0f32, 0.25, 0.5, 0.999] {
            let h = whole as f32 + frac;
            assert_eq!(floor(h), floor_by_floats(h), "height {}", h);
        }
    }
}

#[test]
fn below_whole_agrees_with_float_comparison() {
    let thresholds = [0u32, 1, 2, 7, 8, 104, 1910, 65_535, 1 << 23, (1 << 24) - 1, 1 << 24];
    let mut bits: u32 = 0;
    loop {
        let x = f32::from_bits(bits);
        for h in thresholds {
            assert_eq!(f32_bits_below(bits, h), x < h as f32, "bits {:#x} h {}", bits, h);
        }
        match bits.checked_add(99_991) {
            Some(b) => bits = b,
            None => break,
        }
    }
    for h in thresholds {
        for x in [h as f32, (h as f32).next_down_compat(), (h as f32).next_up_compat(), -(h as f32)] {
            assert_eq!(f32_bits_below(x.to_bits(), h), x < h as f32, "x {} h {}", x, h);
        }
    }
}

trait NextCompat {
    fn next_up_compat(self) -> Self;
    fn next_down_compat(self) -> Self;
}

impl NextCompat for f32 {
    fn next_up_compat(self) -> f32 {
        if self >= 0.0 {
            f32::from_bits(self.to_bits() + 1)
        } else {
            f32::from_bits(self.to_bits() - 1)
        }
    }
    fn next_down_compat(self) -> f32 {
        if self > 0.0 {
            f32::from_bits(self.to_bits() - 1)
        } else if self == 0.0 {
            -f32::from_bits(1)
        } else {
            f32::from_bits(self.to_bits() + 1)
        }
    }
}

#[test]
fn floor_labels() {
    assert_eq!(floor_label(0), "FG");
    assert_eq!(floor_label(1), "01");
    assert_eq!(floor_label(9), "09");
    assert_eq!(floor_label(10), "10");
    assert_eq!(floor_label(16), "16");
    assert_eq!(floor_label(17), "End");
    assert_eq!(floor_label(18), "Fin");
    assert_eq!(floor_label(123), "123");
    for i in 1..17usize {
        assert_eq!(floor_label(i), format!("{:02}", i));
    }
}
