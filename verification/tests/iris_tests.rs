use iris_lib::color::Color;
use iris_lib::cue::RampRatio;
use iris_lib::iris::{from_hex, to_hex, AccessError, Iris};

#[test]
fn to_hex_known_values() {
    assert_eq!(to_hex(Color::new(0, 0, 0)), "#000000");
    assert_eq!(to_hex(Color::new(127, 20, 255)), "#7f14ff");
    assert_eq!(to_hex(Color::new(255, 100, 38)), "#ff6426");
}

#[test]
fn from_hex_known_values() {
    assert_eq!(from_hex("#000000".to_string()), Some(Color::new(0, 0, 0)));
    assert_eq!(from_hex("#7f14ff".to_string()), Some(Color::new(127, 20, 255)));
    assert_eq!(from_hex("#ff6426".to_string()), Some(Color::new(255, 100, 38)));
    // Uppercase digits are acceptable on input.
    assert_eq!(from_hex("#FF6426".to_string()), Some(Color::new(255, 100, 38)));
}

#[test]
fn from_hex_rejects_malformed_strings() {
    assert_eq!(from_hex(String::new()), None);
    assert_eq!(from_hex("#".to_string()), None);
    assert_eq!(from_hex("#00000".to_string()), None);
    assert_eq!(from_hex("#0000000".to_string()), None);
    assert_eq!(from_hex("000000".to_string()), None);
    assert_eq!(from_hex("0000000".to_string()), None);
    assert_eq!(from_hex("#00000g".to_string()), None);
    assert_eq!(from_hex("#gggggg".to_string()), None);
}

#[test]
fn hex_round_trip_samples() {
    let samples = [
        Color::new(0, 0, 0),
        Color::new(255, 255, 255),
        Color::new(127, 20, 255),
        Color::new(1, 2, 3),
        Color::new(16, 160, 240),
    ];
    for c in samples {
        assert_eq!(from_hex(to_hex(c)), Some(c));
    }
    // Exhaustively over one channel.
    for r in 0..=255u8 {
        let c = Color::new(r, 255 - r, r ^ 0x55);
        assert_eq!(from_hex(to_hex(c)), Some(c));
    }
}

#[test]
fn reads_fall_back_to_defaults_without_active_cue() {
    let iris = Iris::new();
    assert_eq!(iris.num_cues(), 0);
    assert_eq!(iris.current_cue_id(), None);
    for num in 0..12usize {
        assert!(iris.channel(num));
    }
    assert!(!iris.reverse());
    assert_eq!(iris.time_divisor(), 12);
    assert_eq!(iris.duration_ms(), 1000);
    assert_eq!(iris.ramp_ratio(), RampRatio::from_bits(128));
    assert_eq!(iris.start_color(), "#000000");
    assert_eq!(iris.end_color(), "#000000");
    // The off color comes back in the same canonical form every other
    // color does, so it parses back through from_hex.
    assert_eq!(iris.current_color(0, 0), "#000000");
    assert_eq!(from_hex(iris.current_color(0, 0)), Some(Color::new(0, 0, 0)));
    assert_eq!(iris.num_channels(), 12);
}

#[test]
fn writes_fail_without_active_cue() {
    let mut iris = Iris::new();
    assert_eq!(iris.set_channel(3, false), Err(AccessError::NoActiveCue));
    assert_eq!(iris.set_reverse(true), Err(AccessError::NoActiveCue));
    assert_eq!(iris.set_time_divisor(6), Err(AccessError::NoActiveCue));
    assert_eq!(iris.set_duration_ms(2000), Err(AccessError::NoActiveCue));
    assert_eq!(iris.set_ramp_ratio(RampRatio::from_bits(10)), Err(AccessError::NoActiveCue));
    assert_eq!(iris.set_start_color("#7f14ff".to_string()), Err(AccessError::NoActiveCue));
    assert_eq!(iris.set_end_color("#7f14ff".to_string()), Err(AccessError::NoActiveCue));
    // Even a cue in the collection changes nothing while none is active.
    iris.add_cue();
    assert_eq!(iris.set_reverse(true), Err(AccessError::NoActiveCue));
    assert!(!iris.reverse());
}

#[test]
fn accessors_edit_the_active_cue() {
    let mut iris = Iris::new();
    iris.add_cue();
    iris.launch_cue(0);
    assert_eq!(iris.current_cue_id(), Some(0));

    // The white breathing preset is what add_cue inserts.
    assert_eq!(iris.duration_ms(), 3600);
    assert_eq!(iris.time_divisor(), 1);
    assert_eq!(iris.ramp_ratio(), RampRatio::from_bits(102));
    assert_eq!(iris.start_color(), "#000000");
    assert_eq!(iris.end_color(), "#ffffff");

    assert_eq!(iris.set_reverse(true), Ok(()));
    assert!(iris.reverse());
    assert_eq!(iris.set_channel(4, false), Ok(()));
    assert!(!iris.channel(4));
    assert!(iris.channel(5));
    assert_eq!(iris.set_time_divisor(6), Ok(()));
    assert_eq!(iris.time_divisor(), 6);
    assert_eq!(iris.set_duration_ms(1200), Ok(()));
    assert_eq!(iris.duration_ms(), 1200);
    assert_eq!(iris.set_ramp_ratio(RampRatio::from_bits(200)), Ok(()));
    assert_eq!(iris.ramp_ratio(), RampRatio::from_bits(200));
    assert_eq!(iris.set_start_color("#7f14ff".to_string()), Ok(()));
    assert_eq!(iris.start_color(), "#7f14ff");
    assert_eq!(iris.set_end_color("#FF6426".to_string()), Ok(()));
    // The stored color reads back in canonical lowercase.
    assert_eq!(iris.end_color(), "#ff6426");
}

#[test]
fn zero_timing_values_are_refused() {
    let mut iris = Iris::new();
    iris.add_cue();
    iris.launch_cue(0);
    assert_eq!(iris.set_time_divisor(0), Err(AccessError::ZeroValue));
    assert_eq!(iris.time_divisor(), 1);
    assert_eq!(iris.set_duration_ms(0), Err(AccessError::ZeroValue));
    assert_eq!(iris.duration_ms(), 3600);
}

#[test]
fn malformed_color_strings_are_refused() {
    let mut iris = Iris::new();
    iris.add_cue();
    iris.launch_cue(0);
    assert_eq!(iris.set_start_color("red".to_string()), Err(AccessError::InvalidColor));
    assert_eq!(iris.set_end_color("#12345".to_string()), Err(AccessError::InvalidColor));
    assert_eq!(iris.start_color(), "#000000");
    assert_eq!(iris.end_color(), "#ffffff");
}

#[test]
fn delete_cue_tracks_the_active_index() {
    let mut iris = Iris::new();
    iris.add_cue();
    iris.add_cue();
    iris.add_cue();
    assert_eq!(iris.num_cues(), 3);

    iris.launch_cue(2);
    iris.delete_cue(0);
    // The active cue moved down by one.
    assert_eq!(iris.num_cues(), 2);
    assert_eq!(iris.current_cue_id(), Some(1));

    iris.delete_cue(1);
    // The active cue itself is gone.
    assert_eq!(iris.num_cues(), 1);
    assert_eq!(iris.current_cue_id(), None);
}

#[test]
fn current_color_through_the_collection() {
    let mut iris = Iris::new();
    iris.add_cue();
    iris.launch_cue(0);
    // The white breathing preset starts black on the unshifted channel...
    assert_eq!(iris.current_color(0, 11), "#000000");
    // ...and reaches 212/256 of white halfway through the cycle.
    assert_eq!(iris.current_color(1800, 11), "#d4d4d4");
}
