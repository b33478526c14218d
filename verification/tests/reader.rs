use vcd_pins::reader::VcdReader;
use vcd_pins::timescale::Duration;
use vcd_pins::VcdError;

#[test]
fn read_simple() {
    let vcd = "
$timescale 1ns $end
$scope module logic $end
$var wire 1 t test $end
$upscope $end
$enddefinitions $end
#0
0t
#100
1t
#200
1t
#300
0t
#400
#500
"
    .as_bytes();
    let states = vec![
        (0u64, false),
        (100, false),
        (200, true),
        (300, true),
        (400, false),
        (500, false),
    ];
    let mut reader = VcdReader::new(vcd).unwrap();
    let pin = reader.get_pin(&["logic", "test"]).unwrap();
    let mut i = 0;
    while let Some(vcd_time) = reader.next() {
        let (state_time, state_pin) = states[i];
        let vcd_time: u64 = vcd_time.to_nanos().unwrap();
        assert_eq!(vcd_time, state_time);
        assert_eq!(
            pin.try_is_high(),
            Ok(state_pin),
            "testing pin state at timestamp {}",
            vcd_time
        );
        i += 1;
    }
    assert_eq!(i, states.len());
}

#[test]
fn scale_one_nanosecond() {
    let vcd = "$timescale 1 ns $end\n$enddefinitions $end\n#500\n".as_bytes();
    let mut reader = VcdReader::new(vcd).unwrap();
    assert_eq!(reader.scale(), Duration { count: 1, divisor: 1_000_000_000 });
    let t = reader.next().unwrap();
    assert_eq!(t, Duration { count: 500, divisor: 1_000_000_000 });
    assert_eq!(t.to_nanos(), Ok(500));
    assert_eq!(reader.next(), None);
}

#[test]
fn scale_scales_ticks() {
    // 10 us per tick: tick 7 lies 70 us = 70_000 ns in.
    let vcd = "$timescale 10us $end\n$enddefinitions $end\n#7\n".as_bytes();
    let mut reader = VcdReader::new(vcd).unwrap();
    assert_eq!(reader.scale(), Duration { count: 10, divisor: 1_000_000 });
    let t = reader.next().unwrap();
    assert_eq!(t, Duration { count: 70, divisor: 1_000_000 });
    assert_eq!(t.to_nanos(), Ok(70_000));
}

#[test]
fn get_pin_miss_is_not_an_error() {
    let vcd = "
$timescale 1ns $end
$scope module logic $end
$var wire 1 t test $end
$upscope $end
$enddefinitions $end
#0
"
    .as_bytes();
    let mut reader = VcdReader::new(vcd).unwrap();
    assert!(reader.get_pin(&["logic", "nope"]).is_none());
    assert!(reader.get_pin(&["test"]).is_none());
    assert!(reader.get_pin(&["logic", "test", "extra"]).is_none());
    assert!(reader.get_pin(&[]).is_none());
    // the declared variable is still there
    assert!(reader.get_pin(&["logic", "test"]).is_some());
}

#[test]
fn unregistered_identifier_is_ignored() {
    let vcd = "
$timescale 1ns $end
$scope module logic $end
$var wire 1 a first $end
$var wire 1 b second $end
$upscope $end
$enddefinitions $end
#0
1a
1b
#10
0b
#20
"
    .as_bytes();
    let mut reader = VcdReader::new(vcd).unwrap();
    // only `first` is registered; changes for `b` have no observable effect
    let pin = reader.get_pin(&["logic", "first"]).unwrap();
    let mut stamps = Vec::new();
    while let Some(t) = reader.next() {
        stamps.push(t.to_nanos().unwrap());
    }
    assert_eq!(stamps, vec![0, 10, 20]);
    assert_eq!(pin.try_is_high(), Ok(true));
}

#[test]
fn unknown_tokens_are_ignored() {
    let vcd = "
$timescale 1ns $end
$comment anything at all $end
$scope module logic $end
$var wire 1 t test $end
$upscope $end
$enddefinitions $end
$dumpvars
b1010 v
#5
Zt
#6
"
    .as_bytes();
    let mut reader = VcdReader::new(vcd).unwrap();
    let pin = reader.get_pin(&["logic", "test"]).unwrap();
    assert_eq!(reader.next().unwrap().to_nanos(), Ok(5));
    assert_eq!(reader.next().unwrap().to_nanos(), Ok(6));
    // the uppercase Z change was applied: floating answers neither high nor low
    assert_eq!(pin.try_is_high(), Ok(false));
    assert_eq!(pin.try_is_low(), Ok(false));
    assert_eq!(reader.next(), None);
}

#[test]
fn unknown_value_reads_as_floating() {
    let vcd = "
$timescale 1ns $end
$scope module logic $end
$var wire 1 t test $end
$upscope $end
$enddefinitions $end
#0
1t
#1
xt
#2
"
    .as_bytes();
    let mut reader = VcdReader::new(vcd).unwrap();
    let pin = reader.get_pin(&["logic", "test"]).unwrap();
    assert_eq!(reader.next().unwrap().to_nanos(), Ok(0));
    assert_eq!(reader.next().unwrap().to_nanos(), Ok(1));
    assert_eq!(pin.try_is_high(), Ok(true));
    assert_eq!(reader.next().unwrap().to_nanos(), Ok(2));
    assert_eq!(pin.try_is_high(), Ok(false));
    assert_eq!(pin.try_is_low(), Ok(false));
    assert_eq!(reader.next(), None);
}

#[test]
fn missing_timescale_is_fatal() {
    let vcd = "
$scope module logic $end
$var wire 1 t test $end
$upscope $end
$enddefinitions $end
"
    .as_bytes();
    assert_eq!(VcdReader::new(vcd).err(), Some(VcdError::MissingTimescale));
}

#[test]
fn malformed_header_is_fatal() {
    // a $scope directive missing its $end
    let vcd = "$timescale 1ns $end\n$scope module logic\n$enddefinitions $end\n".as_bytes();
    assert_eq!(VcdReader::new(vcd).err(), Some(VcdError::HeaderParse));
    // an unknown directive inside the header
    let vcd = "$timescale 1ns $end\n$bogus $end\n$enddefinitions $end\n".as_bytes();
    assert_eq!(VcdReader::new(vcd).err(), Some(VcdError::HeaderParse));
    // a header that never ends
    let vcd = "$timescale 1ns $end\n".as_bytes();
    assert_eq!(VcdReader::new(vcd).err(), Some(VcdError::HeaderParse));
    // a timescale without a unit
    let vcd = "$timescale 1 $end\n$enddefinitions $end\n".as_bytes();
    assert_eq!(VcdReader::new(vcd).err(), Some(VcdError::HeaderParse));
}

#[test]
fn rebinding_a_path_feeds_the_newest_pin() {
    let vcd = "
$timescale 1ns $end
$scope module logic $end
$var wire 1 t test $end
$upscope $end
$enddefinitions $end
#0
1t
#10
"
    .as_bytes();
    let mut reader = VcdReader::new(vcd).unwrap();
    let first = reader.get_pin(&["logic", "test"]).unwrap();
    let second = reader.get_pin(&["logic", "test"]).unwrap();
    assert_eq!(reader.next().unwrap().to_nanos(), Ok(0));
    assert_eq!(reader.next().unwrap().to_nanos(), Ok(10));
    // the change feeds the binding made last; the earlier pin's cell is
    // orphaned and stays floating
    assert_eq!(second.try_is_high(), Ok(true));
    assert_eq!(first.try_is_high(), Ok(false));
    assert_eq!(first.try_is_low(), Ok(false));
}

#[test]
fn late_registration_misses_earlier_changes() {
    let vcd = "
$timescale 1ns $end
$scope module logic $end
$var wire 1 t test $end
$upscope $end
$enddefinitions $end
#0
1t
#10
#20
"
    .as_bytes();
    let mut reader = VcdReader::new(vcd).unwrap();
    assert_eq!(reader.next().unwrap().to_nanos(), Ok(0));
    assert_eq!(reader.next().unwrap().to_nanos(), Ok(10));
    // the change at the start of the body was applied before this binding
    let pin = reader.get_pin(&["logic", "test"]).unwrap();
    assert_eq!(pin.try_is_high(), Ok(false));
    assert_eq!(pin.try_is_low(), Ok(false));
    assert_eq!(reader.next().unwrap().to_nanos(), Ok(20));
    assert_eq!(reader.next(), None);
}
