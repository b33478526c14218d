use vcd_pins::timescale::Duration;
use vcd_pins::writer::VcdWriterBuilder;
use vcd_pins::VcdError;

#[test]
fn write_simple() {
    let vcd = "$timescale 1 ns $end
$scope module logic $end
$var wire 1 ! test $end
$upscope $end
$enddefinitions $end
#0
0!
#100
1!
#200
1!
#300
0!
#400
#500
"
    .to_string();
    let mut builder = VcdWriterBuilder::new_with_module("logic");
    let mut out_pin = builder.add_push_pull_pin("test");
    let mut writer = builder.build();
    writer.timestamp(Duration::from_nanos(0)).unwrap();
    out_pin.try_set_low().unwrap();
    writer.sample();
    writer.timestamp(Duration::from_nanos(100)).unwrap();
    out_pin.try_set_high().unwrap();
    writer.sample();
    writer.timestamp(Duration::from_nanos(200)).unwrap();
    writer.sample();
    writer.timestamp(Duration::from_nanos(300)).unwrap();
    out_pin.try_set_low().unwrap();
    writer.sample();
    writer.timestamp(Duration::from_nanos(400)).unwrap();
    writer.timestamp(Duration::from_nanos(500)).unwrap();

    let writer_vcd = String::from_utf8(writer.into_bytes()).unwrap();
    assert_eq!(writer_vcd, vcd);
}

#[test]
fn default_module_is_top() {
    let builder = VcdWriterBuilder::new();
    let writer = builder.build();
    let out = String::from_utf8(writer.into_bytes()).unwrap();
    assert_eq!(
        out,
        "$timescale 1 ns $end\n$scope module top $end\n$upscope $end\n$enddefinitions $end\n"
    );
}

#[test]
fn open_drain_pin_records_low_and_floating() {
    let mut builder = VcdWriterBuilder::new_with_module("logic");
    let mut pin = builder.add_open_drain_pin("drain");
    let mut writer = builder.build();
    // the cell starts floating, recorded as Z
    writer.timestamp(Duration::from_nanos(0)).unwrap();
    writer.sample();
    // driven high: pulled to ground, recorded as 0
    pin.try_set_high().unwrap();
    writer.timestamp(Duration::from_nanos(1)).unwrap();
    writer.sample();
    // driven low: released, recorded as Z again
    pin.try_set_low().unwrap();
    writer.timestamp(Duration::from_nanos(2)).unwrap();
    writer.sample();
    let out = String::from_utf8(writer.into_bytes()).unwrap();
    assert_eq!(
        out,
        "$timescale 1 ns $end\n$scope module logic $end\n$var wire 1 ! drain $end\n\
$upscope $end\n$enddefinitions $end\n#0\nZ!\n#1\n0!\n#2\nZ!\n"
    );
}

#[test]
fn nested_modules_and_identifier_codes() {
    let mut builder = VcdWriterBuilder::new_with_module("outer");
    let _a = builder.add_push_pull_pin("a");
    builder.add_module("inner");
    let _b = builder.add_push_pull_pin("b");
    let mut writer = builder.build();
    writer.timestamp(Duration::from_nanos(0)).unwrap();
    writer.sample();
    let out = String::from_utf8(writer.into_bytes()).unwrap();
    assert_eq!(
        out,
        "$timescale 1 ns $end\n$scope module outer $end\n$var wire 1 ! a $end\n\
$scope module inner $end\n$var wire 1 \" b $end\n$upscope $end\n$enddefinitions $end\n\
#0\n0!\n0\"\n"
    );
}

#[test]
fn identifier_codes_go_multi_character() {
    let mut builder = VcdWriterBuilder::new_with_module("wide");
    for i in 0..95 {
        let name = format!("p{}", i);
        let _ = builder.add_push_pull_pin(&name);
    }
    let writer = builder.build();
    let out = String::from_utf8(writer.into_bytes()).unwrap();
    // code 93 is the last single character, ~; code 94 wraps to !!
    assert!(out.contains("$var wire 1 ~ p93 $end\n"));
    assert!(out.contains("$var wire 1 !! p94 $end\n"));
}

#[test]
fn inexact_timestamp_is_rejected() {
    let mut builder = VcdWriterBuilder::new_with_module("logic");
    let _pin = builder.add_push_pull_pin("test");
    let mut writer = builder.build();
    // a third of a second is not a whole number of nanoseconds
    let r = writer.timestamp(Duration { count: 1, divisor: 3 });
    assert_eq!(r, Err(VcdError::TimestampConversion));
    // one picosecond is not a whole nanosecond either
    let r = writer.timestamp(Duration { count: 1, divisor: 1_000_000_000_000 });
    assert_eq!(r, Err(VcdError::TimestampConversion));
    // a zero divisor can never convert
    let r = writer.timestamp(Duration { count: 1, divisor: 0 });
    assert_eq!(r, Err(VcdError::TimestampConversion));
    // the writer stays usable afterward
    writer.timestamp(Duration { count: 2_000, divisor: 1_000_000_000_000 }).unwrap();
    writer.sample();
    let out = String::from_utf8(writer.into_bytes()).unwrap();
    assert!(out.ends_with("$enddefinitions $end\n#2\n0!\n"));
}

#[test]
fn duration_conversions() {
    assert_eq!(Duration::from_nanos(7).to_nanos(), Ok(7));
    // one millisecond is a million nanoseconds
    assert_eq!(Duration { count: 1, divisor: 1_000 }.to_nanos(), Ok(1_000_000));
    // a whole second
    assert_eq!(Duration { count: 1, divisor: 1 }.to_nanos(), Ok(1_000_000_000));
    // an amount of seconds too large for a u64 of nanoseconds
    let r = Duration { count: u64::MAX, divisor: 1 }.to_nanos();
    assert_eq!(r, Err(VcdError::TimestampConversion));
}
