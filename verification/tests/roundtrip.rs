use vcd_pins::reader::VcdReader;
use vcd_pins::timescale::Duration;
use vcd_pins::writer::VcdWriterBuilder;

#[test]
fn encoded_trace_reads_back() {
    let mut builder = VcdWriterBuilder::new_with_module("m");
    let mut out_pin = builder.add_push_pull_pin("sig");
    let mut writer = builder.build();
    writer.timestamp(Duration::from_nanos(0)).unwrap();
    out_pin.try_set_low().unwrap();
    writer.sample();
    writer.timestamp(Duration::from_nanos(10)).unwrap();
    out_pin.try_set_high().unwrap();
    writer.sample();
    writer.timestamp(Duration::from_nanos(20)).unwrap();
    let bytes = writer.into_bytes();

    let mut reader = VcdReader::new(&bytes).unwrap();
    let in_pin = reader.get_pin(&["m", "sig"]).unwrap();
    // a timestamp describes the instant before the changes the next
    // advance applies, so the states trail the markers by one step
    assert_eq!(reader.next().unwrap().to_nanos(), Ok(0));
    assert_eq!(in_pin.try_is_high(), Ok(false));
    assert_eq!(in_pin.try_is_low(), Ok(false));
    assert_eq!(reader.next().unwrap().to_nanos(), Ok(10));
    assert_eq!(in_pin.try_is_low(), Ok(true));
    assert_eq!(reader.next().unwrap().to_nanos(), Ok(20));
    assert_eq!(in_pin.try_is_high(), Ok(true));
    assert_eq!(reader.next(), None);
    assert_eq!(in_pin.try_is_high(), Ok(true));
}
