use clap_clap::events::{Event, EventBuilder, Header, Midi, Midi2, ParamValue, Transport};
use clap_clap::ext::params::{
    clear_text_buffer, fill_clap_param_info, value_text_request, ParamInfoRecord, ValueTextRequest,
};
use clap_clap::fixedpoint::{BeatTime, SecTime};
use clap_clap::timestamp::TimeStamp;
use clap_clap::ext::{plugin_extension, PluginExtension};
use clap_clap::plugin::{Activation, PluginDescriptor};
use clap_clap::plugin_features::{AUDIO_EFFECT, INSTRUMENT, STEREO};
use clap_clap::stream::{after_read, start, ReadStep};

/// Fills a buffer of `len` bytes from reads that hand out the given counts.
fn fill(len: usize, reads: &[i64]) -> (ReadStep, usize) {
    let mut step = start(len);
    let mut calls = 0;
    while let ReadStep::Read { offset } = step {
        let r = reads[calls];
        calls += 1;
        step = after_read(offset, len, r);
    }
    (step, calls)
}

#[test]
fn stream_first_step() {
    assert_eq!(start(0), ReadStep::Filled(0));
    assert_eq!(start(5), ReadStep::Read { offset: 0 });
}

#[test]
fn stream_step_after_a_read() {
    assert_eq!(after_read(0, 5, -1), ReadStep::IoError);
    assert_eq!(after_read(2, 5, 0), ReadStep::Eof(2));
    assert_eq!(after_read(0, 5, 3), ReadStep::Read { offset: 3 });
    assert_eq!(after_read(3, 5, 2), ReadStep::Filled(5));
    assert_eq!(after_read(3, 5, 100), ReadStep::Filled(5));
    assert_eq!(after_read(4, 5, i64::MAX), ReadStep::Filled(5));
}

#[test]
fn stream_fills_in_chunks() {
    assert_eq!(fill(10, &[3, 3, 3, 1]), (ReadStep::Filled(10), 4));
    assert_eq!(fill(10, &[10]), (ReadStep::Filled(10), 1));
    assert_eq!(fill(10, &[4, 0]), (ReadStep::Eof(4), 2));
    assert_eq!(fill(10, &[4, -1]), (ReadStep::IoError, 2));
    assert_eq!(fill(0, &[]), (ReadStep::Filled(0), 0));
}

#[test]
fn activation_lifecycle() {
    let mut a: Activation<u32> = Activation::new();
    assert!(!a.is_active());
    assert!(a.audio_thread().is_none());

    assert_eq!(a.activate(Some(1)), (true, None));
    assert!(a.is_active());
    assert_eq!(a.audio_thread().copied(), Some(1));

    *a.audio_thread().unwrap() = 7;
    assert_eq!(a.audio_thread().copied(), Some(7));

    assert_eq!(a.deactivate(), Some(7));
    assert!(!a.is_active());
    assert!(a.audio_thread().is_none());
}

#[test]
fn activation_fails_without_audio_thread() {
    let mut a: Activation<u32> = Activation::new();
    assert_eq!(a.activate(None), (false, None));
    assert!(!a.is_active());
    assert_eq!(a.deactivate(), None);
}

#[test]
fn second_activation_fails_and_replaces_the_thread() {
    let mut a: Activation<u32> = Activation::new();
    assert_eq!(a.activate(Some(1)), (true, None));
    assert_eq!(a.activate(Some(2)), (false, Some(1)));
    assert!(a.is_active());
    assert_eq!(a.audio_thread().copied(), Some(2));
    assert_eq!(a.activate(None), (false, Some(2)));
    assert!(a.is_active());
    assert!(a.audio_thread().is_none());
}

#[test]
fn plugin_extension_ids() {
    assert_eq!(plugin_extension("clap.audio-ports"), Some(PluginExtension::AudioPorts));
    assert_eq!(plugin_extension("clap.note-ports"), Some(PluginExtension::NotePorts));
    assert_eq!(plugin_extension("clap.latency"), Some(PluginExtension::Latency));
    assert_eq!(plugin_extension("clap.params"), Some(PluginExtension::Params));
    assert_eq!(plugin_extension("clap.state"), None);
    assert_eq!(plugin_extension("clap.params/2"), None);
    assert_eq!(plugin_extension(""), None);
}

#[test]
fn header_try_new_checks_the_size() {
    let mut bytes = vec![0u8; 16];
    bytes[0] = 16;
    bytes[4] = 3;
    let h = Header::try_new(bytes.clone()).unwrap();
    assert_eq!(h.size(), 16);
    assert_eq!(h.time(), 3);

    let mut wrong_size = bytes.clone();
    wrong_size[0] = 24;
    assert!(Header::try_new(wrong_size).is_none());

    let mut short = vec![0u8; 8];
    short[0] = 8;
    assert!(Header::try_new(short).is_none());

    let mut longer = vec![0u8; 24];
    longer[0] = 24;
    assert_eq!(Header::try_new(longer).unwrap().size(), 24);
}

#[test]
fn descriptor_fields() {
    let features = vec![INSTRUMENT, STEREO];
    let d = PluginDescriptor::new(
        "com.example.id",
        "Name",
        "Vendor",
        "https://example.com",
        "https://example.com/manual",
        "https://example.com/support",
        "1.0.0",
        "A description",
        &features,
    )
    .unwrap();
    assert_eq!(d.plugin_id(), "com.example.id");
    assert_eq!(d.name(), "Name");
    assert_eq!(d.vendor(), "Vendor");
    assert_eq!(d.url(), "https://example.com");
    assert_eq!(d.manual_url(), "https://example.com/manual");
    assert_eq!(d.support_url(), "https://example.com/support");
    assert_eq!(d.version(), "1.0.0");
    assert_eq!(d.description(), "A description");
    assert_eq!(d.features(), &vec!["instrument".to_string(), "stereo".to_string()]);
}

#[test]
fn standard_features() {
    assert_eq!(INSTRUMENT, "instrument");
    assert_eq!(AUDIO_EFFECT, "audio-effect");
    assert_eq!(STEREO, "stereo");
}

#[test]
fn midi_events_as_c_structures() {
    let b = Midi::build().port_index(3).data([0x90, 60, 100]).time(7);
    let e = b.event();
    let c = e.as_clap_event_midi();
    assert_eq!(c.header.size, 24);
    assert_eq!(c.header.time, 7);
    assert_eq!(c.header.type_, 10);
    assert_eq!(c.port_index, 3);
    assert_eq!(c.data, [0x90, 60, 100]);
    assert_eq!(e.header().time(), 7);

    let b2 = Midi2::build().port_index(1).data([1, 2, 3, 4]);
    let c2 = b2.event().as_clap_event_midi2();
    assert_eq!(c2.header.size, 36);
    assert_eq!(c2.header.type_, 12);
    assert_eq!(c2.port_index, 1);
    assert_eq!(c2.data, [1, 2, 3, 4]);
}

#[test]
fn value_text_requests() {
    assert_eq!(value_text_request(3, 0, false), ValueTextRequest::NoRoom);
    assert_eq!(value_text_request(3, 0, true), ValueTextRequest::NoRoom);
    assert_eq!(value_text_request(3, 8, false), ValueTextRequest::Refused);
    assert_eq!(value_text_request(u32::MAX, 8, true), ValueTextRequest::Refused);
    assert_eq!(
        value_text_request(3, 8, true),
        ValueTextRequest::Write { param_id: clap_clap::id::ClapId::from(3u16), text_len: 7 }
    );
    assert_eq!(
        value_text_request(0, 1, true),
        ValueTextRequest::Write { param_id: clap_clap::id::ClapId::from(0u16), text_len: 0 }
    );
}

#[test]
fn text_buffer_is_cleared() {
    let mut buf = [7u8, 1, 2, 3];
    clear_text_buffer(&mut buf);
    assert_eq!(buf, [0, 0, 0, 0]);
    let mut empty: [u8; 0] = [];
    clear_text_buffer(&mut empty);
}

#[test]
fn param_info_record_fill() {
    let mut rec = ParamInfoRecord { id: 0, flags: 0, name: vec![9; 4], module: vec![9; 8] };
    fill_clap_param_info(clap_clap::id::ClapId::from(5u16), 6, "Volume", "Amp", &mut rec);
    assert_eq!(rec.id, 5);
    assert_eq!(rec.flags, 6);
    assert_eq!(rec.name, vec![b'V', b'o', b'l', 0]);
    assert_eq!(rec.module, vec![b'A', b'm', b'p', 0, 9, 9, 9, 9]);
    fill_clap_param_info(clap_clap::id::ClapId::invalid_id(), 0, "", "", &mut rec);
    assert_eq!(rec.id, u32::MAX);
    assert_eq!(rec.name[0], 0);
}

#[test]
fn timestamps_and_positions_compare() {
    assert!(TimeStamp::from(2u64) > TimeStamp::from(1u64));
    assert_ne!(TimeStamp::from(1u64), TimeStamp::Unknown);
    assert!(TimeStamp::from(u64::MAX) < TimeStamp::Unknown);
    assert!(BeatTime::new(-3) < BeatTime::new(2));
    assert!(BeatTime::new(2) <= BeatTime::new(2));
    assert!(SecTime::new(5) > SecTime::new(4));
    assert_eq!(BeatTime::new(1).cmp(&BeatTime::new(9)), std::cmp::Ordering::Less);
}

#[test]
fn time_is_zero_until_set() {
    let e = Midi::build().port_index(2).data([1, 2, 3]).flags(1).space_id(4);
    assert_eq!(e.event().header().time(), 0);
    let t = Transport::build().tsig_num(3).bar_number(9).flags(2);
    assert_eq!(t.event().header().time(), 0);
    let p = ParamValue::build().channel(1).key(60).value_bits(7).time(11).note_id(4);
    assert_eq!(p.event().header().time(), 11);
}

#[test]
fn identifiers_are_well_formed() {
    let id = clap_clap::id::ClapId::try_from(7u32).unwrap();
    id.check_wf();
    assert!(clap_clap::id::ClapId::try_from(u32::MAX).is_err());
}
