use clap_clap::events::{
    Error, Event, EventBuilder, Header, InputEvents, Midi, Midi2, MidiBuilder, OutputEvents,
    ParamMod, ParamValue, ParamValueBuilder, Transport, TransportFlags, MIDI_SIZE,
    PARAM_VALUE_SIZE, TRANSPORT_SIZE,
};
use clap_clap::ffi::{CLAP_EVENT_MIDI, CLAP_EVENT_PARAM_VALUE, CLAP_EVENT_TRANSPORT};
use clap_clap::fixedpoint::{BeatTime, SecTime};
use clap_clap::id::ClapId;

#[test]
fn midi2_build_example() {
    let midi = Midi2::build().port_index(1).time(3);
    let event = midi.event();
    assert_eq!(event.port_index(), 1);
    assert_eq!(event.header().time(), 3);
}

#[test]
fn midi2_update_example() {
    let midi = Midi2::build().port_index(1).data([1, 2, 3, 4]);
    let event = midi.event();
    let other_midi = event.update().data([4, 5, 6, 7]);
    let other_event = other_midi.event();
    assert_eq!(event.port_index(), 1);
    assert_eq!(event.data(), [1, 2, 3, 4]);
    assert_eq!(other_event.port_index(), 1);
    assert_eq!(other_event.data(), [4, 5, 6, 7]);
}

#[test]
fn midi_build_example() {
    let midi = Midi::build().port_index(1).time(3);
    let event = midi.event();
    assert_eq!(event.port_index(), 1);
    assert_eq!(event.header().time(), 3);
}

#[test]
fn midi_update_example() {
    let midi = Midi::build().port_index(1).data([1, 2, 3]);
    let event = midi.event();
    let other_midi = event.update().data([4, 5, 6]);
    let other_event = other_midi.event();
    assert_eq!(event.port_index(), 1);
    assert_eq!(event.data(), [1, 2, 3]);
    assert_eq!(other_event.port_index(), 1);
    assert_eq!(other_event.data(), [4, 5, 6]);
}

#[test]
fn fresh_builders_have_default_header() {
    let b = MidiBuilder::new();
    let h = b.event().header().as_clap_event_header();
    assert_eq!(h.size, MIDI_SIZE);
    assert_eq!(h.time, 0);
    assert_eq!(h.space_id, 0);
    assert_eq!(h.type_, CLAP_EVENT_MIDI as u16);
    assert_eq!(h.flags, 0);
    assert_eq!(b.event().to_bytes().len(), 24);
    assert_eq!(Midi2::build().event().header().size(), 36);
    assert_eq!(Transport::build().event().header().size(), TRANSPORT_SIZE);
    assert_eq!(ParamMod::build().event().header().size(), 56);
}

#[test]
fn param_value_fields_round_trip() {
    let id = ClapId::try_from(17u32).unwrap();
    let b = ParamValue::build()
        .param_id(id)
        .note_id(-3)
        .port_index(2)
        .channel(-1)
        .key(60)
        .cookie(0xdead_beef)
        .value_bits(0.5f64.to_bits())
        .time(9)
        .flags(1)
        .space_id(4);
    let e = b.event();
    assert_eq!(e.param_id(), id);
    assert_eq!(e.note_id(), -3);
    assert_eq!(e.port_index(), 2);
    assert_eq!(e.channel(), -1);
    assert_eq!(e.key(), 60);
    assert_eq!(e.cookie(), 0xdead_beef);
    assert_eq!(f64::from_bits(e.value_bits()), 0.5);
    assert_eq!(e.header().time(), 9);
    assert_eq!(e.header().flags(), 1);
    assert_eq!(e.header().space_id(), 4);
    assert_eq!(e.header().type_(), CLAP_EVENT_PARAM_VALUE as u16);
    assert_eq!(e.header().size(), PARAM_VALUE_SIZE);
}

#[test]
fn param_value_invalid_id_reads_invalid() {
    let e = ParamValueBuilder::new().param_id(ClapId::invalid_id());
    assert_eq!(e.event().param_id(), ClapId::invalid_id());
}

#[test]
fn param_mod_fields() {
    let b = ParamMod::build().amount_bits(0x4000_0000_0000_0000).key(-7);
    let e = b.event();
    assert_eq!(e.amount_bits(), 0x4000_0000_0000_0000);
    assert_eq!(e.key(), -7);
    let u = e.update().channel(3);
    assert_eq!(u.event().key(), -7);
    assert_eq!(u.event().channel(), 3);
}

#[test]
fn transport_fields() {
    let b = Transport::build()
        .song_pos_beats(BeatTime(1 << 31))
        .song_pos_seconds(SecTime(-(1 << 32)))
        .loop_start_beats(BeatTime(3))
        .loop_end_beats(BeatTime(4))
        .loop_start_seconds(SecTime(5))
        .loop_end_seconds(SecTime(6))
        .bar_start(BeatTime(7))
        .flags(TransportFlags::IsPlaying.set(0))
        .tempo_bits(120.0f64.to_bits())
        .tempo_inc_bits(0)
        .bar_number(-2)
        .tsig_num(3)
        .tsig_denom(4);
    let e = b.event();
    assert_eq!(e.song_pos_beats(), BeatTime(1 << 31));
    assert_eq!(e.song_pos_seconds(), SecTime(-(1 << 32)));
    assert_eq!(e.loop_start_beats(), BeatTime(3));
    assert_eq!(e.loop_end_beats(), BeatTime(4));
    assert_eq!(e.loop_start_seconds(), SecTime(5));
    assert_eq!(e.loop_end_seconds(), SecTime(6));
    assert_eq!(e.bar_start(), BeatTime(7));
    assert!(TransportFlags::IsPlaying.is_set(e.flags()));
    assert_eq!(f64::from_bits(e.tempo_bits()), 120.0);
    assert_eq!(e.tempo_inc_bits(), 0);
    assert_eq!(e.bar_number(), -2);
    assert_eq!(e.tsig_num(), 3);
    assert_eq!(e.tsig_denom(), 4);
    assert_eq!(e.header().type_(), CLAP_EVENT_TRANSPORT as u16);
}

#[test]
fn header_casts() {
    let b = Midi::build().port_index(5);
    let ev = b.event();
    let h = ev.header();
    assert_eq!(h.midi().unwrap().port_index(), 5);
    assert_eq!(h.midi2(), Err(Error::OtherType(CLAP_EVENT_MIDI as u16)));
    assert_eq!(h.param_value().err(), Some(Error::OtherType(10)));
    assert_eq!(h.transport().err(), Some(Error::OtherType(10)));
}

#[test]
fn header_cast_checks_size() {
    // A param value header whose record is only 24 bytes long.
    let mut bytes = vec![0u8; 24];
    bytes[0] = 24;
    bytes[10] = CLAP_EVENT_PARAM_VALUE as u8;
    let h = Header::new(bytes);
    assert_eq!(h.size(), 24);
    assert_eq!(h.param_value().err(), Some(Error::PayloadSize(24)));
    assert_eq!(h.param_mod().err(), Some(Error::OtherType(5)));
}

#[test]
fn header_from_bytes() {
    let bytes = vec![16, 0, 0, 0, 2, 1, 0, 0, 3, 0, 9, 0, 1, 0, 0, 0];
    let h = Header::new(bytes.clone());
    assert_eq!(h.size(), 16);
    assert_eq!(h.time(), 258);
    assert_eq!(h.space_id(), 3);
    assert_eq!(h.type_(), 9);
    assert_eq!(h.flags(), 1);
    assert_eq!(h.to_bytes(), bytes.as_slice());
    assert_eq!(h.transport().err(), Some(Error::PayloadSize(16)));
}

#[test]
fn transport_flags_example() {
    assert_eq!(u32::from(TransportFlags::HasTempo), 0b1);
    assert!(TransportFlags::HasTempo.is_set(0b101));
    assert_eq!(TransportFlags::HasTempo.set(0b100), 0b101);
    assert_eq!(TransportFlags::HasTempo.clear(0b101), 0b100);
    assert_eq!(u32::from(TransportFlags::IsWithinPreRoll), 128);
}

fn midi_at(time: u32) -> MidiBuilder {
    Midi::build().time(time)
}

#[test]
fn output_events_keep_time_order() {
    let mut out = OutputEvents::new_unchecked();
    let mut pushed = Vec::new();
    let e5 = midi_at(5);
    assert_eq!(
        out.try_push(e5.event(), |h: &Header| {
            pushed.push(h.time());
            true
        }),
        Ok(())
    );
    let e3 = midi_at(3);
    assert_eq!(
        out.try_push(e3.event(), |_: &Header| panic!("must not reach the host")),
        Err(Error::OutOfOrder { last_time: 5 })
    );
    let e5b = midi_at(5);
    assert_eq!(out.try_push(e5b.event(), |_: &Header| false), Err(Error::TryPush));
    let e8 = midi_at(8);
    assert_eq!(
        out.try_push(e8.event(), |h: &Header| {
            pushed.push(h.time());
            true
        }),
        Ok(())
    );
    let e6 = midi_at(6);
    assert_eq!(
        out.try_push(e6.event(), |_: &Header| true),
        Err(Error::OutOfOrder { last_time: 8 })
    );
    assert_eq!(pushed, vec![5, 8]);
}

#[test]
fn output_events_unchecked_push_in_order() {
    let mut out = OutputEvents::new_unchecked();
    let e2 = midi_at(2);
    assert_eq!(out.try_push_unchecked(e2.event(), |_: &Header| true), Ok(()));
    let e4 = midi_at(4);
    assert_eq!(out.try_push_unchecked(e4.event(), |_: &Header| false), Err(Error::TryPush));
    let e4b = midi_at(4);
    assert_eq!(out.try_push_unchecked(e4b.event(), |_: &Header| true), Ok(()));
    let e3 = midi_at(3);
    assert_eq!(
        out.try_push(e3.event(), |_: &Header| panic!("must not reach the host")),
        Err(Error::OutOfOrder { last_time: 4 })
    );
}

#[test]
fn input_events_list() {
    let a = Midi::build().time(1).event().header().to_bytes().to_vec();
    let b = Midi2::build().time(2).event().header().to_bytes().to_vec();
    let list = InputEvents::new_unchecked(vec![Header::new(a), Header::new(b)]);
    assert_eq!(list.size(), 2);
    assert_eq!(list.get(0).time(), 1);
    assert_eq!(list.get(1).time(), 2);
    assert!(list.get(1).midi2().is_ok());
    assert_eq!(list.get_unchecked(0).midi().unwrap().header().time(), 1);
}
