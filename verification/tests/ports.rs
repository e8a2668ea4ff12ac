use clap_clap::ext::audio_ports::{
    AudioPortFlags, AudioPortInfo, AudioPortInfoRecord, AudioPortType, AudioPorts, Error,
    MonoPorts, RescanFlags, StereoPorts,
};
use clap_clap::ext::note_ports::{NoteDialect, NotePortInfo, NotePortInfoRecord, NotePorts};
use clap_clap::ffi::CLAP_INVALID_ID;
use clap_clap::id::ClapId;

fn id(v: u32) -> ClapId {
    ClapId::try_from(v).unwrap()
}

#[test]
fn mono_ports_layout() {
    assert_eq!(<MonoPorts<2, 3> as AudioPorts<()>>::count(&(), true), 2);
    assert_eq!(<MonoPorts<2, 3> as AudioPorts<()>>::count(&(), false), 3);

    let main_in = <MonoPorts<2, 3> as AudioPorts<()>>::get(&(), 0, true).unwrap();
    assert_eq!(main_in.id, id(0));
    assert_eq!(main_in.name.as_deref(), Some("Main In"));
    assert!(AudioPortFlags::IsMain.is_set(main_in.flags));
    assert_eq!(main_in.channel_count, 1);
    assert_eq!(main_in.port_type, Some(AudioPortType::Mono));
    assert_eq!(main_in.in_place_pair, None);

    let in1 = <MonoPorts<2, 3> as AudioPorts<()>>::get(&(), 1, true).unwrap();
    assert_eq!(in1.id, id(1));
    assert_eq!(in1.name.as_deref(), Some("In 1"));
    assert_eq!(in1.flags, 0);

    assert!(<MonoPorts<2, 3> as AudioPorts<()>>::get(&(), 2, true).is_none());

    let main_out = <MonoPorts<2, 3> as AudioPorts<()>>::get(&(), 0, false).unwrap();
    assert_eq!(main_out.id, id(2));
    assert_eq!(main_out.name.as_deref(), Some("Main Out"));
    assert_eq!(main_out.flags, 1);

    let out2 = <MonoPorts<2, 3> as AudioPorts<()>>::get(&(), 2, false).unwrap();
    assert_eq!(out2.id, id(4));
    assert_eq!(out2.name.as_deref(), Some("Out 2"));
    assert!(<MonoPorts<2, 3> as AudioPorts<()>>::get(&(), 3, false).is_none());
    let _ = MonoPorts::<2, 3>::new();
}

#[test]
fn stereo_ports_layout() {
    let p = <StereoPorts<1, 12> as AudioPorts<u8>>::get(&0, 11, false).unwrap();
    assert_eq!(p.id, id(12));
    assert_eq!(p.name.as_deref(), Some("Out 11"));
    assert_eq!(p.channel_count, 2);
    assert_eq!(p.port_type, Some(AudioPortType::Stereo));
    let main = <StereoPorts<1, 12> as AudioPorts<u8>>::get(&0, 0, true).unwrap();
    assert_eq!(main.name.as_deref(), Some("Main In"));
    assert_eq!(<StereoPorts<1, 12> as AudioPorts<u8>>::count(&0, false), 12);
    assert!(<StereoPorts<0, 0> as AudioPorts<u8>>::get(&0, 0, true).is_none());
    let _ = StereoPorts::<1, 1>::new();
}

#[test]
fn output_port_ids_must_fit() {
    // The output id would be the reserved value.
    assert!(<MonoPorts<{ u32::MAX - 1 }, 2> as AudioPorts<()>>::get(&(), 1, false).is_none());
    assert!(<MonoPorts<{ u32::MAX - 1 }, 2> as AudioPorts<()>>::get(&(), 0, false).is_some());
}

#[test]
fn no_ports() {
    assert_eq!(<() as AudioPorts<()>>::count(&(), true), 0);
    assert!(<() as AudioPorts<()>>::get(&(), 0, true).is_none());
    assert_eq!(<() as NotePorts<()>>::count(&(), false), 0);
    assert!(<() as NotePorts<()>>::get(&(), 0, false).is_none());
}

#[test]
fn port_type_from_str() {
    assert_eq!(AudioPortType::try_from("mono"), Ok(AudioPortType::Mono));
    assert_eq!(AudioPortType::try_from("stereo"), Ok(AudioPortType::Stereo));
    assert_eq!(AudioPortType::try_from("surround"), Ok(AudioPortType::Surround));
    assert_eq!(AudioPortType::try_from("ambisonic"), Ok(AudioPortType::Ambisonic));
    assert_eq!(AudioPortType::try_from("Mono"), Err(Error::PortType));
    assert_eq!(AudioPortType::try_from(""), Err(Error::PortType));
}

#[test]
fn builder_sets_fields() {
    let info = AudioPortInfo::builder()
        .id(id(9))
        .name("Side")
        .supports_64_bits()
        .prefers_64_bits()
        .requires_common_sample_size()
        .channel_count(6)
        .port_type(AudioPortType::Surround)
        .in_place_pair(id(3))
        .build();
    assert_eq!(info.id, id(9));
    assert_eq!(info.name.as_deref(), Some("Side"));
    assert_eq!(info.flags, 2 | 4 | 8);
    assert_eq!(info.channel_count, 6);
    assert_eq!(info.port_type, Some(AudioPortType::Surround));
    assert_eq!(info.in_place_pair, Some(id(3)));
    assert_eq!(AudioPortInfo::builder().build(), AudioPortInfo::default());
}

#[test]
fn fill_audio_port_record() {
    let info = AudioPortInfo::builder().id(id(4)).name("Main").port_is_main().channel_count(2).build();
    let mut rec = AudioPortInfoRecord {
        id: 0,
        name: vec![0xaa; 256],
        flags: 0,
        channel_count: 0,
        port_type: None,
        in_place_pair: 0,
    };
    info.fill_clap_audio_port_info(&mut rec);
    assert_eq!(rec.id, 4);
    assert_eq!(&rec.name[..5], b"Main\0");
    assert_eq!(rec.name[5], 0xaa);
    assert_eq!(rec.flags, 1);
    assert_eq!(rec.channel_count, 2);
    assert_eq!(rec.port_type, None);
    assert_eq!(rec.in_place_pair, CLAP_INVALID_ID);

    let unnamed = AudioPortInfo::default();
    unnamed.fill_clap_audio_port_info(&mut rec);
    assert_eq!(rec.name[0], 0);
    assert_eq!(rec.id, CLAP_INVALID_ID);
}

#[test]
fn fill_note_port_record_truncates() {
    let info = NotePortInfo {
        id: id(1),
        supported_dialects: NoteDialect::Midi.set(NoteDialect::Clap.set(0)),
        preferred_dialect: u32::from(NoteDialect::Clap),
        name: "abcdef".to_string(),
    };
    let mut rec = NotePortInfoRecord { id: 0, supported_dialects: 0, preferred_dialect: 0, name: vec![7; 4] };
    info.fill_clap_note_port_info(&mut rec);
    assert_eq!(rec.id, 1);
    assert_eq!(rec.name, vec![b'a', b'b', b'c', 0]);
    assert_eq!(rec.supported_dialects, 3);
    assert_eq!(rec.preferred_dialect, 1);
    let d = NotePortInfo::default();
    assert_eq!(d.name, "");
    assert!(!d.id.is_valid());
}

#[test]
fn rescan_flags_example() {
    assert_eq!(u32::from(RescanFlags::Names), 0b1);
    assert!(RescanFlags::Names.is_set(0b101));
    assert_eq!(RescanFlags::Names.set(0b100), 0b101);
    assert_eq!(RescanFlags::Names.clear(0b101), 0b100);
    assert_eq!(u32::from(RescanFlags::List), 32);
    assert!(!NoteDialect::Midi2.is_set(0b111));
    assert_eq!(u32::from(NoteDialect::MidiMPE), 4);
}

#[test]
fn static_port_ids_are_distinct() {
    let mut ids: Vec<u32> = Vec::new();
    for is_input in [true, false] {
        let n = <StereoPorts<3, 4> as AudioPorts<()>>::count(&(), is_input);
        for i in 0..n {
            let p = <StereoPorts<3, 4> as AudioPorts<()>>::get(&(), i, is_input).unwrap();
            ids.push(u32::from(p.id));
        }
    }
    assert_eq!(ids, vec![0, 1, 2, 3, 4, 5, 6]);
}
