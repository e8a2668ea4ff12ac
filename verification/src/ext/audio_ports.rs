//! Audio ports: the plugin's description of its audio inputs and outputs.
use vstd::prelude::*;
use vstd::std_specs::convert::{FromSpecImpl, TryFromSpecImpl};
use vstd::string::StringExecFns;
use vstd::utf8::encode_utf8;

use crate::ffi::{
    CLAP_AUDIO_PORTS_RESCAN_CHANNEL_COUNT, CLAP_AUDIO_PORTS_RESCAN_FLAGS,
    CLAP_AUDIO_PORTS_RESCAN_IN_PLACE_PAIR, CLAP_AUDIO_PORTS_RESCAN_LIST,
    CLAP_AUDIO_PORTS_RESCAN_NAMES, CLAP_AUDIO_PORTS_RESCAN_PORT_TYPE, CLAP_AUDIO_PORT_IS_MAIN,
    CLAP_AUDIO_PORT_PREFERS_64BITS, CLAP_AUDIO_PORT_REQUIRES_COMMON_SAMPLE_SIZE,
    CLAP_AUDIO_PORT_SUPPORTS_64BITS, CLAP_INVALID_ID,
};
use crate::flags::{flag_clear, flag_is_set, flag_set};
use crate::id::{spec_id_to_u32, ClapId};
use crate::string_sizes::CLAP_NAME_SIZE;
use crate::text::{cbuf_after_copy, copy_str_to_cbuf, decimal, decimal_string, str_eq};

verus! {

/// The audio ports a plugin offers.
pub trait AudioPorts<P> {
    /// The number of input (or output) ports.
    fn count(plugin: &P, is_input: bool) -> u32;

    /// The description of the input (or output) port at `index`, if any.
    fn get(plugin: &P, index: u32, is_input: bool) -> Option<AudioPortInfo>;
}

/// No audio ports.
impl<P> AudioPorts<P> for () {
    fn count(_plugin: &P, _is_input: bool) -> (r: u32)
        ensures
            r == 0,
    {
        0
    }

    fn get(_plugin: &P, _index: u32, _is_input: bool) -> (r: Option<AudioPortInfo>)
        ensures
            r is None,
    {
        None
    }
}

/// The layout of the channels of an audio port.
#[derive(Debug, Copy, Clone, PartialEq, Eq, Structural)]
pub enum AudioPortType {
    Mono,
    Stereo,
    Surround,
    Ambisonic,
}

/// What `AudioPortType::try_from(&str)` returns.
pub open spec fn spec_port_type_from(value: Seq<char>) -> Result<AudioPortType, Error> {
    if value == "mono"@ {
        Ok(AudioPortType::Mono)
    } else if value == "stereo"@ {
        Ok(AudioPortType::Stereo)
    } else if value == "ambisonic"@ {
        Ok(AudioPortType::Ambisonic)
    } else if value == "surround"@ {
        Ok(AudioPortType::Surround)
    } else {
        Err(Error::PortType)
    }
}

/// Each port type is read from the CLAP name of the layout it is named
/// after, and only from it.
pub proof fn lemma_port_type_names()
    ensures
        spec_port_type_from("mono"@) == Ok::<AudioPortType, Error>(AudioPortType::Mono),
        spec_port_type_from("stereo"@) == Ok::<AudioPortType, Error>(AudioPortType::Stereo),
        spec_port_type_from("surround"@) == Ok::<AudioPortType, Error>(AudioPortType::Surround),
        spec_port_type_from("ambisonic"@) == Ok::<AudioPortType, Error>(AudioPortType::Ambisonic),
        spec_port_type_from("Mono"@) == Err::<AudioPortType, Error>(Error::PortType),
{
    reveal_strlit("mono");
    reveal_strlit("stereo");
    reveal_strlit("surround");
    reveal_strlit("ambisonic");
    reveal_strlit("Mono");
    // The names differ in length, but for the two spellings of "mono".
    assert("stereo"@.len() != "mono"@.len());
    assert("surround"@.len() != "mono"@.len() && "surround"@.len() != "stereo"@.len());
    assert("surround"@.len() != "ambisonic"@.len());
    assert("ambisonic"@.len() != "mono"@.len() && "ambisonic"@.len() != "stereo"@.len());
    assert("Mono"@[0] != "mono"@[0]);
    assert("Mono"@.len() != "stereo"@.len() && "Mono"@.len() != "ambisonic"@.len());
    assert("Mono"@.len() != "surround"@.len());
}

impl<'a> TryFrom<&'a str> for AudioPortType {
    type Error = Error;

    fn try_from(value: &'a str) -> (r: Result<Self, Self::Error>)
        ensures
            r == spec_port_type_from(value@),
    {
        if str_eq(value, "mono") {
            Ok(AudioPortType::Mono)
        } else if str_eq(value, "stereo") {
            Ok(AudioPortType::Stereo)
        } else if str_eq(value, "ambisonic") {
            Ok(AudioPortType::Ambisonic)
        } else if str_eq(value, "surround") {
            Ok(AudioPortType::Surround)
        } else {
            Err(Error::PortType)
        }
    }
}

impl<'a> TryFromSpecImpl<&'a str> for AudioPortType {
    open spec fn obeys_try_from_spec() -> bool {
        true
    }

    open spec fn try_from_spec(value: &'a str) -> Result<Self, Error> {
        spec_port_type_from(value@)
    }
}

/// The description of an audio port.
#[derive(Debug, Clone, PartialEq)]
pub struct AudioPortInfo {
    pub id: ClapId,
    pub name: Option<String>,
    pub flags: u32,
    pub channel_count: u32,
    pub port_type: Option<AudioPortType>,
    pub in_place_pair: Option<ClapId>,
}

/// The description a builder starts from: invalid id, no name, no flag, no
/// channel, no type, no in-place pair.
pub open spec fn is_default_port_info(info: AudioPortInfo) -> bool {
    &&& info.id@ is None
    &&& info.name is None
    &&& info.flags == 0
    &&& info.channel_count == 0
    &&& info.port_type is None
    &&& info.in_place_pair is None
}

impl Default for AudioPortInfo {
    fn default() -> (r: Self)
        ensures
            is_default_port_info(r),
    {
        AudioPortInfo {
            id: ClapId::invalid_id(),
            name: None,
            flags: 0,
            channel_count: 0,
            port_type: None,
            in_place_pair: None,
        }
    }
}

/// The fields of CLAP's `clap_audio_port_info`, the port type given by its
/// kind rather than by a pointer to its name.
#[derive(Debug, Clone, PartialEq)]
pub struct AudioPortInfoRecord {
    pub id: u32,
    /// The name as a C string buffer of `CLAP_NAME_SIZE` bytes.
    pub name: Vec<u8>,
    pub flags: u32,
    pub channel_count: u32,
    pub port_type: Option<AudioPortType>,
    pub in_place_pair: u32,
}

impl AudioPortInfo {
    pub fn builder() -> (r: AudioPortInfoBuilder)
        ensures
            is_default_port_info(r.info()),
    {
        AudioPortInfoBuilder::new(Self::default())
    }

    /// Writes this description into the fields of a `clap_audio_port_info`.
    /// A name must leave room for the terminating zero.
    pub fn fill_clap_audio_port_info(&self, info: &mut AudioPortInfoRecord)
        requires
            old(info).name.len() == CLAP_NAME_SIZE,
            self.name matches Some(n) ==> encode_utf8(n@).len() < CLAP_NAME_SIZE,
        ensures
            final(info).id == spec_id_to_u32(self.id@),
            final(info).name@ == (match self.name {
                Some(n) => cbuf_after_copy(old(info).name@, encode_utf8(n@)),
                None => old(info).name@.update(0, 0u8),
            }),
            self.name matches Some(n) ==> final(info).name@[encode_utf8(n@).len() as int] == 0u8
                && final(info).name@.subrange(0, encode_utf8(n@).len() as int) == encode_utf8(n@),
            final(info).flags == self.flags,
            final(info).channel_count == self.channel_count,
            final(info).port_type == self.port_type,
            final(info).in_place_pair == (match self.in_place_pair {
                Some(id) => spec_id_to_u32(id@),
                None => CLAP_INVALID_ID,
            }),
    {
        info.id = self.id.to_clap_id();
        match &self.name {
            Some(name) => {
                copy_str_to_cbuf(name.as_str(), &mut info.name);
                assert(info.name@.subrange(0, encode_utf8(name@).len() as int) =~= encode_utf8(name@));
            },
            None => {
                info.name.set(0, 0u8);
            },
        }
        info.flags = self.flags;
        info.channel_count = self.channel_count;
        info.port_type = self.port_type;
        info.in_place_pair = match self.in_place_pair {
            Some(id) => id.to_clap_id(),
            None => CLAP_INVALID_ID,
        };
    }
}

/// Builds an [`AudioPortInfo`] field by field.
pub struct AudioPortInfoBuilder {
    info: AudioPortInfo,
}

impl AudioPortInfoBuilder {
    /// The description built so far.
    pub closed spec fn info(&self) -> AudioPortInfo {
        self.info
    }

    fn new(info: AudioPortInfo) -> (r: Self)
        ensures
            r.info() == info,
    {
        Self { info }
    }

    pub fn id(&mut self, id: ClapId) -> (r: &mut Self)
        ensures
            r.info() == (AudioPortInfo { id, ..old(self).info() }),
            *final(self) == *final(r),
    {
        self.info.id = id;
        self
    }

    pub fn name(&mut self, name: &str) -> (r: &mut Self)
        ensures
            r.info().name matches Some(n) && n@ == name@,
            r.info().id == old(self).info().id,
            r.info().flags == old(self).info().flags,
            r.info().channel_count == old(self).info().channel_count,
            r.info().port_type == old(self).info().port_type,
            r.info().in_place_pair == old(self).info().in_place_pair,
            *final(self) == *final(r),
    {
        self.info.name = Some(String::from_str(name));
        self
    }

    pub fn port_is_main(&mut self) -> (r: &mut Self)
        ensures
            r.info() == (AudioPortInfo {
                flags: flag_set(CLAP_AUDIO_PORT_IS_MAIN, old(self).info().flags),
                ..old(self).info()
            }),
            *final(self) == *final(r),
    {
        self.info.flags = CLAP_AUDIO_PORT_IS_MAIN | self.info.flags;
        self
    }

    pub fn prefers_64_bits(&mut self) -> (r: &mut Self)
        ensures
            r.info() == (AudioPortInfo {
                flags: flag_set(CLAP_AUDIO_PORT_PREFERS_64BITS, old(self).info().flags),
                ..old(self).info()
            }),
            *final(self) == *final(r),
    {
        self.info.flags = CLAP_AUDIO_PORT_PREFERS_64BITS | self.info.flags;
        self
    }

    pub fn supports_64_bits(&mut self) -> (r: &mut Self)
        ensures
            r.info() == (AudioPortInfo {
                flags: flag_set(CLAP_AUDIO_PORT_SUPPORTS_64BITS, old(self).info().flags),
                ..old(self).info()
            }),
            *final(self) == *final(r),
    {
        self.info.flags = CLAP_AUDIO_PORT_SUPPORTS_64BITS | self.info.flags;
        self
    }

    pub fn requires_common_sample_size(&mut self) -> (r: &mut Self)
        ensures
            r.info() == (AudioPortInfo {
                flags: flag_set(CLAP_AUDIO_PORT_REQUIRES_COMMON_SAMPLE_SIZE, old(self).info().flags),
                ..old(self).info()
            }),
            *final(self) == *final(r),
    {
        self.info.flags = CLAP_AUDIO_PORT_REQUIRES_COMMON_SAMPLE_SIZE | self.info.flags;
        self
    }

    pub fn channel_count(&mut self, n: u32) -> (r: &mut Self)
        ensures
            r.info() == (AudioPortInfo { channel_count: n, ..old(self).info() }),
            *final(self) == *final(r),
    {
        self.info.channel_count = n;
        self
    }

    pub fn port_type(&mut self, port_type: AudioPortType) -> (r: &mut Self)
        ensures
            r.info() == (AudioPortInfo { port_type: Some(port_type), ..old(self).info() }),
            *final(self) == *final(r),
    {
        self.info.port_type = Some(port_type);
        self
    }

    pub fn in_place_pair(&mut self, id: ClapId) -> (r: &mut Self)
        ensures
            r.info() == (AudioPortInfo { in_place_pair: Some(id), ..old(self).info() }),
            *final(self) == *final(r),
    {
        self.info.in_place_pair = Some(id);
        self
    }

    /// The description built so far.
    pub fn build(&self) -> (r: AudioPortInfo)
        ensures
            r == self.info(),
    {
        let name = match &self.info.name {
            Some(n) => Some(n.clone()),
            None => None,
        };
        AudioPortInfo {
            id: self.info.id,
            name,
            flags: self.info.flags,
            channel_count: self.info.channel_count,
            port_type: self.info.port_type,
            in_place_pair: self.info.in_place_pair,
        }
    }
}

/// Flags of an audio port.
#[derive(Debug, Copy, Clone, PartialEq, Eq, Structural)]
pub enum AudioPortFlags {
    /// This port is the main audio input or output. There can be only one
    /// main input and main output. Main port must be at index 0.
    IsMain,
    /// This port can be used with 64 bits audio
    Supports64bits,
    /// 64 bits audio is preferred with this port
    Prefers64bits,
    /// This port must be used with the same sample size as all the other
    /// ports which have this flag.
    RequiresCommonSampleSize,
}

impl AudioPortFlags {
    /// The flag's bit.
    pub open spec fn spec_bits(self) -> u32 {
        match self {
            AudioPortFlags::IsMain => CLAP_AUDIO_PORT_IS_MAIN,
            AudioPortFlags::Supports64bits => CLAP_AUDIO_PORT_SUPPORTS_64BITS,
            AudioPortFlags::Prefers64bits => CLAP_AUDIO_PORT_PREFERS_64BITS,
            AudioPortFlags::RequiresCommonSampleSize => CLAP_AUDIO_PORT_REQUIRES_COMMON_SAMPLE_SIZE,
        }
    }

    fn bits(&self) -> (r: u32)
        ensures
            r == self.spec_bits(),
    {
        match self {
            AudioPortFlags::IsMain => CLAP_AUDIO_PORT_IS_MAIN,
            AudioPortFlags::Supports64bits => CLAP_AUDIO_PORT_SUPPORTS_64BITS,
            AudioPortFlags::Prefers64bits => CLAP_AUDIO_PORT_PREFERS_64BITS,
            AudioPortFlags::RequiresCommonSampleSize => CLAP_AUDIO_PORT_REQUIRES_COMMON_SAMPLE_SIZE,
        }
    }

    /// `flags` with this flag set.
    pub fn set(&self, flags: u32) -> (r: u32)
        ensures
            r == flag_set(self.spec_bits(), flags),
    {
        self.bits() | flags
    }

    /// Whether this flag is set in `flags`.
    pub fn is_set(&self, flags: u32) -> (r: bool)
        ensures
            r == flag_is_set(self.spec_bits(), flags),
    {
        self.bits() & flags != 0
    }

    /// `flags` with this flag cleared.
    pub fn clear(&self, flags: u32) -> (r: u32)
        ensures
            r == flag_clear(self.spec_bits(), flags),
    {
        !self.bits() & flags
    }
}

/// Each audio port flag is the CLAP bit it is named after, by its value in the C
/// API: IsMain is 1, Supports64bits is 2, and so on, each one bit.
pub proof fn lemma_audio_port_flags_values()
    ensures
        AudioPortFlags::IsMain.spec_bits() == 1,
        AudioPortFlags::Supports64bits.spec_bits() == 2,
        AudioPortFlags::Prefers64bits.spec_bits() == 4,
        AudioPortFlags::RequiresCommonSampleSize.spec_bits() == 8,
{
}

impl From<AudioPortFlags> for u32 {
    fn from(value: AudioPortFlags) -> (r: u32)
        ensures
            r == value.spec_bits(),
    {
        value.bits()
    }
}

impl FromSpecImpl<AudioPortFlags> for u32 {
    open spec fn obeys_from_spec() -> bool {
        true
    }

    open spec fn from_spec(value: AudioPortFlags) -> u32 {
        value.spec_bits()
    }
}


/// Port rescan flags.
#[derive(Debug, Copy, Clone, PartialEq, Eq, Structural)]
pub enum RescanFlags {
    /// The ports name did change, the host can scan them right away.
    Names,
    /// The flags did change
    Flags,
    /// The channel_count did change
    ChannelCount,
    /// The port type did change
    PortType,
    /// The in-place pair did change
    InPlacePair,
    /// The list of ports have changed: entries have been removed/added.
    List,
}

impl RescanFlags {
    /// The flag's bit.
    pub open spec fn spec_bits(self) -> u32 {
        match self {
            RescanFlags::Names => CLAP_AUDIO_PORTS_RESCAN_NAMES,
            RescanFlags::Flags => CLAP_AUDIO_PORTS_RESCAN_FLAGS,
            RescanFlags::ChannelCount => CLAP_AUDIO_PORTS_RESCAN_CHANNEL_COUNT,
            RescanFlags::PortType => CLAP_AUDIO_PORTS_RESCAN_PORT_TYPE,
            RescanFlags::InPlacePair => CLAP_AUDIO_PORTS_RESCAN_IN_PLACE_PAIR,
            RescanFlags::List => CLAP_AUDIO_PORTS_RESCAN_LIST,
        }
    }

    fn bits(&self) -> (r: u32)
        ensures
            r == self.spec_bits(),
    {
        match self {
            RescanFlags::Names => CLAP_AUDIO_PORTS_RESCAN_NAMES,
            RescanFlags::Flags => CLAP_AUDIO_PORTS_RESCAN_FLAGS,
            RescanFlags::ChannelCount => CLAP_AUDIO_PORTS_RESCAN_CHANNEL_COUNT,
            RescanFlags::PortType => CLAP_AUDIO_PORTS_RESCAN_PORT_TYPE,
            RescanFlags::InPlacePair => CLAP_AUDIO_PORTS_RESCAN_IN_PLACE_PAIR,
            RescanFlags::List => CLAP_AUDIO_PORTS_RESCAN_LIST,
        }
    }

    /// `flags` with this flag set.
    pub fn set(&self, flags: u32) -> (r: u32)
        ensures
            r == flag_set(self.spec_bits(), flags),
    {
        self.bits() | flags
    }

    /// Whether this flag is set in `flags`.
    pub fn is_set(&self, flags: u32) -> (r: bool)
        ensures
            r == flag_is_set(self.spec_bits(), flags),
    {
        self.bits() & flags != 0
    }

    /// `flags` with this flag cleared.
    pub fn clear(&self, flags: u32) -> (r: u32)
        ensures
            r == flag_clear(self.spec_bits(), flags),
    {
        !self.bits() & flags
    }
}

/// Each audio port rescan flag is the CLAP bit it is named after, by its value in the C
/// API: Names is 1, Flags is 2, and so on, each one bit.
pub proof fn lemma_rescan_flags_values()
    ensures
        RescanFlags::Names.spec_bits() == 1,
        RescanFlags::Flags.spec_bits() == 2,
        RescanFlags::ChannelCount.spec_bits() == 4,
        RescanFlags::PortType.spec_bits() == 8,
        RescanFlags::InPlacePair.spec_bits() == 16,
        RescanFlags::List.spec_bits() == 32,
{
}

impl From<RescanFlags> for u32 {
    fn from(value: RescanFlags) -> (r: u32)
        ensures
            r == value.spec_bits(),
    {
        value.bits()
    }
}

impl FromSpecImpl<RescanFlags> for u32 {
    open spec fn obeys_from_spec() -> bool {
        true
    }

    open spec fn from_spec(value: RescanFlags) -> u32 {
        value.spec_bits()
    }
}


/// The name of a port of a static layout: "Main In" or "Main Out" for the
/// first port, "In n" or "Out n" for the others.
pub open spec fn static_port_name(index: u32, is_input: bool) -> Seq<char> {
    if is_input {
        if index == 0 {
            "Main In"@
        } else {
            "In "@ + decimal(index as nat)
        }
    } else {
        if index == 0 {
            "Main Out"@
        } else {
            "Out "@ + decimal(index as nat)
        }
    }
}

/// Whether a static layout with `inputs` inputs and `outputs` outputs has the
/// port at `index`. Output ports are numbered after the inputs; an output
/// whose id would not be a valid `clap_id` does not exist.
pub open spec fn static_port_exists(index: u32, is_input: bool, inputs: u32, outputs: u32) -> bool {
    if is_input {
        index < inputs
    } else {
        index < outputs && inputs + index < CLAP_INVALID_ID
    }
}

/// The description of the port at `index` of a static layout whose ports
/// have `channel_count` channels of type `port_type`.
pub open spec fn is_static_port(
    info: AudioPortInfo,
    index: u32,
    is_input: bool,
    inputs: u32,
    channel_count: u32,
    port_type: AudioPortType,
) -> bool {
    &&& info.id@ == Some(
        if is_input {
            index
        } else {
            (inputs + index) as u32
        },
    )
    &&& info.name matches Some(n) && n@ == static_port_name(index, is_input)
    &&& info.flags == (if index == 0 {
        CLAP_AUDIO_PORT_IS_MAIN
    } else {
        0
    })
    &&& info.channel_count == channel_count
    &&& info.port_type == Some(port_type)
    &&& info.in_place_pair is None
}

/// The ports of a static layout have distinct ids: the inputs are numbered
/// from zero, and the outputs after the inputs.
pub proof fn lemma_static_port_ids_distinct(
    a: AudioPortInfo,
    i: u32,
    i_is_input: bool,
    b: AudioPortInfo,
    j: u32,
    j_is_input: bool,
    inputs: u32,
    outputs: u32,
    channel_count: u32,
    port_type: AudioPortType,
)
    requires
        static_port_exists(i, i_is_input, inputs, outputs),
        static_port_exists(j, j_is_input, inputs, outputs),
        is_static_port(a, i, i_is_input, inputs, channel_count, port_type),
        is_static_port(b, j, j_is_input, inputs, channel_count, port_type),
        i != j || i_is_input != j_is_input,
    ensures
        a.id@ != b.id@,
{
}

/// The port at `index` of a static layout, if there is one.
fn static_port(
    index: u32,
    is_input: bool,
    inputs: u32,
    outputs: u32,
    channel_count: u32,
    port_type: AudioPortType,
) -> (r: Option<AudioPortInfo>)
    ensures
        r is Some <==> static_port_exists(index, is_input, inputs, outputs),
        r matches Some(info) ==> is_static_port(info, index, is_input, inputs, channel_count, port_type),
{
    if !(if is_input {
        index < inputs
    } else {
        index < outputs && (inputs as u64) + (index as u64) < CLAP_INVALID_ID as u64
    }) {
        return None;
    }
    let raw = if is_input {
        index
    } else {
        inputs + index
    };
    let id = match ClapId::try_from(raw) {
        Ok(id) => id,
        Err(_) => {
            return None;
        },
    };
    let mut builder = AudioPortInfo::builder();
    builder.id(id);
    if index == 0 {
        if is_input {
            builder.name("Main In");
        } else {
            builder.name("Main Out");
        }
        builder.port_is_main();
        assert(CLAP_AUDIO_PORT_IS_MAIN | 0u32 == CLAP_AUDIO_PORT_IS_MAIN) by (bit_vector);
    } else {
        let mut name = if is_input {
            String::from_str("In ")
        } else {
            String::from_str("Out ")
        };
        let number = decimal_string(index);
        name.append(number.as_str());
        builder.name(name.as_str());
    }
    builder.channel_count(channel_count).port_type(port_type);
    Some(builder.build())
}

/// Static mono ports, in and out.
#[derive(Default, Debug, Copy, Clone)]
pub struct MonoPorts<const IN: u32, const OUT: u32>;

impl<const IN: u32, const OUT: u32> MonoPorts<IN, OUT> {
    pub fn new() -> Self {
        Self {  }
    }
}

impl<P, const IN: u32, const OUT: u32> AudioPorts<P> for MonoPorts<IN, OUT> {
    fn count(_plugin: &P, is_input: bool) -> (r: u32)
        ensures
            r == if is_input {
                IN
            } else {
                OUT
            },
    {
        if is_input {
            IN
        } else {
            OUT
        }
    }

    fn get(_plugin: &P, index: u32, is_input: bool) -> (r: Option<AudioPortInfo>)
        ensures
            r is Some <==> static_port_exists(index, is_input, IN, OUT),
            r matches Some(info) ==> is_static_port(
                info,
                index,
                is_input,
                IN,
                1,
                AudioPortType::Mono,
            ),
    {
        static_port(index, is_input, IN, OUT, 1, AudioPortType::Mono)
    }
}

/// Static stereo ports, in and out.
#[derive(Default, Debug, Copy, Clone)]
pub struct StereoPorts<const IN: u32, const OUT: u32>;

impl<const IN: u32, const OUT: u32> StereoPorts<IN, OUT> {
    pub fn new() -> Self {
        Self {  }
    }
}

impl<P, const IN: u32, const OUT: u32> AudioPorts<P> for StereoPorts<IN, OUT> {
    fn count(_plugin: &P, is_input: bool) -> (r: u32)
        ensures
            r == if is_input {
                IN
            } else {
                OUT
            },
    {
        if is_input {
            IN
        } else {
            OUT
        }
    }

    fn get(_plugin: &P, index: u32, is_input: bool) -> (r: Option<AudioPortInfo>)
        ensures
            r is Some <==> static_port_exists(index, is_input, IN, OUT),
            r matches Some(info) ==> is_static_port(
                info,
                index,
                is_input,
                IN,
                2,
                AudioPortType::Stereo,
            ),
    {
        static_port(index, is_input, IN, OUT, 2, AudioPortType::Stereo)
    }
}

/// Errors of the audio ports extension.
#[derive(Debug, Copy, Clone, PartialEq, Eq, Structural)]
pub enum Error {
    /// The port type is not one CLAP defines.
    PortType,
}

} // verus!
