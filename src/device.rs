use vstd::prelude::*;

verus! {

/// Failures of the routing engine.
#[derive(PartialEq, Eq, Structural, Clone, Copy, Debug)]
pub enum EngineError {
    /// No default device is configured, or it no longer enumerates.
    DeviceUnavailable,
    /// A device asked for by name is not in the current catalog snapshot.
    DeviceNotFound,
    /// The negotiated channel count would be zero.
    IncompatibleDevices,
    /// The driver rejects the requested duplex combination.
    UnsupportedFormat,
    /// Opening, starting or stopping a stream failed.
    StreamFault,
    /// An internal contract was broken (a defect, never recovered from).
    InvariantViolation,
}

/// One device as the audio subsystem reports it: its handle, its name and
/// the largest channel counts it supports in each direction.
#[derive(Clone, Debug)]
pub struct AudioEndpoint {
    pub index: u32,
    pub name: String,
    pub max_input_channels: i32,
    pub max_output_channels: i32,
}

/// What the engine knows of a device chosen for one direction.
pub struct DeviceEntry {
    pub name: Seq<char>,
    pub dev_index: u32,
    pub channels: i32,
}

/// A device that can capture audio.
#[derive(Clone, Debug)]
pub struct AJInputDevice {
    pub name: String,
    pub dev_index: u32,
    pub channels: i32,
}

/// A device that can render audio.
#[derive(Clone, Debug)]
pub struct AJOutputDevice {
    pub name: String,
    pub dev_index: u32,
    pub channels: i32,
}

impl View for AJInputDevice {
    type V = DeviceEntry;

    open spec fn view(&self) -> DeviceEntry {
        DeviceEntry { name: self.name@, dev_index: self.dev_index, channels: self.channels }
    }
}

impl View for AJOutputDevice {
    type V = DeviceEntry;

    open spec fn view(&self) -> DeviceEntry {
        DeviceEntry { name: self.name@, dev_index: self.dev_index, channels: self.channels }
    }
}

/// The input-side entry of an endpoint.
pub open spec fn input_entry(e: AudioEndpoint) -> DeviceEntry {
    DeviceEntry { name: e.name@, dev_index: e.index, channels: e.max_input_channels }
}

/// The output-side entry of an endpoint.
pub open spec fn output_entry(e: AudioEndpoint) -> DeviceEntry {
    DeviceEntry { name: e.name@, dev_index: e.index, channels: e.max_output_channels }
}

/// The input-capable endpoints, in the order reported.
pub open spec fn inputs_of(eps: Seq<AudioEndpoint>) -> Seq<DeviceEntry>
    decreases eps.len(),
{
    if eps.len() == 0 {
        seq![]
    } else {
        let rest = inputs_of(eps.drop_last());
        if eps.last().max_input_channels > 0 {
            rest.push(input_entry(eps.last()))
        } else {
            rest
        }
    }
}

/// The output-capable endpoints, in the order reported.
pub open spec fn outputs_of(eps: Seq<AudioEndpoint>) -> Seq<DeviceEntry>
    decreases eps.len(),
{
    if eps.len() == 0 {
        seq![]
    } else {
        let rest = outputs_of(eps.drop_last());
        if eps.last().max_output_channels > 0 {
            rest.push(output_entry(eps.last()))
        } else {
            rest
        }
    }
}

/// Entries of a list of devices.
pub open spec fn input_entries(ds: Seq<AJInputDevice>) -> Seq<DeviceEntry> {
    ds.map_values(|d: AJInputDevice| d@)
}

/// Entries of a list of devices.
pub open spec fn output_entries(ds: Seq<AJOutputDevice>) -> Seq<DeviceEntry> {
    ds.map_values(|d: AJOutputDevice| d@)
}

/// Handles of the subsystem are distinct within one snapshot.
pub open spec fn indices_unique(eps: Seq<AudioEndpoint>) -> bool {
    forall|i: int, j: int|
        0 <= i < eps.len() && 0 <= j < eps.len() && i != j ==> eps[i].index != eps[j].index
}

/// Position of the first entry with this name, searching from the front.
pub open spec fn is_first_named(es: Seq<DeviceEntry>, name: Seq<char>, k: int) -> bool {
    &&& 0 <= k < es.len()
    &&& es[k].name == name
    &&& forall|j: int| 0 <= j < k ==> es[j].name != name
}

/// One snapshot of the endpoints that the audio subsystem reports, and the
/// handle of its designated default output, if one is configured.
#[derive(Clone, Debug)]
pub struct DeviceCatalog {
    pub endpoints: Vec<AudioEndpoint>,
    pub default_output: Option<u32>,
}

impl DeviceCatalog {
    /// The input-capable endpoints, in the order the subsystem reported them.
    pub fn get_input_devices(&self) -> (r: Vec<AJInputDevice>)
        ensures
            input_entries(r@) == inputs_of(self.endpoints@),
    {
        let mut r: Vec<AJInputDevice> = Vec::new();
        let mut i: usize = 0;
        while i < self.endpoints.len()
            invariant
                i <= self.endpoints@.len(),
                input_entries(r@) == inputs_of(self.endpoints@.subrange(0, i as int)),
            decreases self.endpoints@.len() - i,
        {
            let e = &self.endpoints[i];
            assert(self.endpoints@.subrange(0, i + 1).drop_last() =~= self.endpoints@.subrange(
                0,
                i as int,
            ));
            if e.max_input_channels > 0 {
                let d = AJInputDevice {
                    name: e.name.clone(),
                    dev_index: e.index,
                    channels: e.max_input_channels,
                };
                let ghost before = r@;
                r.push(d);
                assert(input_entries(r@) =~= input_entries(before).push(d@));
            }
            i = i + 1;
        }
        assert(self.endpoints@.subrange(0, self.endpoints@.len() as int) =~= self.endpoints@);
        r
    }

    /// The output-capable endpoints, in the order the subsystem reported them.
    pub fn get_output_devices(&self) -> (r: Vec<AJOutputDevice>)
        ensures
            output_entries(r@) == outputs_of(self.endpoints@),
    {
        let mut r: Vec<AJOutputDevice> = Vec::new();
        let mut i: usize = 0;
        while i < self.endpoints.len()
            invariant
                i <= self.endpoints@.len(),
                output_entries(r@) == outputs_of(self.endpoints@.subrange(0, i as int)),
            decreases self.endpoints@.len() - i,
        {
            let e = &self.endpoints[i];
            assert(self.endpoints@.subrange(0, i + 1).drop_last() =~= self.endpoints@.subrange(
                0,
                i as int,
            ));
            if e.max_output_channels > 0 {
                let d = AJOutputDevice {
                    name: e.name.clone(),
                    dev_index: e.index,
                    channels: e.max_output_channels,
                };
                let ghost before = r@;
                r.push(d);
                assert(output_entries(r@) =~= output_entries(before).push(d@));
            }
            i = i + 1;
        }
        assert(self.endpoints@.subrange(0, self.endpoints@.len() as int) =~= self.endpoints@);
        r
    }

    /// The designated default output; `DeviceUnavailable` when none is
    /// configured or its handle is not in this snapshot.
    pub fn get_default_output_device(&self) -> (r: Result<AJOutputDevice, EngineError>)
        ensures
            match r {
                Ok(d) => exists|k: int|
                    {
                        &&& 0 <= k < self.endpoints@.len()
                        &&& self.default_output == Some(self.endpoints@[k].index)
                        &&& d@ == output_entry(self.endpoints@[k])
                        &&& forall|j: int| 0 <= j < k ==> self.endpoints@[j].index != self.endpoints@[k].index
                    },
                Err(e) => {
                    &&& e == EngineError::DeviceUnavailable
                    &&& forall|j: int|
                        0 <= j < self.endpoints@.len() ==> self.default_output != Some(
                            self.endpoints@[j].index,
                        )
                },
            },
    {
        let idx = match self.default_output {
            None => return Err(EngineError::DeviceUnavailable),
            Some(idx) => idx,
        };
        let mut i: usize = 0;
        while i < self.endpoints.len()
            invariant
                i <= self.endpoints@.len(),
                self.default_output == Some(idx),
                forall|j: int| 0 <= j < i ==> self.endpoints@[j].index != idx,
            decreases self.endpoints@.len() - i,
        {
            let e = &self.endpoints[i];
            if e.index == idx {
                return Ok(
                    AJOutputDevice {
                        name: e.name.clone(),
                        dev_index: e.index,
                        channels: e.max_output_channels,
                    },
                );
            }
            i = i + 1;
        }
        Err(EngineError::DeviceUnavailable)
    }
}

/// Finds the first input device with the given name.
pub fn find_input_device(devices: &Vec<AJInputDevice>, name: &String) -> (r: Result<
    usize,
    EngineError,
>)
    ensures
        match r {
            Ok(k) => is_first_named(input_entries(devices@), name@, k as int),
            Err(e) => e == EngineError::DeviceNotFound && forall|j: int|
                0 <= j < devices@.len() ==> devices@[j].name@ != name@,
        },
{
    let mut i: usize = 0;
    while i < devices.len()
        invariant
            i <= devices@.len(),
            forall|j: int| 0 <= j < i ==> devices@[j].name@ != name@,
        decreases devices@.len() - i,
    {
        if devices[i].name == *name {
            return Ok(i);
        }
        i = i + 1;
    }
    Err(EngineError::DeviceNotFound)
}

/// Finds the first output device with the given name.
pub fn find_output_device(devices: &Vec<AJOutputDevice>, name: &String) -> (r: Result<
    usize,
    EngineError,
>)
    ensures
        match r {
            Ok(k) => is_first_named(output_entries(devices@), name@, k as int),
            Err(e) => e == EngineError::DeviceNotFound && forall|j: int|
                0 <= j < devices@.len() ==> devices@[j].name@ != name@,
        },
{
    let mut i: usize = 0;
    while i < devices.len()
        invariant
            i <= devices@.len(),
            forall|j: int| 0 <= j < i ==> devices@[j].name@ != name@,
        decreases devices@.len() - i,
    {
        if devices[i].name == *name {
            return Ok(i);
        }
        i = i + 1;
    }
    Err(EngineError::DeviceNotFound)
}

/// Each input entry comes from an input-capable endpoint, and each
/// input-capable endpoint gives an entry.
pub proof fn lemma_inputs_members(eps: Seq<AudioEndpoint>)
    ensures
        forall|k: int|
            0 <= k < inputs_of(eps).len() ==> exists|j: int|
                0 <= j < eps.len() && eps[j].max_input_channels > 0 && #[trigger] inputs_of(eps)[k]
                    == input_entry(eps[j]),
        forall|j: int|
            0 <= j < eps.len() && #[trigger] eps[j].max_input_channels > 0 ==> exists|k: int|
                0 <= k < inputs_of(eps).len() && inputs_of(eps)[k] == input_entry(eps[j]),
    decreases eps.len(),
{
    if eps.len() > 0 {
        let prev = eps.drop_last();
        lemma_inputs_members(prev);
        let n = eps.len() - 1;
        assert forall|j: int| 0 <= j < eps.len() && #[trigger] eps[j].max_input_channels > 0 implies exists|k: int|
            0 <= k < inputs_of(eps).len() && inputs_of(eps)[k] == input_entry(eps[j]) by {
            if j < n {
                assert(prev[j] == eps[j]);
                let k = choose|k: int| 0 <= k < inputs_of(prev).len() && inputs_of(prev)[k] == input_entry(prev[j]);
                assert(inputs_of(eps)[k] == input_entry(eps[j]));
            } else {
                assert(inputs_of(eps)[inputs_of(eps).len() - 1] == input_entry(eps[j]));
            }
        }
        assert forall|k: int| 0 <= k < inputs_of(eps).len() implies exists|j: int|
            0 <= j < eps.len() && eps[j].max_input_channels > 0 && #[trigger] inputs_of(eps)[k]
                == input_entry(eps[j]) by {
            if k < inputs_of(prev).len() {
                assert(inputs_of(eps)[k] == inputs_of(prev)[k]);
                let j = choose|j: int| 0 <= j < prev.len() && prev[j].max_input_channels > 0 && inputs_of(prev)[k] == input_entry(prev[j]);
                assert(eps[j] == prev[j]);
            } else {
                assert(inputs_of(eps)[k] == input_entry(eps[n]));
            }
        }
    }
}

/// Each output entry comes from an output-capable endpoint, and each
/// output-capable endpoint gives an entry.
pub proof fn lemma_outputs_members(eps: Seq<AudioEndpoint>)
    ensures
        forall|k: int|
            0 <= k < outputs_of(eps).len() ==> exists|j: int|
                0 <= j < eps.len() && eps[j].max_output_channels > 0 && #[trigger] outputs_of(eps)[k]
                    == output_entry(eps[j]),
        forall|j: int|
            0 <= j < eps.len() && #[trigger] eps[j].max_output_channels > 0 ==> exists|k: int|
                0 <= k < outputs_of(eps).len() && outputs_of(eps)[k] == output_entry(eps[j]),
    decreases eps.len(),
{
    if eps.len() > 0 {
        let prev = eps.drop_last();
        lemma_outputs_members(prev);
        let n = eps.len() - 1;
        assert forall|j: int| 0 <= j < eps.len() && #[trigger] eps[j].max_output_channels > 0 implies exists|k: int|
            0 <= k < outputs_of(eps).len() && outputs_of(eps)[k] == output_entry(eps[j]) by {
            if j < n {
                assert(prev[j] == eps[j]);
                let k = choose|k: int| 0 <= k < outputs_of(prev).len() && outputs_of(prev)[k] == output_entry(prev[j]);
                assert(outputs_of(eps)[k] == output_entry(eps[j]));
            } else {
                assert(outputs_of(eps)[outputs_of(eps).len() - 1] == output_entry(eps[j]));
            }
        }
        assert forall|k: int| 0 <= k < outputs_of(eps).len() implies exists|j: int|
            0 <= j < eps.len() && eps[j].max_output_channels > 0 && #[trigger] outputs_of(eps)[k]
                == output_entry(eps[j]) by {
            if k < outputs_of(prev).len() {
                assert(outputs_of(eps)[k] == outputs_of(prev)[k]);
                let j = choose|j: int| 0 <= j < prev.len() && prev[j].max_output_channels > 0 && outputs_of(prev)[k] == output_entry(prev[j]);
                assert(eps[j] == prev[j]);
            } else {
                assert(outputs_of(eps)[k] == output_entry(eps[n]));
            }
        }
    }
}

/// An endpoint shows up in both the input and the output list exactly when
/// it supports at least one channel in each direction.
pub proof fn lemma_dual_role(eps: Seq<AudioEndpoint>, j: int)
    requires
        indices_unique(eps),
        0 <= j < eps.len(),
    ensures
        ((exists|a: int| 0 <= a < inputs_of(eps).len() && inputs_of(eps)[a].dev_index == eps[j].index)
            && (exists|b: int|
            0 <= b < outputs_of(eps).len() && outputs_of(eps)[b].dev_index == eps[j].index))
            <==> (eps[j].max_input_channels > 0 && eps[j].max_output_channels > 0),
{
    lemma_inputs_members(eps);
    lemma_outputs_members(eps);
    if exists|a: int| 0 <= a < inputs_of(eps).len() && inputs_of(eps)[a].dev_index == eps[j].index {
        let a = choose|a: int| 0 <= a < inputs_of(eps).len() && inputs_of(eps)[a].dev_index == eps[j].index;
        let ja = choose|ja: int| 0 <= ja < eps.len() && eps[ja].max_input_channels > 0 && inputs_of(eps)[a] == input_entry(eps[ja]);
        assert(ja == j);
    }
    if exists|b: int| 0 <= b < outputs_of(eps).len() && outputs_of(eps)[b].dev_index == eps[j].index {
        let b = choose|b: int| 0 <= b < outputs_of(eps).len() && outputs_of(eps)[b].dev_index == eps[j].index;
        let jb = choose|jb: int| 0 <= jb < eps.len() && eps[jb].max_output_channels > 0 && outputs_of(eps)[b] == output_entry(eps[jb]);
        assert(jb == j);
    }
    if eps[j].max_input_channels > 0 && eps[j].max_output_channels > 0 {
        let a = choose|a: int| 0 <= a < inputs_of(eps).len() && inputs_of(eps)[a] == input_entry(eps[j]);
        let b = choose|b: int| 0 <= b < outputs_of(eps).len() && outputs_of(eps)[b] == output_entry(eps[j]);
        assert(inputs_of(eps)[a].dev_index == eps[j].index);
        assert(outputs_of(eps)[b].dev_index == eps[j].index);
    }
}

/// Negotiated operating parameters of a duplex stream. The sample rate and
/// the gain are carried through unchanged: the engine hands them to the
/// subsystem and to the output stage, and never computes with them.
#[derive(Clone, Copy, Debug)]
pub struct AJConfig<R, G> {
    pub sample_rate: R,
    pub channels: u32,
    pub frames: u32,
    pub volume: G,
}

impl<R, G> AJConfig<R, G> {
    /// At least one channel and at least one frame per cycle.
    pub open spec fn wf(&self) -> bool {
        self.channels >= 1 && self.frames > 0
    }
}

/// The lesser of the two devices' channel counts.
pub open spec fn common_channels(input: DeviceEntry, output: DeviceEntry) -> int {
    if input.channels <= output.channels {
        input.channels as int
    } else {
        output.channels as int
    }
}

/// The channel count both devices can serve; `IncompatibleDevices` when it
/// would be zero.
pub fn channel_count(input: &AJInputDevice, output: &AJOutputDevice) -> (r: Result<
    u32,
    EngineError,
>)
    ensures
        match r {
            Ok(c) => common_channels(input@, output@) > 0 && c as int == common_channels(
                input@,
                output@,
            ),
            Err(e) => common_channels(input@, output@) <= 0 && e
                == EngineError::IncompatibleDevices,
        },
{
    let c = if input.channels <= output.channels {
        input.channels
    } else {
        output.channels
    };
    if c <= 0 {
        Err(EngineError::IncompatibleDevices)
    } else {
        Ok(c as u32)
    }
}

/// Builds the duplex format for two devices. `duplex_supported` is the
/// subsystem's answer to whether it accepts both devices' low-latency
/// parameters at this rate and at the channel count that `channel_count`
/// gives; it is asked only after that count is known to be positive. A
/// zero frame count is refused as an unsupported format.
pub fn negotiate<R: Copy, G: Copy>(
    input: &AJInputDevice,
    output: &AJOutputDevice,
    sample_rate: R,
    frames: u32,
    volume: G,
    duplex_supported: bool,
) -> (r: Result<AJConfig<R, G>, EngineError>)
    ensures
        common_channels(input@, output@) <= 0 ==> r == Err::<AJConfig<R, G>, EngineError>(
            EngineError::IncompatibleDevices,
        ),
        common_channels(input@, output@) > 0 && (!duplex_supported || frames == 0) ==> r == Err::<
            AJConfig<R, G>,
            EngineError,
        >(EngineError::UnsupportedFormat),
        common_channels(input@, output@) > 0 && duplex_supported && frames > 0 ==> (r matches Ok(
            c,
        ) && c.channels as int == common_channels(input@, output@) && c.frames == frames
            && c.sample_rate == sample_rate && c.volume == volume && c.wf()),
{
    let channels = match channel_count(input, output) {
        Ok(c) => c,
        Err(e) => return Err(e),
    };
    if !duplex_supported || frames == 0 {
        return Err(EngineError::UnsupportedFormat);
    }
    Ok(AJConfig { sample_rate, channels, frames, volume })
}

} // verus!
