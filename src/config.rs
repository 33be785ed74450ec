use vstd::prelude::*;
use crate::device::{
    find_input_device, find_output_device, inputs_of, is_first_named, outputs_of, AJConfig, AJInputDevice, AJOutputDevice, DeviceCatalog,
    EngineError,
};

verus! {

/// Channels a fresh configuration asks for.
pub const DEFAULT_CHANNELS: u32 = 2;

/// Frames per transport cycle in a fresh configuration.
pub const DEFAULT_FRAMES: u32 = 256;

/// The devices chosen at setup, by name.
#[derive(Clone, Debug)]
pub struct AJDeviceConfig {
    pub input_device: String,
    pub output_device: String,
}

/// Everything kept between runs: the chosen devices and the stream format.
#[derive(Clone, Debug)]
pub struct AJFileConfig<R, G> {
    pub devices: AJDeviceConfig,
    pub sound: AJConfig<R, G>,
}

/// A fresh stream format: two channels, 256 frames per cycle, the given
/// rate and gain.
pub fn generate_config<R, G>(sample_rate: R, volume: G) -> (r: AJConfig<R, G>)
    ensures
        r.sample_rate == sample_rate,
        r.volume == volume,
        r.channels == DEFAULT_CHANNELS,
        r.frames == DEFAULT_FRAMES,
        r.wf(),
{
    AJConfig { sample_rate, channels: DEFAULT_CHANNELS, frames: DEFAULT_FRAMES, volume }
}

/// Records the devices picked by their displayed positions in the two lists;
/// a position past the end of its list gives `DeviceNotFound`.
pub fn select_device_config(
    inputs: &Vec<AJInputDevice>,
    outputs: &Vec<AJOutputDevice>,
    input_index: usize,
    output_index: usize,
) -> (r: Result<AJDeviceConfig, EngineError>)
    ensures
        r is Ok <==> (input_index < inputs@.len() && output_index < outputs@.len()),
        match r {
            Ok(c) => c.input_device@ == inputs@[input_index as int].name@ && c.output_device@
                == outputs@[output_index as int].name@,
            Err(e) => e == EngineError::DeviceNotFound,
        },
{
    if input_index >= inputs.len() || output_index >= outputs.len() {
        return Err(EngineError::DeviceNotFound);
    }
    Ok(
        AJDeviceConfig {
            input_device: inputs[input_index].name.clone(),
            output_device: outputs[output_index].name.clone(),
        },
    )
}

/// Some entry carries this name.
pub open spec fn has_named(es: Seq<crate::device::DeviceEntry>, name: Seq<char>) -> bool {
    exists|k: int| 0 <= k < es.len() && es[k].name == name
}

/// Finds the stored input and output device names in a catalog snapshot:
/// the first input-capable and the first output-capable endpoint of each
/// name. Either name missing gives `DeviceNotFound`.
pub fn resolve_devices(catalog: &DeviceCatalog, devices: &AJDeviceConfig) -> (r: Result<
    (AJInputDevice, AJOutputDevice),
    EngineError,
>)
    ensures
        r is Ok <==> (has_named(inputs_of(catalog.endpoints@), devices.input_device@) && has_named(
            outputs_of(catalog.endpoints@),
            devices.output_device@,
        )),
        match r {
            Ok((i, o)) => (exists|k: int|
                is_first_named(inputs_of(catalog.endpoints@), devices.input_device@, k) && i@
                    == inputs_of(catalog.endpoints@)[k]) && (exists|k: int|
                is_first_named(outputs_of(catalog.endpoints@), devices.output_device@, k) && o@
                    == outputs_of(catalog.endpoints@)[k]),
            Err(e) => e == EngineError::DeviceNotFound,
        },
{
    let inputs = catalog.get_input_devices();
    let outputs = catalog.get_output_devices();
    let ghost ins = inputs_of(catalog.endpoints@);
    let ghost outs = outputs_of(catalog.endpoints@);
    assert(ins.len() == inputs@.len());
    assert(outs.len() == outputs@.len());
    assert(forall|k: int| 0 <= k < inputs@.len() ==> #[trigger] ins[k] == inputs@[k]@);
    assert(forall|k: int| 0 <= k < outputs@.len() ==> #[trigger] outs[k] == outputs@[k]@);
    let ki = match find_input_device(&inputs, &devices.input_device) {
        Ok(k) => k,
        Err(e) => {
            assert(!has_named(ins, devices.input_device@));
            return Err(e);
        },
    };
    let ko = match find_output_device(&outputs, &devices.output_device) {
        Ok(k) => k,
        Err(e) => {
            assert(!has_named(outs, devices.output_device@));
            return Err(e);
        },
    };
    let i = AJInputDevice {
        name: inputs[ki].name.clone(),
        dev_index: inputs[ki].dev_index,
        channels: inputs[ki].channels,
    };
    let o = AJOutputDevice {
        name: outputs[ko].name.clone(),
        dev_index: outputs[ko].dev_index,
        channels: outputs[ko].channels,
    };
    assert(is_first_named(ins, devices.input_device@, ki as int));
    assert(is_first_named(outs, devices.output_device@, ko as int));
    Ok((i, o))
}

} // verus!
