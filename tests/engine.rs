use audio_jack::cmd::{parse_command, text_equals, CmdType};
use audio_jack::config::{
    generate_config, resolve_devices, select_device_config, AJDeviceConfig, AJFileConfig,
    DEFAULT_CHANNELS, DEFAULT_FRAMES,
};
use audio_jack::device::{
    channel_count, find_input_device, find_output_device, negotiate, AJConfig, AJInputDevice,
    AJOutputDevice, AudioEndpoint, DeviceCatalog, EngineError,
};
use audio_jack::ring::RingBuffer;
use audio_jack::transport::{
    passthrough, Availability, BufferedTransport, Plan, StreamWarning,
};

fn endpoint(index: u32, name: &str, ins: i32, outs: i32) -> AudioEndpoint {
    AudioEndpoint {
        index,
        name: name.to_string(),
        max_input_channels: ins,
        max_output_channels: outs,
    }
}

fn catalog() -> DeviceCatalog {
    DeviceCatalog {
        endpoints: vec![
            endpoint(0, "Mic A", 2, 0),
            endpoint(1, "Speakers B", 0, 2),
            endpoint(2, "Interface", 4, 6),
            endpoint(3, "Dead", 0, 0),
        ],
        default_output: Some(1),
    }
}

fn input(name: &str, channels: i32) -> AJInputDevice {
    AJInputDevice { name: name.to_string(), dev_index: 0, channels }
}

fn output(name: &str, channels: i32) -> AJOutputDevice {
    AJOutputDevice { name: name.to_string(), dev_index: 1, channels }
}

fn names_in(ds: &[AJInputDevice]) -> Vec<String> {
    ds.iter().map(|d| d.name.clone()).collect()
}

fn names_out(ds: &[AJOutputDevice]) -> Vec<String> {
    ds.iter().map(|d| d.name.clone()).collect()
}

#[test]
fn parse_command_long_and_short_forms() {
    assert_eq!(parse_command(Some("init")), CmdType::Init);
    assert_eq!(parse_command(Some("i")), CmdType::Init);
    assert_eq!(parse_command(Some("run")), CmdType::Run);
    assert_eq!(parse_command(Some("r")), CmdType::Run);
    assert_eq!(parse_command(Some("clean")), CmdType::Clean);
    assert_eq!(parse_command(Some("c")), CmdType::Clean);
    assert_eq!(parse_command(Some("help")), CmdType::Help);
}

#[test]
fn parse_command_missing_or_unknown_asks_for_help() {
    assert_eq!(parse_command(None), CmdType::Help);
    assert_eq!(parse_command(Some("")), CmdType::Help);
    assert_eq!(parse_command(Some("inits")), CmdType::Help);
    assert_eq!(parse_command(Some("RUN")), CmdType::Help);
}

#[test]
fn text_equals_compares_characters() {
    assert!(text_equals("abc", "abc"));
    assert!(!text_equals("abc", "abd"));
    assert!(!text_equals("ab", "abc"));
    assert!(text_equals("", ""));
}

#[test]
fn catalog_splits_by_direction_in_reported_order() {
    let c = catalog();
    let ins = c.get_input_devices();
    let outs = c.get_output_devices();
    assert_eq!(names_in(&ins), vec!["Mic A".to_string(), "Interface".to_string()]);
    assert_eq!(names_out(&outs), vec!["Speakers B".to_string(), "Interface".to_string()]);
    assert_eq!(ins[1].channels, 4);
    assert_eq!(ins[1].dev_index, 2);
    assert_eq!(outs[1].channels, 6);
    assert_eq!(outs[0].dev_index, 1);
}

#[test]
fn only_dual_role_devices_are_in_both_lists() {
    let c = catalog();
    let ins = c.get_input_devices();
    let outs = c.get_output_devices();
    let both: Vec<u32> = ins
        .iter()
        .filter(|i| outs.iter().any(|o| o.dev_index == i.dev_index))
        .map(|i| i.dev_index)
        .collect();
    assert_eq!(both, vec![2]);
    for e in &c.endpoints {
        let in_both = both.contains(&e.index);
        assert_eq!(in_both, e.max_input_channels > 0 && e.max_output_channels > 0);
    }
}

#[test]
fn empty_catalog_has_no_devices() {
    let c = DeviceCatalog { endpoints: vec![], default_output: None };
    assert!(c.get_input_devices().is_empty());
    assert!(c.get_output_devices().is_empty());
    assert_eq!(c.get_default_output_device().unwrap_err(), EngineError::DeviceUnavailable);
}

#[test]
fn default_output_is_found_by_handle() {
    let d = catalog().get_default_output_device().unwrap();
    assert_eq!(d.name, "Speakers B");
    assert_eq!(d.dev_index, 1);
    assert_eq!(d.channels, 2);
}

#[test]
fn default_output_missing_is_unavailable() {
    let mut c = catalog();
    c.default_output = None;
    assert_eq!(c.get_default_output_device().unwrap_err(), EngineError::DeviceUnavailable);
    c.default_output = Some(9);
    assert_eq!(c.get_default_output_device().unwrap_err(), EngineError::DeviceUnavailable);
}

#[test]
fn find_device_by_name_takes_first_match() {
    let ins = vec![input("Mic A", 1), input("Mic B", 2), input("Mic A", 3)];
    assert_eq!(find_input_device(&ins, &"Mic A".to_string()), Ok(0));
    assert_eq!(find_input_device(&ins, &"Mic B".to_string()), Ok(1));
    let outs = vec![output("Speakers B", 2)];
    assert_eq!(find_output_device(&outs, &"Speakers B".to_string()), Ok(0));
    assert_eq!(
        find_output_device(&outs, &"Mic A".to_string()),
        Err(EngineError::DeviceNotFound)
    );
}

#[test]
fn resolve_devices_finds_both_names() {
    let conf = AJDeviceConfig {
        input_device: "Interface".to_string(),
        output_device: "Speakers B".to_string(),
    };
    match resolve_devices(&catalog(), &conf) {
        Ok((i, o)) => {
            assert_eq!(i.name, "Interface");
            assert_eq!(i.channels, 4);
            assert_eq!(o.name, "Speakers B");
            assert_eq!(o.dev_index, 1);
        }
        Err(e) => panic!("unexpected {:?}", e),
    }
}

#[test]
fn nonexistent_device_is_not_found() {
    let conf = AJDeviceConfig {
        input_device: "Nonexistent Device".to_string(),
        output_device: "Speakers B".to_string(),
    };
    let r = resolve_devices(&catalog(), &conf);
    assert!(matches!(r, Err(EngineError::DeviceNotFound)));
    assert!(!matches!(r, Err(EngineError::UnsupportedFormat)));
    let conf = AJDeviceConfig {
        input_device: "Mic A".to_string(),
        output_device: "Nonexistent Device".to_string(),
    };
    assert!(matches!(resolve_devices(&catalog(), &conf), Err(EngineError::DeviceNotFound)));
}

#[test]
fn output_only_device_is_not_an_input() {
    let conf = AJDeviceConfig {
        input_device: "Speakers B".to_string(),
        output_device: "Speakers B".to_string(),
    };
    assert!(matches!(resolve_devices(&catalog(), &conf), Err(EngineError::DeviceNotFound)));
}

#[test]
fn channel_count_is_the_minimum() {
    assert_eq!(channel_count(&input("a", 3), &output("b", 2)), Ok(2));
    assert_eq!(channel_count(&input("a", 1), &output("b", 6)), Ok(1));
    assert_eq!(channel_count(&input("a", 2), &output("b", 2)), Ok(2));
    assert_eq!(
        channel_count(&input("a", 0), &output("b", 2)),
        Err(EngineError::IncompatibleDevices)
    );
    assert_eq!(
        channel_count(&input("a", 2), &output("b", 0)),
        Err(EngineError::IncompatibleDevices)
    );
}

#[test]
fn negotiate_over_pairs_uses_minimum_channels() {
    for ic in 0..5 {
        for oc in 0..5 {
            let r = negotiate(&input("a", ic), &output("b", oc), 48000.0f64, 128, 1.0f32, true);
            if ic == 0 || oc == 0 {
                assert_eq!(r.unwrap_err(), EngineError::IncompatibleDevices);
            } else {
                assert_eq!(r.unwrap().channels as i32, ic.min(oc));
            }
        }
    }
}

#[test]
fn negotiate_mic_a_to_speakers_b() {
    let c = negotiate(&input("Mic A", 2), &output("Speakers B", 2), 44100.0f64, 256, 0.5f32, true)
        .unwrap();
    assert_eq!(c.sample_rate, 44100.0);
    assert_eq!(c.frames, 256);
    assert_eq!(c.channels, 2);
    assert_eq!(c.volume, 0.5);

    let mut t: BufferedTransport<f32> = BufferedTransport::new(&c);
    let plan = t.plan_read(Availability::Frames(256));
    assert_eq!(plan, Plan { frames: 256, warning: None });
    let block = vec![1.0f32; 256 * 2];
    assert_eq!(t.accept_input(&block), Ok(()));
    let w = t.plan_write(Availability::Frames(256));
    assert_eq!(w.frames, 256);
    let out: Vec<f32> = t.take_output(w.frames).iter().map(|s| c.volume * s).collect();
    assert_eq!(out.len(), 512);
    assert!(out.iter().all(|s| *s == 0.5));
}

#[test]
fn negotiate_zero_input_channels_is_incompatible() {
    let r = negotiate(&input("Mute", 0), &output("Speakers B", 2), 44100.0f64, 256, 0.5f32, true);
    assert_eq!(r.unwrap_err(), EngineError::IncompatibleDevices);
    let r = negotiate(&input("Mute", 0), &output("Speakers B", 2), 44100.0f64, 256, 0.5f32, false);
    assert_eq!(r.unwrap_err(), EngineError::IncompatibleDevices);
}

#[test]
fn negotiate_unsupported_format() {
    let r = negotiate(&input("a", 2), &output("b", 2), 44100.0f64, 256, 0.5f32, false);
    assert_eq!(r.unwrap_err(), EngineError::UnsupportedFormat);
    let r = negotiate(&input("a", 2), &output("b", 2), 44100.0f64, 0, 0.5f32, true);
    assert_eq!(r.unwrap_err(), EngineError::UnsupportedFormat);
}

#[test]
fn generate_config_defaults() {
    let c = generate_config(44100.0f64, 0.25f32);
    assert_eq!(c.channels, 2);
    assert_eq!(c.frames, 256);
    assert_eq!(DEFAULT_CHANNELS, 2);
    assert_eq!(DEFAULT_FRAMES, 256);
    assert_eq!(c.sample_rate, 44100.0);
    assert_eq!(c.volume, 0.25);
    let f = AJFileConfig {
        devices: AJDeviceConfig { input_device: "x".to_string(), output_device: "y".to_string() },
        sound: c,
    };
    assert_eq!(f.sound.frames, 256);
}

#[test]
fn select_device_config_by_position() {
    let c = catalog();
    let ins = c.get_input_devices();
    let outs = c.get_output_devices();
    let d = select_device_config(&ins, &outs, 1, 0).unwrap();
    assert_eq!(d.input_device, "Interface");
    assert_eq!(d.output_device, "Speakers B");
    assert_eq!(
        select_device_config(&ins, &outs, 2, 0).unwrap_err(),
        EngineError::DeviceNotFound
    );
    assert_eq!(
        select_device_config(&ins, &outs, 0, 5).unwrap_err(),
        EngineError::DeviceNotFound
    );
}

#[test]
fn ring_buffer_is_fifo() {
    let mut r: RingBuffer<u32> = RingBuffer::new(8);
    assert_eq!(r.capacity(), 8);
    r.push_samples(&[1, 2, 3]);
    assert_eq!(r.pop_samples(2), vec![1, 2]);
    r.push_samples(&[4, 5, 6, 7, 8, 9]);
    assert_eq!(r.len(), 7);
    r.push_samples(&[10]);
    assert_eq!(r.len(), 8);
    assert_eq!(r.pop_samples(0), Vec::<u32>::new());
    assert_eq!(r.pop_samples(5), vec![3, 4, 5, 6, 7]);
    assert_eq!(r.pop_samples(3), vec![8, 9, 10]);
    assert_eq!(r.len(), 0);
}

#[test]
fn read_plan_is_bounded_by_room() {
    let c = generate_config(44100.0f64, 1.0f32);
    let mut t: BufferedTransport<i16> = BufferedTransport::new(&c);
    assert_eq!(t.channels(), 2);
    assert_eq!(t.plan_read(Availability::Frames(300)).frames, 256);
    assert_eq!(t.plan_read(Availability::Frames(0)).frames, 0);
    assert_eq!(t.accept_input(&vec![1i16; 200 * 2]), Ok(()));
    assert_eq!(t.plan_read(Availability::Frames(100)).frames, 56);
    assert_eq!(t.plan_write(Availability::Frames(500)).frames, 200);
    assert_eq!(t.plan_write(Availability::Frames(50)).frames, 50);
}

#[test]
fn accept_input_refuses_partial_frames_and_overfill() {
    let c = generate_config(44100.0f64, 1.0f32);
    let mut t: BufferedTransport<i16> = BufferedTransport::new(&c);
    assert_eq!(t.accept_input(&[1, 2, 3]), Err(EngineError::InvariantViolation));
    assert_eq!(t.accept_input(&vec![0i16; 258 * 2]), Err(EngineError::InvariantViolation));
    assert_eq!(t.plan_write(Availability::Frames(10)).frames, 0);
    assert_eq!(t.accept_input(&vec![0i16; 256 * 2]), Ok(()));
    assert_eq!(t.accept_input(&[1, 2]), Err(EngineError::InvariantViolation));
}

#[test]
fn warnings_are_reported_and_absorbed() {
    let c = generate_config(44100.0f64, 1.0f32);
    let mut t: BufferedTransport<u32> = BufferedTransport::new(&c);
    assert_eq!(t.accept_input(&[1, 2, 3, 4]), Ok(()));
    for _ in 0..50 {
        let r = t.plan_read(Availability::InputOverflowed);
        assert_eq!(r, Plan { frames: 0, warning: Some(StreamWarning::InputOverflowed) });
        let w = t.plan_write(Availability::OutputUnderflowed);
        assert_eq!(w, Plan { frames: 0, warning: Some(StreamWarning::OutputUnderflowed) });
        assert_eq!(t.take_output(w.frames), Vec::<u32>::new());
    }
    let r = t.plan_read(Availability::Frames(1));
    assert_eq!(r.frames, 1);
    assert_eq!(t.accept_input(&[5, 6]), Ok(()));
    let w = t.plan_write(Availability::Frames(8));
    assert_eq!(w.frames, 3);
    assert_eq!(t.take_output(w.frames), vec![1, 2, 3, 4, 5, 6]);
}

#[test]
fn gain_commutes_with_buffering() {
    let block: Vec<f32> = (0..16).map(|i| i as f32 - 4.0).collect();
    for g in [0.0f32, 0.5, 1.0] {
        let c = AJConfig { sample_rate: 44100.0f64, channels: 2, frames: 8, volume: g };
        let mut before: BufferedTransport<f32> = BufferedTransport::new(&c);
        let scaled: Vec<f32> = block.iter().map(|s| g * s).collect();
        assert_eq!(before.accept_input(&scaled), Ok(()));
        let a = before.take_output(8);
        let mut after: BufferedTransport<f32> = BufferedTransport::new(&c);
        assert_eq!(after.accept_input(&block), Ok(()));
        let b: Vec<f32> = after.take_output(8).iter().map(|s| g * s).collect();
        assert_eq!(a, b);
    }
}

#[test]
fn passthrough_copies_block() {
    let input = [1, 2, 3, 4, 5, 6];
    let mut output = [0; 6];
    assert_eq!(passthrough(&input, &mut output, 3, 3, 2), Ok(()));
    assert_eq!(output, input);
}

#[test]
fn passthrough_rejects_wrong_frame_count() {
    let input = [1, 2, 3, 4, 5, 6];
    let mut output = [9; 6];
    assert_eq!(passthrough(&input, &mut output, 3, 4, 2), Err(EngineError::InvariantViolation));
    assert_eq!(output, [9; 6]);
    assert_eq!(passthrough(&input, &mut output, 2, 2, 2), Err(EngineError::InvariantViolation));
    let mut short = [9; 4];
    assert_eq!(passthrough(&input, &mut short, 3, 3, 2), Err(EngineError::InvariantViolation));
}
