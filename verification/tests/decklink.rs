use blackmagic_c2::agent::decklink_watcher::{
    assemble_device, busy_state, collect_display_modes, lookup_mode, video_io_support,
    DeckLinkWatcher, DeviceReading, DisplayModeReading, StatusReading, POLL_INTERVAL_MS,
};
use blackmagic_c2::common::{
    DeckLinkDeviceAttributes, DeckLinkDeviceBusyState, DeckLinkDisplayMode, DeckLinkVideoIOSupport,
};

fn attributes() -> DeckLinkDeviceAttributes {
    DeckLinkDeviceAttributes {
        supports_internal_keying: Some(false),
        supports_external_keying: None,
        supports_hd_keying: Some(true),
        supports_input_format_detection: None,
        has_reference_input: None,
        has_serial_port: None,
        has_analog_video_output_gain: None,
        can_only_adjust_overall_video_output_gain: None,
        has_video_input_antialiasing_filter: None,
        has_bypass: None,
        supports_clock_timing_adjustment: None,
        supports_full_duplex: None,
        supports_full_frame_reference_input_timing_offset: None,
        supports_smpte_level_a_output: None,
        supports_dual_link_sdi: None,
        supports_quad_link_sdi: None,
        supports_idle_output: None,
        has_ltc_timecode_input: None,
        supports_duplex_mode_configuration: None,
        supports_hdr_metadata: None,
        supports_colorspace_metadata: None,
        maximum_audio_channels: Some(0),
        maximum_analog_audio_input_channels: None,
        maximum_analog_audio_output_channels: None,
        number_of_subdevices: Some(4),
        subdevice_index: None,
        persistent_id: None,
        device_group_id: None,
        topological_id: None,
        video_io_support: Some(video_io_support(3)),
        audio_input_rca_channel_count: None,
        audio_input_xlr_channel_count: None,
        audio_output_rca_channel_count: None,
        audio_output_xlr_channel_count: None,
        paired_device_persistent_id: None,
        video_input_gain_minimum: Some((-12.5f64).to_bits()),
        video_input_gain_maximum: Some(0f64.to_bits()),
        video_output_gain_minimum: None,
        video_output_gain_maximum: None,
        microphone_input_gain_minimum: None,
        microphone_input_gain_maximum: None,
        serial_port_device_name: None,
        vendor_name: Some("Blackmagic".to_string()),
        display_name: Some(String::new()),
        model_name: None,
        device_handle: None,
    }
}

fn status() -> StatusReading {
    StatusReading {
        video_input_signal_locked: Some(false),
        reference_signal_locked: None,
        received_edid: None,
        detected_video_input_mode: Some(2),
        current_video_input_mode: Some(7),
        current_video_output_mode: Some(2),
        pci_express_link_width: Some(4),
        pci_express_link_speed: None,
        busy: Some(5),
        device_temperature: Some(0),
    }
}

fn mode(id: u32, name: &str) -> DisplayModeReading {
    DisplayModeReading { id, name: Some(name.to_string()) }
}

fn reading() -> DeviceReading {
    DeviceReading {
        model_name: Some("DeckLink Duo".to_string()),
        input_modes: Some(vec![mode(1, "in one"), mode(2, "in two"), mode(2, "in two again")]),
        output_modes: Some(vec![mode(2, "out two"), DisplayModeReading { id: 3, name: None }]),
        attributes: Some(attributes()),
        status: Some(status()),
    }
}

#[test]
fn poll_interval_is_two_seconds() {
    assert_eq!(POLL_INTERVAL_MS, 2000);
}

#[test]
fn flags_are_decoded_bit_by_bit() {
    assert_eq!(
        busy_state(0),
        DeckLinkDeviceBusyState { capture_busy: false, playback_busy: false, serial_port_busy: false }
    );
    assert_eq!(
        busy_state(1),
        DeckLinkDeviceBusyState { capture_busy: true, playback_busy: false, serial_port_busy: false }
    );
    assert_eq!(
        busy_state(6),
        DeckLinkDeviceBusyState { capture_busy: false, playback_busy: true, serial_port_busy: true }
    );
    assert_eq!(
        busy_state(0xffff_fff8),
        DeckLinkDeviceBusyState { capture_busy: false, playback_busy: false, serial_port_busy: false }
    );
    assert_eq!(video_io_support(1), DeckLinkVideoIOSupport { capture: true, playback: false });
    assert_eq!(video_io_support(2), DeckLinkVideoIOSupport { capture: false, playback: true });
    assert_eq!(video_io_support(4), DeckLinkVideoIOSupport { capture: false, playback: false });
}

#[test]
fn display_modes_keep_their_order_and_get_empty_names() {
    let modes = collect_display_modes(&vec![
        mode(0x6e74_7363, "NTSC"),
        DisplayModeReading { id: 0xffff_ffff, name: None },
    ]);
    assert_eq!(
        modes,
        vec![
            DeckLinkDisplayMode { id: 0x6e74_7363, name: "NTSC".to_string() },
            DeckLinkDisplayMode { id: -1, name: String::new() },
        ]
    );
}

#[test]
fn lookup_gives_the_first_mode_with_the_identifier() {
    let modes = collect_display_modes(&vec![mode(1, "a"), mode(2, "b"), mode(2, "c")]);
    assert_eq!(lookup_mode(&modes, Some(2)).unwrap().name, "b");
    assert_eq!(lookup_mode(&modes, Some(3)), None);
    assert_eq!(lookup_mode(&modes, None), None);
    assert_eq!(lookup_mode(&Vec::new(), Some(1)), None);
}

#[test]
fn device_record_is_assembled_from_the_readings() {
    let device = assemble_device(&reading()).unwrap();
    assert_eq!(device.model_name, "DeckLink Duo");
    assert_eq!(device.attributes, attributes());
    assert_eq!(device.input.display_modes.len(), 3);
    assert_eq!(device.output.display_modes[1], DeckLinkDisplayMode { id: 3, name: String::new() });
    assert_eq!(device.status.video_input_signal_locked, Some(false));
    assert_eq!(device.status.reference_signal_locked, None);
    assert_eq!(device.status.detected_video_input_mode.unwrap().name, "in two");
    assert_eq!(device.status.current_video_input_mode, None);
    assert_eq!(device.status.pci_express_link_width, Some(4));
    assert_eq!(device.status.device_temperature, Some(0));
    assert_eq!(
        device.status.busy,
        Some(DeckLinkDeviceBusyState { capture_busy: true, playback_busy: false, serial_port_busy: true })
    );
}

#[test]
fn output_mode_is_looked_up_among_the_output_modes() {
    let device = assemble_device(&reading()).unwrap();
    assert_eq!(device.status.current_video_output_mode.unwrap().name, "out two");
    let mut other = reading();
    other.status = Some(StatusReading { current_video_output_mode: Some(1), ..status() });
    assert_eq!(assemble_device(&other).unwrap().status.current_video_output_mode, None);
    let mut third = reading();
    third.status = Some(StatusReading { current_video_output_mode: Some(3), ..status() });
    assert_eq!(
        assemble_device(&third).unwrap().status.current_video_output_mode,
        Some(DeckLinkDisplayMode { id: 3, name: String::new() })
    );
}

#[test]
fn unset_and_zero_stay_apart() {
    let device = assemble_device(&reading()).unwrap();
    assert_eq!(device.attributes.supports_internal_keying, Some(false));
    assert_eq!(device.attributes.supports_external_keying, None);
    assert_eq!(device.attributes.maximum_audio_channels, Some(0));
    assert_eq!(device.attributes.maximum_analog_audio_input_channels, None);
    assert_eq!(device.attributes.video_input_gain_maximum, Some(0));
    assert_eq!(device.attributes.video_output_gain_minimum, None);
    assert_eq!(device.attributes.display_name, Some(String::new()));
    assert_eq!(device.attributes.model_name, None);
    assert_eq!(
        device.attributes.video_input_gain_minimum.map(f64::from_bits),
        Some(-12.5)
    );
}

#[test]
fn device_with_a_failed_query_is_left_out() {
    let mut readings = Vec::new();
    readings.push(reading());
    readings.push(DeviceReading { input_modes: None, ..reading() });
    readings.push(DeviceReading { output_modes: None, ..reading() });
    readings.push(DeviceReading { attributes: None, ..reading() });
    readings.push(DeviceReading { status: None, ..reading() });
    readings.push(DeviceReading { model_name: None, ..reading() });
    for (index, one) in readings.iter().enumerate() {
        assert_eq!(assemble_device(one).is_some(), index == 0 || index == 5);
    }
    let state = DeckLinkWatcher::new().poll(&readings);
    assert_eq!(state.devices.len(), 2);
    assert_eq!(state.devices[0].model_name, "DeckLink Duo");
    assert_eq!(state.devices[1].model_name, "");
    assert!(DeckLinkWatcher::new().poll(&Vec::new()).devices.is_empty());
}
