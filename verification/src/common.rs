//! The data model shared by both ends of the agent channel.
//!
//! Every type comes with a mathematical model, reached with `@`, in which
//! strings are sequences of characters and vectors are sequences. Contracts
//! throughout the crate speak of these models, and `clone` keeps them.

use vstd::prelude::*;

verus! {

/// Fingerprint of a HyperDeck recorder, as read from its `device info` reply.
#[derive(Debug, PartialEq, Eq)]
pub struct HyperDeckDetails {
    pub model_name: String,
    pub protocol_version: String,
    pub unique_id: String,
}

/// Mathematical model of [`HyperDeckDetails`].
pub struct HyperDeckDetailsModel {
    pub model_name: Seq<char>,
    pub protocol_version: Seq<char>,
    pub unique_id: Seq<char>,
}

impl View for HyperDeckDetails {
    type V = HyperDeckDetailsModel;

    open spec fn view(&self) -> HyperDeckDetailsModel {
        HyperDeckDetailsModel {
            model_name: self.model_name@,
            protocol_version: self.protocol_version@,
            unique_id: self.unique_id@,
        }
    }
}

impl DeepView for HyperDeckDetails {
    type V = HyperDeckDetailsModel;

    open spec fn deep_view(&self) -> HyperDeckDetailsModel {
        self@
    }
}

impl Clone for HyperDeckDetails {
    fn clone(&self) -> (copy: Self)
        ensures
            copy@ == self@,
    {
        HyperDeckDetails {
            model_name: self.model_name.clone(),
            protocol_version: self.protocol_version.clone(),
            unique_id: self.unique_id.clone(),
        }
    }
}

/// A vendor-protocol reply as it travels from an agent to the hub.
#[derive(Debug, PartialEq, Eq)]
pub struct HyperDeckCommandResponse {
    pub code: i32,
    pub text: String,
    pub payload: Option<String>,
}

/// Mathematical model of [`HyperDeckCommandResponse`].
pub struct HyperDeckCommandResponseModel {
    pub code: i32,
    pub text: Seq<char>,
    pub payload: Option<Seq<char>>,
}

impl View for HyperDeckCommandResponse {
    type V = HyperDeckCommandResponseModel;

    open spec fn view(&self) -> HyperDeckCommandResponseModel {
        HyperDeckCommandResponseModel {
            code: self.code,
            text: self.text@,
            payload: self.payload.deep_view(),
        }
    }
}

impl DeepView for HyperDeckCommandResponse {
    type V = HyperDeckCommandResponseModel;

    open spec fn deep_view(&self) -> HyperDeckCommandResponseModel {
        self@
    }
}

impl Clone for HyperDeckCommandResponse {
    fn clone(&self) -> (copy: Self)
        ensures
            copy@ == self@,
    {
        HyperDeckCommandResponse {
            code: self.code,
            text: self.text.clone(),
            payload: self.payload.clone(),
        }
    }
}

/// Vendor-specific fingerprint of a network device.
#[derive(Debug, PartialEq, Eq)]
pub enum NetworkDeviceDetails {
    HyperDeckDetails(HyperDeckDetails),
}

/// Mathematical model of [`NetworkDeviceDetails`].
pub enum NetworkDeviceDetailsModel {
    HyperDeckDetails(HyperDeckDetailsModel),
}

impl View for NetworkDeviceDetails {
    type V = NetworkDeviceDetailsModel;

    open spec fn view(&self) -> NetworkDeviceDetailsModel {
        match self {
            NetworkDeviceDetails::HyperDeckDetails(details) => {
                NetworkDeviceDetailsModel::HyperDeckDetails(details@)
            },
        }
    }
}

impl DeepView for NetworkDeviceDetails {
    type V = NetworkDeviceDetailsModel;

    open spec fn deep_view(&self) -> NetworkDeviceDetailsModel {
        self@
    }
}

impl Clone for NetworkDeviceDetails {
    fn clone(&self) -> (copy: Self)
        ensures
            copy@ == self@,
    {
        match self {
            NetworkDeviceDetails::HyperDeckDetails(details) => {
                NetworkDeviceDetails::HyperDeckDetails(details.clone())
            },
        }
    }
}

/// A device seen on the LAN. `details` stays unset until a probe of the
/// device has succeeded.
#[derive(Debug, PartialEq, Eq)]
pub struct NetworkDevice {
    pub ip_address: String,
    pub mac_address: String,
    pub details: Option<NetworkDeviceDetails>,
}

/// Mathematical model of [`NetworkDevice`].
pub struct NetworkDeviceModel {
    pub ip_address: Seq<char>,
    pub mac_address: Seq<char>,
    pub details: Option<NetworkDeviceDetailsModel>,
}

impl View for NetworkDevice {
    type V = NetworkDeviceModel;

    open spec fn view(&self) -> NetworkDeviceModel {
        NetworkDeviceModel {
            ip_address: self.ip_address@,
            mac_address: self.mac_address@,
            details: self.details.deep_view(),
        }
    }
}

impl DeepView for NetworkDevice {
    type V = NetworkDeviceModel;

    open spec fn deep_view(&self) -> NetworkDeviceModel {
        self@
    }
}

impl Clone for NetworkDevice {
    fn clone(&self) -> (copy: Self)
        ensures
            copy@ == self@,
    {
        NetworkDevice {
            ip_address: self.ip_address.clone(),
            mac_address: self.mac_address.clone(),
            details: self.details.clone(),
        }
    }
}

/// A display mode as the capture-card SDK names it.
#[derive(Debug, PartialEq, Eq)]
pub struct DeckLinkDisplayMode {
    pub id: i32,
    pub name: String,
}

/// Mathematical model of [`DeckLinkDisplayMode`].
pub struct DeckLinkDisplayModeModel {
    pub id: i32,
    pub name: Seq<char>,
}

impl View for DeckLinkDisplayMode {
    type V = DeckLinkDisplayModeModel;

    open spec fn view(&self) -> DeckLinkDisplayModeModel {
        DeckLinkDisplayModeModel {
            id: self.id,
            name: self.name@,
        }
    }
}

impl DeepView for DeckLinkDisplayMode {
    type V = DeckLinkDisplayModeModel;

    open spec fn deep_view(&self) -> DeckLinkDisplayModeModel {
        self@
    }
}

impl Clone for DeckLinkDisplayMode {
    fn clone(&self) -> (copy: Self)
        ensures
            copy@ == self@,
    {
        DeckLinkDisplayMode {
            id: self.id,
            name: self.name.clone(),
        }
    }
}

/// Directions in which a card can move video.
#[derive(Clone, Copy, Debug, PartialEq, Eq)]
pub struct DeckLinkVideoIOSupport {
    pub capture: bool,
    pub playback: bool,
}

impl View for DeckLinkVideoIOSupport {
    type V = DeckLinkVideoIOSupport;

    open spec fn view(&self) -> DeckLinkVideoIOSupport {
        *self
    }
}

impl DeepView for DeckLinkVideoIOSupport {
    type V = DeckLinkVideoIOSupport;

    open spec fn deep_view(&self) -> DeckLinkVideoIOSupport {
        *self
    }
}

/// Input side of a card: the display modes it can capture.
#[derive(Debug, PartialEq, Eq)]
pub struct DeckLinkDeviceInput {
    pub display_modes: Vec<DeckLinkDisplayMode>,
}

/// Mathematical model of [`DeckLinkDeviceInput`].
pub struct DeckLinkDeviceInputModel {
    pub display_modes: Seq<DeckLinkDisplayModeModel>,
}

impl View for DeckLinkDeviceInput {
    type V = DeckLinkDeviceInputModel;

    open spec fn view(&self) -> DeckLinkDeviceInputModel {
        DeckLinkDeviceInputModel {
            display_modes: self.display_modes.deep_view(),
        }
    }
}

impl DeepView for DeckLinkDeviceInput {
    type V = DeckLinkDeviceInputModel;

    open spec fn deep_view(&self) -> DeckLinkDeviceInputModel {
        self@
    }
}

impl Clone for DeckLinkDeviceInput {
    fn clone(&self) -> (copy: Self)
        ensures
            copy@ == self@,
    {
        let display_modes = self.display_modes.clone();
        assert(display_modes.deep_view() =~= self.display_modes.deep_view());
        DeckLinkDeviceInput {
            display_modes,
        }
    }
}

/// Output side of a card: the display modes it can play.
#[derive(Debug, PartialEq, Eq)]
pub struct DeckLinkDeviceOutput {
    pub display_modes: Vec<DeckLinkDisplayMode>,
}

/// Mathematical model of [`DeckLinkDeviceOutput`].
pub struct DeckLinkDeviceOutputModel {
    pub display_modes: Seq<DeckLinkDisplayModeModel>,
}

impl View for DeckLinkDeviceOutput {
    type V = DeckLinkDeviceOutputModel;

    open spec fn view(&self) -> DeckLinkDeviceOutputModel {
        DeckLinkDeviceOutputModel {
            display_modes: self.display_modes.deep_view(),
        }
    }
}

impl DeepView for DeckLinkDeviceOutput {
    type V = DeckLinkDeviceOutputModel;

    open spec fn deep_view(&self) -> DeckLinkDeviceOutputModel {
        self@
    }
}

impl Clone for DeckLinkDeviceOutput {
    fn clone(&self) -> (copy: Self)
        ensures
            copy@ == self@,
    {
        let display_modes = self.display_modes.clone();
        assert(display_modes.deep_view() =~= self.display_modes.deep_view());
        DeckLinkDeviceOutput {
            display_modes,
        }
    }
}

/// Which parts of a card are in use.
#[derive(Clone, Copy, Debug, PartialEq, Eq)]
pub struct DeckLinkDeviceBusyState {
    pub capture_busy: bool,
    pub playback_busy: bool,
    pub serial_port_busy: bool,
}

impl View for DeckLinkDeviceBusyState {
    type V = DeckLinkDeviceBusyState;

    open spec fn view(&self) -> DeckLinkDeviceBusyState {
        *self
    }
}

impl DeepView for DeckLinkDeviceBusyState {
    type V = DeckLinkDeviceBusyState;

    open spec fn deep_view(&self) -> DeckLinkDeviceBusyState {
        *self
    }
}

/// Live status of a card. A field is `None` when the SDK did not answer
/// that query, which is not the same as a negative answer.
#[derive(Debug, PartialEq, Eq)]
pub struct DeckLinkDeviceStatus {
    pub video_input_signal_locked: Option<bool>,
    pub reference_signal_locked: Option<bool>,
    pub received_edid: Option<bool>,
    pub detected_video_input_mode: Option<DeckLinkDisplayMode>,
    pub current_video_input_mode: Option<DeckLinkDisplayMode>,
    pub current_video_output_mode: Option<DeckLinkDisplayMode>,
    pub pci_express_link_width: Option<i32>,
    pub pci_express_link_speed: Option<i32>,
    pub busy: Option<DeckLinkDeviceBusyState>,
    pub device_temperature: Option<i32>,
}

/// Mathematical model of [`DeckLinkDeviceStatus`].
pub struct DeckLinkDeviceStatusModel {
    pub video_input_signal_locked: Option<bool>,
    pub reference_signal_locked: Option<bool>,
    pub received_edid: Option<bool>,
    pub detected_video_input_mode: Option<DeckLinkDisplayModeModel>,
    pub current_video_input_mode: Option<DeckLinkDisplayModeModel>,
    pub current_video_output_mode: Option<DeckLinkDisplayModeModel>,
    pub pci_express_link_width: Option<i32>,
    pub pci_express_link_speed: Option<i32>,
    pub busy: Option<DeckLinkDeviceBusyState>,
    pub device_temperature: Option<i32>,
}

impl View for DeckLinkDeviceStatus {
    type V = DeckLinkDeviceStatusModel;

    open spec fn view(&self) -> DeckLinkDeviceStatusModel {
        DeckLinkDeviceStatusModel {
            video_input_signal_locked: self.video_input_signal_locked,
            reference_signal_locked: self.reference_signal_locked,
            received_edid: self.received_edid,
            detected_video_input_mode: self.detected_video_input_mode.deep_view(),
            current_video_input_mode: self.current_video_input_mode.deep_view(),
            current_video_output_mode: self.current_video_output_mode.deep_view(),
            pci_express_link_width: self.pci_express_link_width,
            pci_express_link_speed: self.pci_express_link_speed,
            busy: self.busy,
            device_temperature: self.device_temperature,
        }
    }
}

impl DeepView for DeckLinkDeviceStatus {
    type V = DeckLinkDeviceStatusModel;

    open spec fn deep_view(&self) -> DeckLinkDeviceStatusModel {
        self@
    }
}

impl Clone for DeckLinkDeviceStatus {
    fn clone(&self) -> (copy: Self)
        ensures
            copy@ == self@,
    {
        DeckLinkDeviceStatus {
            video_input_signal_locked: self.video_input_signal_locked,
            reference_signal_locked: self.reference_signal_locked,
            received_edid: self.received_edid,
            detected_video_input_mode: self.detected_video_input_mode.clone(),
            current_video_input_mode: self.current_video_input_mode.clone(),
            current_video_output_mode: self.current_video_output_mode.clone(),
            pci_express_link_width: self.pci_express_link_width,
            pci_express_link_speed: self.pci_express_link_speed,
            busy: self.busy,
            device_temperature: self.device_temperature,
        }
    }
}

/// Static capabilities of a card. Every field is optional on its own: `None`
/// means that the SDK returned nothing for it. The six gain limits are carried
/// as the bit patterns of their double-precision readings, so that two
/// snapshots compare exactly.
#[derive(Debug, PartialEq, Eq)]
pub struct DeckLinkDeviceAttributes {
    pub supports_internal_keying: Option<bool>,
    pub supports_external_keying: Option<bool>,
    pub supports_hd_keying: Option<bool>,
    pub supports_input_format_detection: Option<bool>,
    pub has_reference_input: Option<bool>,
    pub has_serial_port: Option<bool>,
    pub has_analog_video_output_gain: Option<bool>,
    pub can_only_adjust_overall_video_output_gain: Option<bool>,
    pub has_video_input_antialiasing_filter: Option<bool>,
    pub has_bypass: Option<bool>,
    pub supports_clock_timing_adjustment: Option<bool>,
    pub supports_full_duplex: Option<bool>,
    pub supports_full_frame_reference_input_timing_offset: Option<bool>,
    pub supports_smpte_level_a_output: Option<bool>,
    pub supports_dual_link_sdi: Option<bool>,
    pub supports_quad_link_sdi: Option<bool>,
    pub supports_idle_output: Option<bool>,
    pub has_ltc_timecode_input: Option<bool>,
    pub supports_duplex_mode_configuration: Option<bool>,
    pub supports_hdr_metadata: Option<bool>,
    pub supports_colorspace_metadata: Option<bool>,
    pub maximum_audio_channels: Option<i32>,
    pub maximum_analog_audio_input_channels: Option<i32>,
    pub maximum_analog_audio_output_channels: Option<i32>,
    pub number_of_subdevices: Option<i32>,
    pub subdevice_index: Option<i32>,
    pub persistent_id: Option<i32>,
    pub device_group_id: Option<i32>,
    pub topological_id: Option<i32>,
    pub video_io_support: Option<DeckLinkVideoIOSupport>,
    pub audio_input_rca_channel_count: Option<i32>,
    pub audio_input_xlr_channel_count: Option<i32>,
    pub audio_output_rca_channel_count: Option<i32>,
    pub audio_output_xlr_channel_count: Option<i32>,
    pub paired_device_persistent_id: Option<i32>,
    /// Gain limit in decibels, held as the bit pattern of its IEEE 754
    /// double-precision reading.
    pub video_input_gain_minimum: Option<u64>,
    pub video_input_gain_maximum: Option<u64>,
    pub video_output_gain_minimum: Option<u64>,
    pub video_output_gain_maximum: Option<u64>,
    pub microphone_input_gain_minimum: Option<u64>,
    pub microphone_input_gain_maximum: Option<u64>,
    pub serial_port_device_name: Option<String>,
    pub vendor_name: Option<String>,
    pub display_name: Option<String>,
    pub model_name: Option<String>,
    pub device_handle: Option<String>,
}

/// Mathematical model of [`DeckLinkDeviceAttributes`].
pub struct DeckLinkDeviceAttributesModel {
    pub supports_internal_keying: Option<bool>,
    pub supports_external_keying: Option<bool>,
    pub supports_hd_keying: Option<bool>,
    pub supports_input_format_detection: Option<bool>,
    pub has_reference_input: Option<bool>,
    pub has_serial_port: Option<bool>,
    pub has_analog_video_output_gain: Option<bool>,
    pub can_only_adjust_overall_video_output_gain: Option<bool>,
    pub has_video_input_antialiasing_filter: Option<bool>,
    pub has_bypass: Option<bool>,
    pub supports_clock_timing_adjustment: Option<bool>,
    pub supports_full_duplex: Option<bool>,
    pub supports_full_frame_reference_input_timing_offset: Option<bool>,
    pub supports_smpte_level_a_output: Option<bool>,
    pub supports_dual_link_sdi: Option<bool>,
    pub supports_quad_link_sdi: Option<bool>,
    pub supports_idle_output: Option<bool>,
    pub has_ltc_timecode_input: Option<bool>,
    pub supports_duplex_mode_configuration: Option<bool>,
    pub supports_hdr_metadata: Option<bool>,
    pub supports_colorspace_metadata: Option<bool>,
    pub maximum_audio_channels: Option<i32>,
    pub maximum_analog_audio_input_channels: Option<i32>,
    pub maximum_analog_audio_output_channels: Option<i32>,
    pub number_of_subdevices: Option<i32>,
    pub subdevice_index: Option<i32>,
    pub persistent_id: Option<i32>,
    pub device_group_id: Option<i32>,
    pub topological_id: Option<i32>,
    pub video_io_support: Option<DeckLinkVideoIOSupport>,
    pub audio_input_rca_channel_count: Option<i32>,
    pub audio_input_xlr_channel_count: Option<i32>,
    pub audio_output_rca_channel_count: Option<i32>,
    pub audio_output_xlr_channel_count: Option<i32>,
    pub paired_device_persistent_id: Option<i32>,
    pub video_input_gain_minimum: Option<u64>,
    pub video_input_gain_maximum: Option<u64>,
    pub video_output_gain_minimum: Option<u64>,
    pub video_output_gain_maximum: Option<u64>,
    pub microphone_input_gain_minimum: Option<u64>,
    pub microphone_input_gain_maximum: Option<u64>,
    pub serial_port_device_name: Option<Seq<char>>,
    pub vendor_name: Option<Seq<char>>,
    pub display_name: Option<Seq<char>>,
    pub model_name: Option<Seq<char>>,
    pub device_handle: Option<Seq<char>>,
}

impl View for DeckLinkDeviceAttributes {
    type V = DeckLinkDeviceAttributesModel;

    open spec fn view(&self) -> DeckLinkDeviceAttributesModel {
        DeckLinkDeviceAttributesModel {
            supports_internal_keying: self.supports_internal_keying,
            supports_external_keying: self.supports_external_keying,
            supports_hd_keying: self.supports_hd_keying,
            supports_input_format_detection: self.supports_input_format_detection,
            has_reference_input: self.has_reference_input,
            has_serial_port: self.has_serial_port,
            has_analog_video_output_gain: self.has_analog_video_output_gain,
            can_only_adjust_overall_video_output_gain: self.can_only_adjust_overall_video_output_gain,
            has_video_input_antialiasing_filter: self.has_video_input_antialiasing_filter,
            has_bypass: self.has_bypass,
            supports_clock_timing_adjustment: self.supports_clock_timing_adjustment,
            supports_full_duplex: self.supports_full_duplex,
            supports_full_frame_reference_input_timing_offset: self.supports_full_frame_reference_input_timing_offset,
            supports_smpte_level_a_output: self.supports_smpte_level_a_output,
            supports_dual_link_sdi: self.supports_dual_link_sdi,
            supports_quad_link_sdi: self.supports_quad_link_sdi,
            supports_idle_output: self.supports_idle_output,
            has_ltc_timecode_input: self.has_ltc_timecode_input,
            supports_duplex_mode_configuration: self.supports_duplex_mode_configuration,
            supports_hdr_metadata: self.supports_hdr_metadata,
            supports_colorspace_metadata: self.supports_colorspace_metadata,
            maximum_audio_channels: self.maximum_audio_channels,
            maximum_analog_audio_input_channels: self.maximum_analog_audio_input_channels,
            maximum_analog_audio_output_channels: self.maximum_analog_audio_output_channels,
            number_of_subdevices: self.number_of_subdevices,
            subdevice_index: self.subdevice_index,
            persistent_id: self.persistent_id,
            device_group_id: self.device_group_id,
            topological_id: self.topological_id,
            video_io_support: self.video_io_support,
            audio_input_rca_channel_count: self.audio_input_rca_channel_count,
            audio_input_xlr_channel_count: self.audio_input_xlr_channel_count,
            audio_output_rca_channel_count: self.audio_output_rca_channel_count,
            audio_output_xlr_channel_count: self.audio_output_xlr_channel_count,
            paired_device_persistent_id: self.paired_device_persistent_id,
            video_input_gain_minimum: self.video_input_gain_minimum,
            video_input_gain_maximum: self.video_input_gain_maximum,
            video_output_gain_minimum: self.video_output_gain_minimum,
            video_output_gain_maximum: self.video_output_gain_maximum,
            microphone_input_gain_minimum: self.microphone_input_gain_minimum,
            microphone_input_gain_maximum: self.microphone_input_gain_maximum,
            serial_port_device_name: self.serial_port_device_name.deep_view(),
            vendor_name: self.vendor_name.deep_view(),
            display_name: self.display_name.deep_view(),
            model_name: self.model_name.deep_view(),
            device_handle: self.device_handle.deep_view(),
        }
    }
}

impl DeepView for DeckLinkDeviceAttributes {
    type V = DeckLinkDeviceAttributesModel;

    open spec fn deep_view(&self) -> DeckLinkDeviceAttributesModel {
        self@
    }
}

impl Clone for DeckLinkDeviceAttributes {
    fn clone(&self) -> (copy: Self)
        ensures
            copy@ == self@,
    {
        DeckLinkDeviceAttributes {
            supports_internal_keying: self.supports_internal_keying,
            supports_external_keying: self.supports_external_keying,
            supports_hd_keying: self.supports_hd_keying,
            supports_input_format_detection: self.supports_input_format_detection,
            has_reference_input: self.has_reference_input,
            has_serial_port: self.has_serial_port,
            has_analog_video_output_gain: self.has_analog_video_output_gain,
            can_only_adjust_overall_video_output_gain: self.can_only_adjust_overall_video_output_gain,
            has_video_input_antialiasing_filter: self.has_video_input_antialiasing_filter,
            has_bypass: self.has_bypass,
            supports_clock_timing_adjustment: self.supports_clock_timing_adjustment,
            supports_full_duplex: self.supports_full_duplex,
            supports_full_frame_reference_input_timing_offset: self.supports_full_frame_reference_input_timing_offset,
            supports_smpte_level_a_output: self.supports_smpte_level_a_output,
            supports_dual_link_sdi: self.supports_dual_link_sdi,
            supports_quad_link_sdi: self.supports_quad_link_sdi,
            supports_idle_output: self.supports_idle_output,
            has_ltc_timecode_input: self.has_ltc_timecode_input,
            supports_duplex_mode_configuration: self.supports_duplex_mode_configuration,
            supports_hdr_metadata: self.supports_hdr_metadata,
            supports_colorspace_metadata: self.supports_colorspace_metadata,
            maximum_audio_channels: self.maximum_audio_channels,
            maximum_analog_audio_input_channels: self.maximum_analog_audio_input_channels,
            maximum_analog_audio_output_channels: self.maximum_analog_audio_output_channels,
            number_of_subdevices: self.number_of_subdevices,
            subdevice_index: self.subdevice_index,
            persistent_id: self.persistent_id,
            device_group_id: self.device_group_id,
            topological_id: self.topological_id,
            video_io_support: self.video_io_support,
            audio_input_rca_channel_count: self.audio_input_rca_channel_count,
            audio_input_xlr_channel_count: self.audio_input_xlr_channel_count,
            audio_output_rca_channel_count: self.audio_output_rca_channel_count,
            audio_output_xlr_channel_count: self.audio_output_xlr_channel_count,
            paired_device_persistent_id: self.paired_device_persistent_id,
            video_input_gain_minimum: self.video_input_gain_minimum,
            video_input_gain_maximum: self.video_input_gain_maximum,
            video_output_gain_minimum: self.video_output_gain_minimum,
            video_output_gain_maximum: self.video_output_gain_maximum,
            microphone_input_gain_minimum: self.microphone_input_gain_minimum,
            microphone_input_gain_maximum: self.microphone_input_gain_maximum,
            serial_port_device_name: self.serial_port_device_name.clone(),
            vendor_name: self.vendor_name.clone(),
            display_name: self.display_name.clone(),
            model_name: self.model_name.clone(),
            device_handle: self.device_handle.clone(),
        }
    }
}

/// One locally attached capture or playback card.
#[derive(Debug, PartialEq, Eq)]
pub struct DeckLinkDevice {
    pub model_name: String,
    pub attributes: DeckLinkDeviceAttributes,
    pub input: DeckLinkDeviceInput,
    pub output: DeckLinkDeviceOutput,
    pub status: DeckLinkDeviceStatus,
}

/// Mathematical model of [`DeckLinkDevice`].
pub struct DeckLinkDeviceModel {
    pub model_name: Seq<char>,
    pub attributes: DeckLinkDeviceAttributesModel,
    pub input: DeckLinkDeviceInputModel,
    pub output: DeckLinkDeviceOutputModel,
    pub status: DeckLinkDeviceStatusModel,
}

impl View for DeckLinkDevice {
    type V = DeckLinkDeviceModel;

    open spec fn view(&self) -> DeckLinkDeviceModel {
        DeckLinkDeviceModel {
            model_name: self.model_name@,
            attributes: self.attributes@,
            input: self.input@,
            output: self.output@,
            status: self.status@,
        }
    }
}

impl DeepView for DeckLinkDevice {
    type V = DeckLinkDeviceModel;

    open spec fn deep_view(&self) -> DeckLinkDeviceModel {
        self@
    }
}

impl Clone for DeckLinkDevice {
    fn clone(&self) -> (copy: Self)
        ensures
            copy@ == self@,
    {
        DeckLinkDevice {
            model_name: self.model_name.clone(),
            attributes: self.attributes.clone(),
            input: self.input.clone(),
            output: self.output.clone(),
            status: self.status.clone(),
        }
    }
}

/// Everything an agent can see: a full snapshot, never a delta.
#[derive(Debug, PartialEq, Eq)]
pub struct AgentState {
    pub network_devices: Vec<NetworkDevice>,
    pub decklink_devices: Vec<DeckLinkDevice>,
}

/// Mathematical model of [`AgentState`].
pub struct AgentStateModel {
    pub network_devices: Seq<NetworkDeviceModel>,
    pub decklink_devices: Seq<DeckLinkDeviceModel>,
}

impl View for AgentState {
    type V = AgentStateModel;

    open spec fn view(&self) -> AgentStateModel {
        AgentStateModel {
            network_devices: self.network_devices.deep_view(),
            decklink_devices: self.decklink_devices.deep_view(),
        }
    }
}

impl DeepView for AgentState {
    type V = AgentStateModel;

    open spec fn deep_view(&self) -> AgentStateModel {
        self@
    }
}

impl Clone for AgentState {
    fn clone(&self) -> (copy: Self)
        ensures
            copy@ == self@,
    {
        let network_devices = self.network_devices.clone();
        assert(network_devices.deep_view() =~= self.network_devices.deep_view());
        let decklink_devices = self.decklink_devices.clone();
        assert(decklink_devices.deep_view() =~= self.decklink_devices.deep_view());
        AgentState {
            network_devices,
            decklink_devices,
        }
    }
}

/// The envelope carried in both directions over the agent channel.
#[derive(Debug, PartialEq, Eq)]
pub enum Message {
    /// Full snapshot of what an agent sees; agent to hub.
    AgentState { id: String, state: AgentState },
    /// Open an interactive shell; hub to agent.
    ShellInit { id: String },
    /// Close an interactive shell; hub to agent.
    ShellClose { id: String },
    /// Bytes a shell wrote to its standard output or error; agent to hub.
    ShellOutput { id: String, bytes: Vec<u8> },
    /// Bytes for a shell's standard input; hub to agent.
    ShellInput { id: String, bytes: Vec<u8> },
    /// A vendor-protocol command to relay to a device; hub to agent.
    HyperDeckCommand { id: String, ip_address: String, command: String },
    /// The relayed command failed; agent to hub.
    HyperDeckCommandError { id: String, description: String },
    /// The device's reply to a relayed command; agent to hub.
    HyperDeckCommandResponse { id: String, response: HyperDeckCommandResponse },
}

/// Mathematical model of [`Message`].
pub enum MessageModel {
    AgentState { id: Seq<char>, state: AgentStateModel },
    ShellInit { id: Seq<char> },
    ShellClose { id: Seq<char> },
    ShellOutput { id: Seq<char>, bytes: Seq<u8> },
    ShellInput { id: Seq<char>, bytes: Seq<u8> },
    HyperDeckCommand { id: Seq<char>, ip_address: Seq<char>, command: Seq<char> },
    HyperDeckCommandError { id: Seq<char>, description: Seq<char> },
    HyperDeckCommandResponse { id: Seq<char>, response: HyperDeckCommandResponseModel },
}

impl View for Message {
    type V = MessageModel;

    open spec fn view(&self) -> MessageModel {
        match self {
            Message::AgentState { id, state } => MessageModel::AgentState {
                id: id@,
                state: state@,
            },
            Message::ShellInit { id } => MessageModel::ShellInit { id: id@ },
            Message::ShellClose { id } => MessageModel::ShellClose { id: id@ },
            Message::ShellOutput { id, bytes } => MessageModel::ShellOutput {
                id: id@,
                bytes: bytes@,
            },
            Message::ShellInput { id, bytes } => MessageModel::ShellInput {
                id: id@,
                bytes: bytes@,
            },
            Message::HyperDeckCommand { id, ip_address, command } => {
                MessageModel::HyperDeckCommand {
                    id: id@,
                    ip_address: ip_address@,
                    command: command@,
                }
            },
            Message::HyperDeckCommandError { id, description } => {
                MessageModel::HyperDeckCommandError { id: id@, description: description@ }
            },
            Message::HyperDeckCommandResponse { id, response } => {
                MessageModel::HyperDeckCommandResponse { id: id@, response: response@ }
            },
        }
    }
}

impl DeepView for Message {
    type V = MessageModel;

    open spec fn deep_view(&self) -> MessageModel {
        self@
    }
}

impl Clone for Message {
    fn clone(&self) -> (copy: Self)
        ensures
            copy@ == self@,
    {
        match self {
            Message::AgentState { id, state } => Message::AgentState {
                id: id.clone(),
                state: state.clone(),
            },
            Message::ShellInit { id } => Message::ShellInit { id: id.clone() },
            Message::ShellClose { id } => Message::ShellClose { id: id.clone() },
            Message::ShellOutput { id, bytes } => Message::ShellOutput {
                id: id.clone(),
                bytes: bytes.clone(),
            },
            Message::ShellInput { id, bytes } => Message::ShellInput {
                id: id.clone(),
                bytes: bytes.clone(),
            },
            Message::HyperDeckCommand { id, ip_address, command } => Message::HyperDeckCommand {
                id: id.clone(),
                ip_address: ip_address.clone(),
                command: command.clone(),
            },
            Message::HyperDeckCommandError { id, description } => Message::HyperDeckCommandError {
                id: id.clone(),
                description: description.clone(),
            },
            Message::HyperDeckCommandResponse { id, response } => {
                Message::HyperDeckCommandResponse { id: id.clone(), response: response.clone() }
            },
        }
    }
}

impl Message {
    /// The identifier that the message carries: an agent, a shell or a request.
    pub open spec fn spec_id(&self) -> Seq<char> {
        match self {
            Message::AgentState { id, .. } => id@,
            Message::ShellInit { id } => id@,
            Message::ShellClose { id } => id@,
            Message::ShellOutput { id, .. } => id@,
            Message::ShellInput { id, .. } => id@,
            Message::HyperDeckCommand { id, .. } => id@,
            Message::HyperDeckCommandError { id, .. } => id@,
            Message::HyperDeckCommandResponse { id, .. } => id@,
        }
    }

    /// The identifier that the message carries: an agent, a shell or a request.
    pub fn id(&self) -> (id: &String)
        ensures
            id@ == self.spec_id(),
    {
        match self {
            Message::AgentState { id, .. } => id,
            Message::ShellInit { id } => id,
            Message::ShellClose { id } => id,
            Message::ShellOutput { id, .. } => id,
            Message::ShellInput { id, .. } => id,
            Message::HyperDeckCommand { id, .. } => id,
            Message::HyperDeckCommandError { id, .. } => id,
            Message::HyperDeckCommandResponse { id, .. } => id,
        }
    }
}

} // verus!
