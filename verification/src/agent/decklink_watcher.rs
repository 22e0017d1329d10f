//! Polling of the locally attached capture and playback cards.
//!
//! The runtime asks the card SDK and hands over what came back as plain
//! readings; this module turns the readings of one round into a snapshot.

use crate::common::{
    DeckLinkDevice, DeckLinkDeviceAttributes, DeckLinkDeviceBusyState, DeckLinkDeviceInput,
    DeckLinkDeviceModel, DeckLinkDeviceOutput, DeckLinkDeviceStatus, DeckLinkDeviceStatusModel,
    DeckLinkDisplayMode, DeckLinkDisplayModeModel, DeckLinkVideoIOSupport,
};
use vstd::prelude::*;

verus! {

/// Time between two polls of the local cards, in milliseconds.
pub const POLL_INTERVAL_MS: u64 = 2000;

/// Bit of the SDK's busy word that is set while the card captures.
pub const BUSY_CAPTURE: u32 = 1;

/// Bit of the SDK's busy word that is set while the card plays.
pub const BUSY_PLAYBACK: u32 = 2;

/// Bit of the SDK's busy word that is set while the serial port is in use.
pub const BUSY_SERIAL_PORT: u32 = 4;

/// Bit of the SDK's video I/O word that is set when the card can capture.
pub const VIDEO_IO_CAPTURE: u32 = 1;

/// Bit of the SDK's video I/O word that is set when the card can play.
pub const VIDEO_IO_PLAYBACK: u32 = 2;

/// Snapshot of the local cards, as delivered to the agent connection.
#[derive(Debug, PartialEq, Eq)]
pub struct DeckLinkState {
    pub devices: Vec<DeckLinkDevice>,
}

/// A display mode as the SDK's iterator yields it.
#[derive(Debug, PartialEq, Eq)]
pub struct DisplayModeReading {
    pub id: u32,
    /// `None` when the SDK could not name the mode.
    pub name: Option<String>,
}

/// Mathematical model of [`DisplayModeReading`].
pub struct DisplayModeReadingModel {
    pub id: u32,
    pub name: Option<Seq<char>>,
}

impl View for DisplayModeReading {
    type V = DisplayModeReadingModel;

    open spec fn view(&self) -> DisplayModeReadingModel {
        DisplayModeReadingModel { id: self.id, name: self.name.deep_view() }
    }
}

impl DeepView for DisplayModeReading {
    type V = DisplayModeReadingModel;

    open spec fn deep_view(&self) -> DisplayModeReadingModel {
        self@
    }
}

/// Answers to the status queries of one card. Mode fields hold the SDK's
/// mode identifier, `busy` its word of busy bits.
#[derive(Clone, Copy, Debug, PartialEq, Eq)]
pub struct StatusReading {
    pub video_input_signal_locked: Option<bool>,
    pub reference_signal_locked: Option<bool>,
    pub received_edid: Option<bool>,
    pub detected_video_input_mode: Option<u32>,
    pub current_video_input_mode: Option<u32>,
    pub current_video_output_mode: Option<u32>,
    pub pci_express_link_width: Option<i32>,
    pub pci_express_link_speed: Option<i32>,
    pub busy: Option<u32>,
    pub device_temperature: Option<i32>,
}

/// Everything one poll learned about one card. A field is `None` when that
/// query failed.
#[derive(Debug, PartialEq, Eq)]
pub struct DeviceReading {
    pub model_name: Option<String>,
    pub input_modes: Option<Vec<DisplayModeReading>>,
    pub output_modes: Option<Vec<DisplayModeReading>>,
    pub attributes: Option<DeckLinkDeviceAttributes>,
    pub status: Option<StatusReading>,
}

/// Mathematical model of [`DeviceReading`].
pub struct DeviceReadingModel {
    pub model_name: Option<Seq<char>>,
    pub input_modes: Option<Seq<DisplayModeReadingModel>>,
    pub output_modes: Option<Seq<DisplayModeReadingModel>>,
    pub attributes: Option<crate::common::DeckLinkDeviceAttributesModel>,
    pub status: Option<StatusReading>,
}

impl View for DeviceReading {
    type V = DeviceReadingModel;

    open spec fn view(&self) -> DeviceReadingModel {
        DeviceReadingModel {
            model_name: self.model_name.deep_view(),
            input_modes: self.input_modes.deep_view(),
            output_modes: self.output_modes.deep_view(),
            attributes: self.attributes.deep_view(),
            status: self.status,
        }
    }
}

impl DeepView for DeviceReading {
    type V = DeviceReadingModel;

    open spec fn deep_view(&self) -> DeviceReadingModel {
        self@
    }
}

/// The text of an optional name: empty when there is none.
pub open spec fn name_or_empty(name: Option<Seq<char>>) -> Seq<char> {
    match name {
        Some(text) => text,
        None => Seq::empty(),
    }
}

/// The display mode that a reading stands for.
pub open spec fn display_mode_of(reading: DisplayModeReadingModel) -> DeckLinkDisplayModeModel {
    DeckLinkDisplayModeModel { id: reading.id as i32, name: name_or_empty(reading.name) }
}

/// The display modes that a list of readings stands for, in the same order.
pub open spec fn display_modes_of(readings: Seq<DisplayModeReadingModel>) -> Seq<
    DeckLinkDisplayModeModel,
> {
    readings.map_values(|reading: DisplayModeReadingModel| display_mode_of(reading))
}

/// The first mode of `modes` with identifier `id`, if there is one.
pub open spec fn find_mode(modes: Seq<DeckLinkDisplayModeModel>, id: i32) -> Option<
    DeckLinkDisplayModeModel,
>
    decreases modes.len(),
{
    if modes.len() == 0 {
        None
    } else if modes[0].id == id {
        Some(modes[0])
    } else {
        find_mode(modes.drop_first(), id)
    }
}

/// The mode that an optional mode identifier from the SDK names in `modes`.
pub open spec fn resolve_mode(modes: Seq<DeckLinkDisplayModeModel>, id: Option<u32>) -> Option<
    DeckLinkDisplayModeModel,
> {
    match id {
        Some(id) => find_mode(modes, id as i32),
        None => None,
    }
}

/// What a word of busy bits says.
pub open spec fn busy_state_of(bits: u32) -> DeckLinkDeviceBusyState {
    DeckLinkDeviceBusyState {
        capture_busy: bits & BUSY_CAPTURE != 0,
        playback_busy: bits & BUSY_PLAYBACK != 0,
        serial_port_busy: bits & BUSY_SERIAL_PORT != 0,
    }
}

/// What a word of video I/O bits says.
pub open spec fn video_io_support_of(bits: u32) -> DeckLinkVideoIOSupport {
    DeckLinkVideoIOSupport {
        capture: bits & VIDEO_IO_CAPTURE != 0,
        playback: bits & VIDEO_IO_PLAYBACK != 0,
    }
}

/// The status record for a status reading. The input modes are looked up
/// among the card's input modes, the output mode among its output modes.
pub open spec fn status_of(
    reading: StatusReading,
    input_modes: Seq<DeckLinkDisplayModeModel>,
    output_modes: Seq<DeckLinkDisplayModeModel>,
) -> DeckLinkDeviceStatusModel {
    DeckLinkDeviceStatusModel {
        video_input_signal_locked: reading.video_input_signal_locked,
        reference_signal_locked: reading.reference_signal_locked,
        received_edid: reading.received_edid,
        detected_video_input_mode: resolve_mode(input_modes, reading.detected_video_input_mode),
        current_video_input_mode: resolve_mode(input_modes, reading.current_video_input_mode),
        current_video_output_mode: resolve_mode(output_modes, reading.current_video_output_mode),
        pci_express_link_width: reading.pci_express_link_width,
        pci_express_link_speed: reading.pci_express_link_speed,
        busy: match reading.busy {
            Some(bits) => Some(busy_state_of(bits)),
            None => None,
        },
        device_temperature: reading.device_temperature,
    }
}

/// Whether every query that a device record needs was answered. The model
/// name is not among them: a card without one is listed with an empty name.
pub open spec fn is_complete(reading: DeviceReadingModel) -> bool {
    &&& reading.input_modes is Some
    &&& reading.output_modes is Some
    &&& reading.attributes is Some
    &&& reading.status is Some
}

/// The device record for one reading; `None` when a query failed.
pub open spec fn device_of(reading: DeviceReadingModel) -> Option<DeckLinkDeviceModel> {
    if is_complete(reading) {
        let input_modes = display_modes_of(reading.input_modes->0);
        let output_modes = display_modes_of(reading.output_modes->0);
        Some(
            DeckLinkDeviceModel {
                model_name: name_or_empty(reading.model_name),
                attributes: reading.attributes->0,
                input: crate::common::DeckLinkDeviceInputModel { display_modes: input_modes },
                output: crate::common::DeckLinkDeviceOutputModel { display_modes: output_modes },
                status: status_of(reading.status->0, input_modes, output_modes),
            },
        )
    } else {
        None
    }
}

/// The device records for the readings of one round: those of the cards
/// that answered every query, in the order of the readings.
pub open spec fn devices_of(readings: Seq<DeviceReadingModel>) -> Seq<DeckLinkDeviceModel>
    decreases readings.len(),
{
    if readings.len() == 0 {
        Seq::empty()
    } else {
        let before = devices_of(readings.drop_last());
        match device_of(readings.last()) {
            Some(device) => before.push(device),
            None => before,
        }
    }
}

/// Decodes the SDK's word of busy bits.
pub fn busy_state(bits: u32) -> (state: DeckLinkDeviceBusyState)
    ensures
        state == busy_state_of(bits),
{
    DeckLinkDeviceBusyState {
        capture_busy: bits & BUSY_CAPTURE != 0,
        playback_busy: bits & BUSY_PLAYBACK != 0,
        serial_port_busy: bits & BUSY_SERIAL_PORT != 0,
    }
}

/// Decodes the SDK's word of video I/O bits.
pub fn video_io_support(bits: u32) -> (support: DeckLinkVideoIOSupport)
    ensures
        support == video_io_support_of(bits),
{
    DeckLinkVideoIOSupport {
        capture: bits & VIDEO_IO_CAPTURE != 0,
        playback: bits & VIDEO_IO_PLAYBACK != 0,
    }
}

fn text_or_empty(name: &Option<String>) -> (text: String)
    ensures
        text@ == name_or_empty(name.deep_view()),
{
    match name {
        Some(text) => text.clone(),
        None => String::new(),
    }
}

/// Turns the modes that an SDK iterator yielded into display modes, keeping
/// their order. A mode without a name gets the empty name.
pub fn collect_display_modes(readings: &Vec<DisplayModeReading>) -> (modes: Vec<
    DeckLinkDisplayMode,
>)
    ensures
        modes.deep_view() == display_modes_of(readings.deep_view()),
{
    let mut modes: Vec<DeckLinkDisplayMode> = Vec::new();
    let mut i: usize = 0;
    while i < readings.len()
        invariant
            i <= readings.len(),
            modes.len() == i,
            forall|k: int|
                0 <= k < i ==> (#[trigger] modes[k])@ == display_mode_of(readings[k]@),
        decreases readings.len() - i,
    {
        let reading = &readings[i];
        let mode = DeckLinkDisplayMode {
            id: #[verifier::truncate] (reading.id as i32),
            name: text_or_empty(&reading.name),
        };
        modes.push(mode);
        i += 1;
    }
    assert(modes.deep_view() =~= display_modes_of(readings.deep_view()));
    modes
}

proof fn lemma_find_mode_skip(modes: Seq<DeckLinkDisplayModeModel>, id: i32, i: int)
    requires
        0 <= i < modes.len(),
        modes[i].id != id,
    ensures
        find_mode(modes.skip(i), id) == find_mode(modes.skip(i + 1), id),
{
    assert(modes.skip(i).drop_first() =~= modes.skip(i + 1));
}

/// Looks a mode identifier up in a list of display modes: the first mode
/// with that identifier, if any.
pub fn lookup_mode(modes: &Vec<DeckLinkDisplayMode>, id: Option<u32>) -> (found: Option<
    DeckLinkDisplayMode,
>)
    ensures
        found.deep_view() == resolve_mode(modes.deep_view(), id),
{
    match id {
        None => None,
        Some(raw) => {
            let wanted = #[verifier::truncate] (raw as i32);
            let ghost all = modes.deep_view();
            let mut i: usize = 0;
            assert(all.skip(0) =~= all);
            while i < modes.len()
                invariant
                    i <= modes.len(),
                    all == modes.deep_view(),
                    id == Some(raw),
                    wanted == raw as i32,
                    find_mode(all, wanted) == find_mode(all.skip(i as int), wanted),
                decreases modes.len() - i,
            {
                if modes[i].id == wanted {
                    let found = modes[i].clone();
                    proof {
                        let rest = all.skip(i as int);
                        assert(rest.len() > 0);
                        assert(rest[0] == modes[i as int]@);
                        assert(rest[0].id == wanted);
                        assert(find_mode(rest, wanted) == Some(rest[0]));
                        assert(found@ == rest[0]);
                    }
                    return Some(found);
                }
                proof {
                    lemma_find_mode_skip(all, wanted, i as int);
                }
                i += 1;
            }
            assert(all.skip(i as int).len() == 0);
            None
        },
    }
}

/// Builds the status record of a card from its status reading and its two
/// lists of display modes.
pub fn device_status(
    reading: &StatusReading,
    input_modes: &Vec<DeckLinkDisplayMode>,
    output_modes: &Vec<DeckLinkDisplayMode>,
) -> (status: DeckLinkDeviceStatus)
    ensures
        status@ == status_of(*reading, input_modes.deep_view(), output_modes.deep_view()),
{
    DeckLinkDeviceStatus {
        video_input_signal_locked: reading.video_input_signal_locked,
        reference_signal_locked: reading.reference_signal_locked,
        received_edid: reading.received_edid,
        detected_video_input_mode: lookup_mode(input_modes, reading.detected_video_input_mode),
        current_video_input_mode: lookup_mode(input_modes, reading.current_video_input_mode),
        current_video_output_mode: lookup_mode(output_modes, reading.current_video_output_mode),
        pci_express_link_width: reading.pci_express_link_width,
        pci_express_link_speed: reading.pci_express_link_speed,
        busy: match reading.busy {
            Some(bits) => Some(busy_state(bits)),
            None => None,
        },
        device_temperature: reading.device_temperature,
    }
}

/// Builds the record of one card. A card for which the input modes, the
/// output modes, the attributes or the status could not be had is left out.
pub fn assemble_device(reading: &DeviceReading) -> (device: Option<DeckLinkDevice>)
    ensures
        device.deep_view() == device_of(reading@),
{
    let input_modes = match &reading.input_modes {
        Some(modes) => collect_display_modes(modes),
        None => { return None; },
    };
    let output_modes = match &reading.output_modes {
        Some(modes) => collect_display_modes(modes),
        None => { return None; },
    };
    let attributes = match &reading.attributes {
        Some(attributes) => attributes.clone(),
        None => { return None; },
    };
    let status = match &reading.status {
        Some(status) => device_status(status, &input_modes, &output_modes),
        None => { return None; },
    };
    Some(
        DeckLinkDevice {
            model_name: text_or_empty(&reading.model_name),
            attributes,
            input: DeckLinkDeviceInput { display_modes: input_modes },
            output: DeckLinkDeviceOutput { display_modes: output_modes },
            status,
        },
    )
}

/// The poller of the local cards.
#[derive(Debug)]
pub struct DeckLinkWatcher {}

impl DeckLinkWatcher {
    pub fn new() -> (watcher: Self) {
        DeckLinkWatcher {  }
    }

    /// Turns the readings of one polling round into the snapshot to deliver:
    /// one record for each card that answered every query, in the order in
    /// which the SDK listed the cards.
    pub fn poll(&self, readings: &Vec<DeviceReading>) -> (state: DeckLinkState)
        ensures
            state.devices.deep_view() == devices_of(readings.deep_view()),
    {
        let mut devices: Vec<DeckLinkDevice> = Vec::new();
        let ghost all = readings.deep_view();
        let mut i: usize = 0;
        while i < readings.len()
            invariant
                i <= readings.len(),
                all == readings.deep_view(),
                devices.deep_view() == devices_of(all.take(i as int)),
            decreases readings.len() - i,
        {
            let ghost before = devices.deep_view();
            let device = assemble_device(&readings[i]);
            proof {
                assert(all.take(i + 1).drop_last() =~= all.take(i as int));
                assert(all.take(i + 1).last() == readings[i as int]@);
            }
            match device {
                Some(device) => {
                    devices.push(device);
                    assert(devices.deep_view() =~= before.push(device@));
                },
                None => {},
            }
            i += 1;
        }
        assert(all.take(i as int) =~= all);
        DeckLinkState { devices }
    }
}

} // verus!
