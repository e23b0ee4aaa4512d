//! Events: what the daemon sends, and how a payload is read as one.
//!
//! Each kind of event has a fixed layout. The `spec_unmarshal_*` functions say
//! what a body means, byte by byte, and in which order its faults are
//! reported; the `unmarshal_*` functions compute exactly that.

use crate::addr::BdAddr;
use crate::enums::{
    BdAddrType, BluetoothControllerState, ClickType, ConnectionStatus,
    CreateConnectionChannelError, DisconnectReason, RemovedReason, ScanWizardResult, WireEnum,
};
use crate::error::{agrees, FlicError, UnmarshalError, UnmarshalErrorView};
use crate::wire::{
    check_sz, check_sz_at_least, load_bd_addr, load_bool, load_enum, load_field, load_i16,
    load_i64, load_i8, load_u16, load_u32, load_uuid, spec_i8, spec_load_bd_addr,
    spec_load_bool, spec_load_field, spec_load_i16, spec_load_i64, spec_load_u16, spec_load_u32,
    spec_load_uuid,
};
use vstd::prelude::*;
use vstd::slice::slice_subrange;
use vstd::string::StringExecFns;

verus! {

/// The byte that opens a payload and names the kind of event in it.
#[derive(Clone, Copy, Debug, PartialEq, Eq, Hash)]
pub enum Opcode {
    /// Opens a [`AdvertisementPacket`].
    AdvertisementPacket,
    /// Opens a [`CreateConnectionChannelResponse`].
    CreateConnectionChannelResponse,
    /// Opens a [`ConnectionStatusChanged`].
    ConnectionStatusChanged,
    /// Opens a [`ConnectionChannelRemoved`].
    ConnectionChannelRemoved,
    /// Opens a [`ButtonUpOrDown`].
    ButtonUpOrDown,
    /// Opens a [`ButtonClickOrHold`].
    ButtonClickOrHold,
    /// Opens a [`ButtonSingleOrDoubleClick`].
    ButtonSingleOrDoubleClick,
    /// Opens a [`ButtonSingleOrDoubleClickOrHold`].
    ButtonSingleOrDoubleClickOrHold,
    /// Opens a [`NewVerifiedButton`].
    NewVerifiedButton,
    /// Opens a [`GetInfoResponse`].
    GetInfoResponse,
    /// Opens a [`NoSpaceForNewConnection`].
    NoSpaceForNewConnection,
    /// Opens a [`GotSpaceForNewConnection`].
    GotSpaceForNewConnection,
    /// Opens a [`BluetoothControllerStateChange`].
    BluetoothControllerStateChange,
    /// Opens a [`PingResponse`].
    PingResponse,
    /// Opens a [`GetButtonInfoResponse`].
    GetButtonInfoResponse,
    /// Opens a [`ScanWizardFoundPrivateButton`].
    ScanWizardFoundPrivateButton,
    /// Opens a [`ScanWizardFoundPublicButton`].
    ScanWizardFoundPublicButton,
    /// Opens a [`ScanWizardButtonConnected`].
    ScanWizardButtonConnected,
    /// Opens a [`ScanWizardCompleted`].
    ScanWizardCompleted,
    /// Opens a [`ButtonDeleted`].
    ButtonDeleted,
    /// Opens a [`BatteryStatus`].
    BatteryStatus,
}

impl WireEnum for Opcode {
    open spec fn spec_to_u8(self) -> u8 {
        match self {
            Opcode::AdvertisementPacket => 0,
            Opcode::CreateConnectionChannelResponse => 1,
            Opcode::ConnectionStatusChanged => 2,
            Opcode::ConnectionChannelRemoved => 3,
            Opcode::ButtonUpOrDown => 4,
            Opcode::ButtonClickOrHold => 5,
            Opcode::ButtonSingleOrDoubleClick => 6,
            Opcode::ButtonSingleOrDoubleClickOrHold => 7,
            Opcode::NewVerifiedButton => 8,
            Opcode::GetInfoResponse => 9,
            Opcode::NoSpaceForNewConnection => 10,
            Opcode::GotSpaceForNewConnection => 11,
            Opcode::BluetoothControllerStateChange => 12,
            Opcode::PingResponse => 13,
            Opcode::GetButtonInfoResponse => 14,
            Opcode::ScanWizardFoundPrivateButton => 15,
            Opcode::ScanWizardFoundPublicButton => 16,
            Opcode::ScanWizardButtonConnected => 17,
            Opcode::ScanWizardCompleted => 18,
            Opcode::ButtonDeleted => 19,
            Opcode::BatteryStatus => 20,
        }
    }

    open spec fn spec_from_u8(v: u8) -> Option<Self> {
        if v == 0 {
            Some(Opcode::AdvertisementPacket)
        } else if v == 1 {
            Some(Opcode::CreateConnectionChannelResponse)
        } else if v == 2 {
            Some(Opcode::ConnectionStatusChanged)
        } else if v == 3 {
            Some(Opcode::ConnectionChannelRemoved)
        } else if v == 4 {
            Some(Opcode::ButtonUpOrDown)
        } else if v == 5 {
            Some(Opcode::ButtonClickOrHold)
        } else if v == 6 {
            Some(Opcode::ButtonSingleOrDoubleClick)
        } else if v == 7 {
            Some(Opcode::ButtonSingleOrDoubleClickOrHold)
        } else if v == 8 {
            Some(Opcode::NewVerifiedButton)
        } else if v == 9 {
            Some(Opcode::GetInfoResponse)
        } else if v == 10 {
            Some(Opcode::NoSpaceForNewConnection)
        } else if v == 11 {
            Some(Opcode::GotSpaceForNewConnection)
        } else if v == 12 {
            Some(Opcode::BluetoothControllerStateChange)
        } else if v == 13 {
            Some(Opcode::PingResponse)
        } else if v == 14 {
            Some(Opcode::GetButtonInfoResponse)
        } else if v == 15 {
            Some(Opcode::ScanWizardFoundPrivateButton)
        } else if v == 16 {
            Some(Opcode::ScanWizardFoundPublicButton)
        } else if v == 17 {
            Some(Opcode::ScanWizardButtonConnected)
        } else if v == 18 {
            Some(Opcode::ScanWizardCompleted)
        } else if v == 19 {
            Some(Opcode::ButtonDeleted)
        } else if v == 20 {
            Some(Opcode::BatteryStatus)
        } else {
            None
        }
    }

    proof fn lemma_from_to(self) {
    }

    proof fn lemma_to_from(v: u8) {
    }

    fn to_u8(&self) -> u8 {
        match self {
            Opcode::AdvertisementPacket => 0,
            Opcode::CreateConnectionChannelResponse => 1,
            Opcode::ConnectionStatusChanged => 2,
            Opcode::ConnectionChannelRemoved => 3,
            Opcode::ButtonUpOrDown => 4,
            Opcode::ButtonClickOrHold => 5,
            Opcode::ButtonSingleOrDoubleClick => 6,
            Opcode::ButtonSingleOrDoubleClickOrHold => 7,
            Opcode::NewVerifiedButton => 8,
            Opcode::GetInfoResponse => 9,
            Opcode::NoSpaceForNewConnection => 10,
            Opcode::GotSpaceForNewConnection => 11,
            Opcode::BluetoothControllerStateChange => 12,
            Opcode::PingResponse => 13,
            Opcode::GetButtonInfoResponse => 14,
            Opcode::ScanWizardFoundPrivateButton => 15,
            Opcode::ScanWizardFoundPublicButton => 16,
            Opcode::ScanWizardButtonConnected => 17,
            Opcode::ScanWizardCompleted => 18,
            Opcode::ButtonDeleted => 19,
            Opcode::BatteryStatus => 20,
        }
    }

    fn from_u8(v: u8) -> Option<Self> {
        match v {
            0 => Some(Opcode::AdvertisementPacket),
            1 => Some(Opcode::CreateConnectionChannelResponse),
            2 => Some(Opcode::ConnectionStatusChanged),
            3 => Some(Opcode::ConnectionChannelRemoved),
            4 => Some(Opcode::ButtonUpOrDown),
            5 => Some(Opcode::ButtonClickOrHold),
            6 => Some(Opcode::ButtonSingleOrDoubleClick),
            7 => Some(Opcode::ButtonSingleOrDoubleClickOrHold),
            8 => Some(Opcode::NewVerifiedButton),
            9 => Some(Opcode::GetInfoResponse),
            10 => Some(Opcode::NoSpaceForNewConnection),
            11 => Some(Opcode::GotSpaceForNewConnection),
            12 => Some(Opcode::BluetoothControllerStateChange),
            13 => Some(Opcode::PingResponse),
            14 => Some(Opcode::GetButtonInfoResponse),
            15 => Some(Opcode::ScanWizardFoundPrivateButton),
            16 => Some(Opcode::ScanWizardFoundPublicButton),
            17 => Some(Opcode::ScanWizardButtonConnected),
            18 => Some(Opcode::ScanWizardCompleted),
            19 => Some(Opcode::ButtonDeleted),
            20 => Some(Opcode::BatteryStatus),
            _ => None,
        }
    }
}

impl View for Opcode {
    type V = Opcode;

    open spec fn view(&self) -> Opcode {
        *self
    }
}

/// A button was heard advertising while one of this client's scanners was active.
#[derive(Debug, PartialEq, Eq)]
pub struct AdvertisementPacket {
    /// The scanner that heard it.
    pub scan_id: u32,
    /// The button's address.
    pub bd_addr: BdAddr,
    /// The name the button advertises.
    pub name: String,
    /// Signal strength in dBm; -127 when it is not known.
    pub rssi: i8,
    /// The button is in private mode and turns away clients it is not bonded to.
    pub is_private: bool,
    /// The daemon holds a bonding key for the button.
    pub already_verified: bool,
    /// The button is connected to this device.
    pub already_connected_to_this_device: bool,
    /// The button is connected to another device.
    pub already_connected_to_other_device: bool,
}

/// An [`AdvertisementPacket`] with its text as characters.
pub struct AdvertisementPacketView {
    pub scan_id: u32,
    pub bd_addr: BdAddr,
    pub name: Seq<char>,
    pub rssi: i8,
    pub is_private: bool,
    pub already_verified: bool,
    pub already_connected_to_this_device: bool,
    pub already_connected_to_other_device: bool,
}

impl View for AdvertisementPacket {
    type V = AdvertisementPacketView;

    open spec fn view(&self) -> AdvertisementPacketView {
        AdvertisementPacketView {
            scan_id: self.scan_id,
            bd_addr: self.bd_addr,
            name: self.name@,
            rssi: self.rssi,
            is_private: self.is_private,
            already_verified: self.already_verified,
            already_connected_to_this_device: self.already_connected_to_this_device,
            already_connected_to_other_device: self.already_connected_to_other_device,
        }
    }
}

/// The daemon's answer to a request for a connection channel.
#[derive(Clone, Copy, Debug, PartialEq, Eq)]
pub struct CreateConnectionChannelResponse {
    /// The channel asked for.
    pub conn_id: u32,
    /// Whether the channel was made.
    pub error: CreateConnectionChannelError,
    /// The link's status at that moment.
    pub connection_status: ConnectionStatus,
}

impl View for CreateConnectionChannelResponse {
    type V = CreateConnectionChannelResponse;

    open spec fn view(&self) -> CreateConnectionChannelResponse {
        *self
    }
}

/// The status of a channel's link changed.
#[derive(Clone, Copy, Debug, PartialEq, Eq)]
pub struct ConnectionStatusChanged {
    /// The channel.
    pub conn_id: u32,
    /// The new status.
    pub connection_status: ConnectionStatus,
    /// Why the link went down; meaningful only when the new status is `Disconnected`.
    pub disconnect_reason: DisconnectReason,
}

impl View for ConnectionStatusChanged {
    type V = ConnectionStatusChanged;

    open spec fn view(&self) -> ConnectionStatusChanged {
        *self
    }
}

/// A channel is gone; its identifier is free again.
#[derive(Clone, Copy, Debug, PartialEq, Eq)]
pub struct ConnectionChannelRemoved {
    /// The channel.
    pub conn_id: u32,
    /// Why it was removed.
    pub removed_reason: RemovedReason,
}

impl View for ConnectionChannelRemoved {
    type V = ConnectionChannelRemoved;

    open spec fn view(&self) -> ConnectionChannelRemoved {
        *self
    }
}

/// The layout that the four button events share.
#[derive(Clone, Copy, Debug, PartialEq, Eq)]
pub struct BaseButtonEvent {
    /// The channel the button is on.
    pub conn_id: u32,
    /// What happened to the button.
    pub click_type: ClickType,
    /// The event happened while the button was disconnected.
    pub was_queued: bool,
    /// For a queued event, how many seconds ago it happened.
    pub time_diff: u32,
}

impl View for BaseButtonEvent {
    type V = BaseButtonEvent;

    open spec fn view(&self) -> BaseButtonEvent {
        *self
    }
}

/// A press or a release. Carries only `ButtonUp` or `ButtonDown`.
#[derive(Clone, Copy, Debug, PartialEq, Eq)]
pub struct ButtonUpOrDown {
    /// The channel the button is on.
    pub conn_id: u32,
    /// What happened to the button.
    pub click_type: ClickType,
    /// The event happened while the button was disconnected.
    pub was_queued: bool,
    /// For a queued event, how many seconds ago it happened.
    pub time_diff: u32,
}

impl View for ButtonUpOrDown {
    type V = ButtonUpOrDown;

    open spec fn view(&self) -> ButtonUpOrDown {
        *self
    }
}

/// A click or a hold. Carries only `ButtonClick` or `ButtonHold`.
#[derive(Clone, Copy, Debug, PartialEq, Eq)]
pub struct ButtonClickOrHold {
    /// The channel the button is on.
    pub conn_id: u32,
    /// What happened to the button.
    pub click_type: ClickType,
    /// The event happened while the button was disconnected.
    pub was_queued: bool,
    /// For a queued event, how many seconds ago it happened.
    pub time_diff: u32,
}

impl View for ButtonClickOrHold {
    type V = ButtonClickOrHold;

    open spec fn view(&self) -> ButtonClickOrHold {
        *self
    }
}

/// A single or a double click. Carries only `ButtonSingleClick` or `ButtonDoubleClick`.
#[derive(Clone, Copy, Debug, PartialEq, Eq)]
pub struct ButtonSingleOrDoubleClick {
    /// The channel the button is on.
    pub conn_id: u32,
    /// What happened to the button.
    pub click_type: ClickType,
    /// The event happened while the button was disconnected.
    pub was_queued: bool,
    /// For a queued event, how many seconds ago it happened.
    pub time_diff: u32,
}

impl View for ButtonSingleOrDoubleClick {
    type V = ButtonSingleOrDoubleClick;

    open spec fn view(&self) -> ButtonSingleOrDoubleClick {
        *self
    }
}

/// A single click, a double click or a hold. Carries only `ButtonSingleClick`
/// or `ButtonDoubleClick` or `ButtonHold`.
#[derive(Clone, Copy, Debug, PartialEq, Eq)]
pub struct ButtonSingleOrDoubleClickOrHold {
    /// The channel the button is on.
    pub conn_id: u32,
    /// What happened to the button.
    pub click_type: ClickType,
    /// The event happened while the button was disconnected.
    pub was_queued: bool,
    /// For a queued event, how many seconds ago it happened.
    pub time_diff: u32,
}

impl View for ButtonSingleOrDoubleClickOrHold {
    type V = ButtonSingleOrDoubleClickOrHold;

    open spec fn view(&self) -> ButtonSingleOrDoubleClickOrHold {
        *self
    }
}

/// A button that was not verified before has been verified.
#[derive(Clone, Copy, Debug, PartialEq, Eq)]
pub struct NewVerifiedButton {
    /// The button's address.
    pub bd_addr: BdAddr,
}

impl View for NewVerifiedButton {
    type V = NewVerifiedButton;

    open spec fn view(&self) -> NewVerifiedButton {
        *self
    }
}

/// The daemon's state, with the addresses of all verified buttons.
#[derive(Debug, PartialEq, Eq)]
pub struct GetInfoResponse {
    /// Whether the daemon has its controller.
    pub bluetooth_controller_state: BluetoothControllerState,
    /// The address of the daemon's device.
    pub my_bd_addr: BdAddr,
    /// The kind of that address.
    pub my_bd_addr_type: BdAddrType,
    /// How many buttons can be watched at once.
    pub max_pending_connections: u8,
    /// How many buttons can be connected at once; -1 until it is known.
    pub max_concurrently_connected_buttons: i16,
    /// How many buttons are watched now, over all clients.
    pub current_pending_connections: u8,
    /// The limit of concurrent connections is reached.
    pub currently_no_space_for_new_connection: bool,
    /// How many verified buttons follow.
    pub nb_verified_buttons: u16,
    /// The verified buttons, in the order sent.
    pub bd_addr_of_verified_buttons: Vec<BdAddr>,
}

/// A [`GetInfoResponse`] with its addresses as a sequence.
pub struct GetInfoResponseView {
    pub bluetooth_controller_state: BluetoothControllerState,
    pub my_bd_addr: BdAddr,
    pub my_bd_addr_type: BdAddrType,
    pub max_pending_connections: u8,
    pub max_concurrently_connected_buttons: i16,
    pub current_pending_connections: u8,
    pub currently_no_space_for_new_connection: bool,
    pub nb_verified_buttons: u16,
    pub bd_addr_of_verified_buttons: Seq<BdAddr>,
}

impl View for GetInfoResponse {
    type V = GetInfoResponseView;

    open spec fn view(&self) -> GetInfoResponseView {
        GetInfoResponseView {
            bluetooth_controller_state: self.bluetooth_controller_state,
            my_bd_addr: self.my_bd_addr,
            my_bd_addr_type: self.my_bd_addr_type,
            max_pending_connections: self.max_pending_connections,
            max_concurrently_connected_buttons: self.max_concurrently_connected_buttons,
            current_pending_connections: self.current_pending_connections,
            currently_no_space_for_new_connection: self.currently_no_space_for_new_connection,
            nb_verified_buttons: self.nb_verified_buttons,
            bd_addr_of_verified_buttons: self.bd_addr_of_verified_buttons@,
        }
    }
}

/// The controller has reached its limit of concurrent connections.
#[derive(Clone, Copy, Debug, PartialEq, Eq)]
pub struct NoSpaceForNewConnection {
    /// That limit.
    pub max_concurrently_connected_buttons: u8,
}

impl View for NoSpaceForNewConnection {
    type V = NoSpaceForNewConnection;

    open spec fn view(&self) -> NoSpaceForNewConnection {
        *self
    }
}

/// A button disconnected and left room for one more connection.
#[derive(Clone, Copy, Debug, PartialEq, Eq)]
pub struct GotSpaceForNewConnection {
    /// The controller's limit of concurrent connections.
    pub max_concurrently_connected_buttons: u8,
}

impl View for GotSpaceForNewConnection {
    type V = GotSpaceForNewConnection;

    open spec fn view(&self) -> GotSpaceForNewConnection {
        *self
    }
}

/// The daemon lost or regained its Bluetooth controller.
#[derive(Clone, Copy, Debug, PartialEq, Eq)]
pub struct BluetoothControllerStateChange {
    /// The new state.
    pub state: BluetoothControllerState,
}

impl View for BluetoothControllerStateChange {
    type V = BluetoothControllerStateChange;

    open spec fn view(&self) -> BluetoothControllerStateChange {
        *self
    }
}

/// The answer to a ping.
#[derive(Clone, Copy, Debug, PartialEq, Eq)]
pub struct PingResponse {
    /// The identifier that the ping carried.
    pub ping_id: u32,
}

impl View for PingResponse {
    type V = PingResponse;

    open spec fn view(&self) -> PingResponse {
        *self
    }
}

/// What the daemon knows of a button. For a button that is not verified all
/// but the address is zero.
#[derive(Debug, PartialEq, Eq)]
pub struct GetButtonInfoResponse {
    /// The button asked about.
    pub bd_addr: BdAddr,
    /// The button's 128-bit identifier.
    pub uuid: [u8; 16],
    /// The button's colour, in words.
    pub color: String,
    /// The button's serial number.
    pub serial_number: String,
}

/// A [`GetButtonInfoResponse`] with its text as characters.
pub struct GetButtonInfoResponseView {
    pub bd_addr: BdAddr,
    pub uuid: [u8; 16],
    pub color: Seq<char>,
    pub serial_number: Seq<char>,
}

impl View for GetButtonInfoResponse {
    type V = GetButtonInfoResponseView;

    open spec fn view(&self) -> GetButtonInfoResponseView {
        GetButtonInfoResponseView {
            bd_addr: self.bd_addr,
            uuid: self.uuid,
            color: self.color@,
            serial_number: self.serial_number@,
        }
    }
}

/// A scan wizard found a button that is in private mode.
#[derive(Clone, Copy, Debug, PartialEq, Eq)]
pub struct ScanWizardFoundPrivateButton {
    /// The wizard.
    pub scan_wizard_id: u32,
}

impl View for ScanWizardFoundPrivateButton {
    type V = ScanWizardFoundPrivateButton;

    open spec fn view(&self) -> ScanWizardFoundPrivateButton {
        *self
    }
}

/// A scan wizard found a button in public mode and now connects to it.
#[derive(Debug, PartialEq, Eq)]
pub struct ScanWizardFoundPublicButton {
    /// The wizard.
    pub scan_wizard_id: u32,
    /// The button's address.
    pub bd_addr: BdAddr,
    /// The name the button advertises.
    pub name: String,
}

/// A [`ScanWizardFoundPublicButton`] with its text as characters.
pub struct ScanWizardFoundPublicButtonView {
    pub scan_wizard_id: u32,
    pub bd_addr: BdAddr,
    pub name: Seq<char>,
}

impl View for ScanWizardFoundPublicButton {
    type V = ScanWizardFoundPublicButtonView;

    open spec fn view(&self) -> ScanWizardFoundPublicButtonView {
        ScanWizardFoundPublicButtonView {
            scan_wizard_id: self.scan_wizard_id,
            bd_addr: self.bd_addr,
            name: self.name@,
        }
    }
}

/// The button a scan wizard found has connected; pairing begins.
#[derive(Clone, Copy, Debug, PartialEq, Eq)]
pub struct ScanWizardButtonConnected {
    /// The wizard.
    pub scan_wizard_id: u32,
}

impl View for ScanWizardButtonConnected {
    type V = ScanWizardButtonConnected;

    open spec fn view(&self) -> ScanWizardButtonConnected {
        *self
    }
}

/// A scan wizard has ended.
#[derive(Clone, Copy, Debug, PartialEq, Eq)]
pub struct ScanWizardCompleted {
    /// The wizard.
    pub scan_wizard_id: u32,
    /// How it ended.
    pub result: ScanWizardResult,
}

impl View for ScanWizardCompleted {
    type V = ScanWizardCompleted;

    open spec fn view(&self) -> ScanWizardCompleted {
        *self
    }
}

/// A verified button was deleted from the daemon's store.
#[derive(Clone, Copy, Debug, PartialEq, Eq)]
pub struct ButtonDeleted {
    /// The button's address.
    pub bd_addr: BdAddr,
    /// This client asked for the deletion.
    pub deleted_by_this_client: bool,
}

impl View for ButtonDeleted {
    type V = ButtonDeleted;

    open spec fn view(&self) -> ButtonDeleted {
        *self
    }
}

/// A battery level, sent to a battery status listener.
#[derive(Clone, Copy, Debug, PartialEq, Eq)]
pub struct BatteryStatus {
    /// The listener.
    pub listener_id: u32,
    /// The level from 0 to 100, or -1 when it is not known.
    pub battery_percentage: i8,
    /// When the level was measured, in seconds since the Unix epoch.
    pub timestamp: i64,
}

impl View for BatteryStatus {
    type V = BatteryStatus;

    open spec fn view(&self) -> BatteryStatus {
        *self
    }
}

/// An event, decoded.
#[derive(Debug, PartialEq, Eq)]
pub enum Event {
    AdvertisementPacket(AdvertisementPacket),
    CreateConnectionChannelResponse(CreateConnectionChannelResponse),
    ConnectionStatusChanged(ConnectionStatusChanged),
    ConnectionChannelRemoved(ConnectionChannelRemoved),
    ButtonUpOrDown(ButtonUpOrDown),
    ButtonClickOrHold(ButtonClickOrHold),
    ButtonSingleOrDoubleClick(ButtonSingleOrDoubleClick),
    ButtonSingleOrDoubleClickOrHold(ButtonSingleOrDoubleClickOrHold),
    NewVerifiedButton(NewVerifiedButton),
    GetInfoResponse(GetInfoResponse),
    NoSpaceForNewConnection(NoSpaceForNewConnection),
    GotSpaceForNewConnection(GotSpaceForNewConnection),
    BluetoothControllerStateChange(BluetoothControllerStateChange),
    PingResponse(PingResponse),
    GetButtonInfoResponse(GetButtonInfoResponse),
    ScanWizardFoundPrivateButton(ScanWizardFoundPrivateButton),
    ScanWizardFoundPublicButton(ScanWizardFoundPublicButton),
    ScanWizardButtonConnected(ScanWizardButtonConnected),
    ScanWizardCompleted(ScanWizardCompleted),
    ButtonDeleted(ButtonDeleted),
    BatteryStatus(BatteryStatus),
}

/// An [`Event`] with its text as characters and its lists as sequences.
pub enum EventView {
    AdvertisementPacket(AdvertisementPacketView),
    CreateConnectionChannelResponse(CreateConnectionChannelResponse),
    ConnectionStatusChanged(ConnectionStatusChanged),
    ConnectionChannelRemoved(ConnectionChannelRemoved),
    ButtonUpOrDown(ButtonUpOrDown),
    ButtonClickOrHold(ButtonClickOrHold),
    ButtonSingleOrDoubleClick(ButtonSingleOrDoubleClick),
    ButtonSingleOrDoubleClickOrHold(ButtonSingleOrDoubleClickOrHold),
    NewVerifiedButton(NewVerifiedButton),
    GetInfoResponse(GetInfoResponseView),
    NoSpaceForNewConnection(NoSpaceForNewConnection),
    GotSpaceForNewConnection(GotSpaceForNewConnection),
    BluetoothControllerStateChange(BluetoothControllerStateChange),
    PingResponse(PingResponse),
    GetButtonInfoResponse(GetButtonInfoResponseView),
    ScanWizardFoundPrivateButton(ScanWizardFoundPrivateButton),
    ScanWizardFoundPublicButton(ScanWizardFoundPublicButtonView),
    ScanWizardButtonConnected(ScanWizardButtonConnected),
    ScanWizardCompleted(ScanWizardCompleted),
    ButtonDeleted(ButtonDeleted),
    BatteryStatus(BatteryStatus),
}

impl View for Event {
    type V = EventView;

    open spec fn view(&self) -> EventView {
        match self {
            Event::AdvertisementPacket(e) => EventView::AdvertisementPacket(e@),
            Event::CreateConnectionChannelResponse(e) => EventView::CreateConnectionChannelResponse(
                e@,
            ),
            Event::ConnectionStatusChanged(e) => EventView::ConnectionStatusChanged(e@),
            Event::ConnectionChannelRemoved(e) => EventView::ConnectionChannelRemoved(e@),
            Event::ButtonUpOrDown(e) => EventView::ButtonUpOrDown(e@),
            Event::ButtonClickOrHold(e) => EventView::ButtonClickOrHold(e@),
            Event::ButtonSingleOrDoubleClick(e) => EventView::ButtonSingleOrDoubleClick(e@),
            Event::ButtonSingleOrDoubleClickOrHold(e) => EventView::ButtonSingleOrDoubleClickOrHold(
                e@,
            ),
            Event::NewVerifiedButton(e) => EventView::NewVerifiedButton(e@),
            Event::GetInfoResponse(e) => EventView::GetInfoResponse(e@),
            Event::NoSpaceForNewConnection(e) => EventView::NoSpaceForNewConnection(e@),
            Event::GotSpaceForNewConnection(e) => EventView::GotSpaceForNewConnection(e@),
            Event::BluetoothControllerStateChange(e) => EventView::BluetoothControllerStateChange(
                e@,
            ),
            Event::PingResponse(e) => EventView::PingResponse(e@),
            Event::GetButtonInfoResponse(e) => EventView::GetButtonInfoResponse(e@),
            Event::ScanWizardFoundPrivateButton(e) => EventView::ScanWizardFoundPrivateButton(e@),
            Event::ScanWizardFoundPublicButton(e) => EventView::ScanWizardFoundPublicButton(e@),
            Event::ScanWizardButtonConnected(e) => EventView::ScanWizardButtonConnected(e@),
            Event::ScanWizardCompleted(e) => EventView::ScanWizardCompleted(e@),
            Event::ButtonDeleted(e) => EventView::ButtonDeleted(e@),
            Event::BatteryStatus(e) => EventView::BatteryStatus(e@),
        }
    }
}

impl EventView {
    /// The opcode under which this kind of event travels.
    pub open spec fn opcode(self) -> Opcode {
        match self {
            EventView::AdvertisementPacket(_) => Opcode::AdvertisementPacket,
            EventView::CreateConnectionChannelResponse(_) =>
                Opcode::CreateConnectionChannelResponse,
            EventView::ConnectionStatusChanged(_) => Opcode::ConnectionStatusChanged,
            EventView::ConnectionChannelRemoved(_) => Opcode::ConnectionChannelRemoved,
            EventView::ButtonUpOrDown(_) => Opcode::ButtonUpOrDown,
            EventView::ButtonClickOrHold(_) => Opcode::ButtonClickOrHold,
            EventView::ButtonSingleOrDoubleClick(_) => Opcode::ButtonSingleOrDoubleClick,
            EventView::ButtonSingleOrDoubleClickOrHold(_) =>
                Opcode::ButtonSingleOrDoubleClickOrHold,
            EventView::NewVerifiedButton(_) => Opcode::NewVerifiedButton,
            EventView::GetInfoResponse(_) => Opcode::GetInfoResponse,
            EventView::NoSpaceForNewConnection(_) => Opcode::NoSpaceForNewConnection,
            EventView::GotSpaceForNewConnection(_) => Opcode::GotSpaceForNewConnection,
            EventView::BluetoothControllerStateChange(_) => Opcode::BluetoothControllerStateChange,
            EventView::PingResponse(_) => Opcode::PingResponse,
            EventView::GetButtonInfoResponse(_) => Opcode::GetButtonInfoResponse,
            EventView::ScanWizardFoundPrivateButton(_) => Opcode::ScanWizardFoundPrivateButton,
            EventView::ScanWizardFoundPublicButton(_) => Opcode::ScanWizardFoundPublicButton,
            EventView::ScanWizardButtonConnected(_) => Opcode::ScanWizardButtonConnected,
            EventView::ScanWizardCompleted(_) => Opcode::ScanWizardCompleted,
            EventView::ButtonDeleted(_) => Opcode::ButtonDeleted,
            EventView::BatteryStatus(_) => Opcode::BatteryStatus,
        }
    }
}

/// What a body says as a [`AdvertisementPacket`]: exactly 32 bytes, with
/// `scan_id` at 0, `bd_addr` at 4, the length of `name` at 10 and its buffer
/// at 11, `rssi` at 27, `is_private` at 28, `already_verified` at 29,
/// `already_connected_to_this_device` at 30 and
/// `already_connected_to_other_device` at 31.
pub open spec fn spec_unmarshal_advertisement_packet(data: Seq<u8>) -> Result<
    EventView,
    UnmarshalErrorView,
> {
    if data.len() != 32 {
        Err(UnmarshalErrorView::BadLength(data.len(), 32))
    } else {
        match spec_load_field(data, 10) {
            Err(e) => Err(e),
            Ok(name) =>
                Ok(
                    EventView::AdvertisementPacket(
                        AdvertisementPacketView {
                            scan_id: spec_load_u32(data, 0),
                            bd_addr: spec_load_bd_addr(data, 4),
                            name,
                            rssi: spec_i8(data[27]),
                            is_private: spec_load_bool(data, 28),
                            already_verified: spec_load_bool(data, 29),
                            already_connected_to_this_device: spec_load_bool(data, 30),
                            already_connected_to_other_device: spec_load_bool(data, 31),
                        },
                    ),
                ),
        }
    }
}

/// Reads a body as an [`AdvertisementPacket`].
pub fn unmarshal_advertisement_packet(data: &[u8]) -> (r: Result<Event, FlicError>)
    ensures
        agrees(r, spec_unmarshal_advertisement_packet(data@)),
{
    check_sz(data, 32)?;
    let name = load_field(data, 10)?;
    let evt = AdvertisementPacket {
        scan_id: load_u32(data, 0),
        bd_addr: load_bd_addr(data, 4),
        name,
        rssi: load_i8(data, 27),
        is_private: load_bool(data, 28),
        already_verified: load_bool(data, 29),
        already_connected_to_this_device: load_bool(data, 30),
        already_connected_to_other_device: load_bool(data, 31),
    };
    Ok(Event::AdvertisementPacket(evt))
}

/// What a body says as a [`CreateConnectionChannelResponse`]: exactly 6 bytes, with
/// `conn_id` at 0, `error` at 4 and `connection_status` at 5.
pub open spec fn spec_unmarshal_create_connection_channel_response(data: Seq<u8>) -> Result<
    EventView,
    UnmarshalErrorView,
> {
    if data.len() != 6 {
        Err(UnmarshalErrorView::BadLength(data.len(), 6))
    } else if CreateConnectionChannelError::spec_from_u8(data[4]) is None {
        Err(UnmarshalErrorView::BadEnum(data[4], "CreateConnectionChannelError"@))
    } else if ConnectionStatus::spec_from_u8(data[5]) is None {
        Err(UnmarshalErrorView::BadEnum(data[5], "ConnectionStatus"@))
    } else {
        Ok(
            EventView::CreateConnectionChannelResponse(
                CreateConnectionChannelResponse {
                    conn_id: spec_load_u32(data, 0),
                    error: CreateConnectionChannelError::spec_from_u8(data[4])->0,
                    connection_status: ConnectionStatus::spec_from_u8(data[5])->0,
                },
            ),
        )
    }
}

/// Reads a body as a [`CreateConnectionChannelResponse`].
pub fn unmarshal_create_connection_channel_response(data: &[u8]) -> (r: Result<Event, FlicError>)
    ensures
        agrees(r, spec_unmarshal_create_connection_channel_response(data@)),
{
    check_sz(data, 6)?;
    let error = load_enum::<CreateConnectionChannelError>(data, 4, "CreateConnectionChannelError")?;
    let connection_status = load_enum::<ConnectionStatus>(data, 5, "ConnectionStatus")?;
    let evt = CreateConnectionChannelResponse {
        conn_id: load_u32(data, 0),
        error,
        connection_status,
    };
    Ok(Event::CreateConnectionChannelResponse(evt))
}

/// What a body says as a [`ConnectionStatusChanged`]: exactly 6 bytes, with
/// `conn_id` at 0, `connection_status` at 4 and `disconnect_reason` at 5.
pub open spec fn spec_unmarshal_connection_status_changed(data: Seq<u8>) -> Result<
    EventView,
    UnmarshalErrorView,
> {
    if data.len() != 6 {
        Err(UnmarshalErrorView::BadLength(data.len(), 6))
    } else if ConnectionStatus::spec_from_u8(data[4]) is None {
        Err(UnmarshalErrorView::BadEnum(data[4], "ConnectionStatus"@))
    } else if DisconnectReason::spec_from_u8(data[5]) is None {
        Err(UnmarshalErrorView::BadEnum(data[5], "DisconnectionReason"@))
    } else {
        Ok(
            EventView::ConnectionStatusChanged(
                ConnectionStatusChanged {
                    conn_id: spec_load_u32(data, 0),
                    connection_status: ConnectionStatus::spec_from_u8(data[4])->0,
                    disconnect_reason: DisconnectReason::spec_from_u8(data[5])->0,
                },
            ),
        )
    }
}

/// Reads a body as a [`ConnectionStatusChanged`].
pub fn unmarshal_connection_status_changed(data: &[u8]) -> (r: Result<Event, FlicError>)
    ensures
        agrees(r, spec_unmarshal_connection_status_changed(data@)),
{
    check_sz(data, 6)?;
    let connection_status = load_enum::<ConnectionStatus>(data, 4, "ConnectionStatus")?;
    let disconnect_reason = load_enum::<DisconnectReason>(data, 5, "DisconnectionReason")?;
    let evt = ConnectionStatusChanged {
        conn_id: load_u32(data, 0),
        connection_status,
        disconnect_reason,
    };
    Ok(Event::ConnectionStatusChanged(evt))
}

/// What a body says as a [`ConnectionChannelRemoved`]: exactly 5 bytes, with
/// `conn_id` at 0 and `removed_reason` at 4.
pub open spec fn spec_unmarshal_connection_channel_removed(data: Seq<u8>) -> Result<
    EventView,
    UnmarshalErrorView,
> {
    if data.len() != 5 {
        Err(UnmarshalErrorView::BadLength(data.len(), 5))
    } else if RemovedReason::spec_from_u8(data[4]) is None {
        Err(UnmarshalErrorView::BadEnum(data[4], "RemoveReason"@))
    } else {
        Ok(
            EventView::ConnectionChannelRemoved(
                ConnectionChannelRemoved {
                    conn_id: spec_load_u32(data, 0),
                    removed_reason: RemovedReason::spec_from_u8(data[4])->0,
                },
            ),
        )
    }
}

/// Reads a body as a [`ConnectionChannelRemoved`].
pub fn unmarshal_connection_channel_removed(data: &[u8]) -> (r: Result<Event, FlicError>)
    ensures
        agrees(r, spec_unmarshal_connection_channel_removed(data@)),
{
    check_sz(data, 5)?;
    let removed_reason = load_enum::<RemovedReason>(data, 4, "RemoveReason")?;
    let evt = ConnectionChannelRemoved {
        conn_id: load_u32(data, 0),
        removed_reason,
    };
    Ok(Event::ConnectionChannelRemoved(evt))
}

/// What a body says as the layout the four button events share: exactly 10
/// bytes, with `conn_id` at 0, `click_type` at 4, `was_queued` at 5 and
/// `time_diff` at 6.
pub open spec fn spec_unmarshal_base_button_event(data: Seq<u8>) -> Result<
    BaseButtonEvent,
    UnmarshalErrorView,
> {
    if data.len() != 10 {
        Err(UnmarshalErrorView::BadLength(data.len(), 10))
    } else if ClickType::spec_from_u8(data[4]) is None {
        Err(UnmarshalErrorView::BadEnum(data[4], "ClickType"@))
    } else {
        Ok(
            BaseButtonEvent {
                conn_id: spec_load_u32(data, 0),
                click_type: ClickType::spec_from_u8(data[4])->0,
                was_queued: spec_load_bool(data, 5),
                time_diff: spec_load_u32(data, 6),
            },
        )
    }
}

/// Reads a body in the layout that the four button events share.
pub fn unmarshal_base_button_event(data: &[u8]) -> (r: Result<BaseButtonEvent, FlicError>)
    ensures
        agrees(r, spec_unmarshal_base_button_event(data@)),
{
    check_sz(data, 10)?;
    let click_type = load_enum::<ClickType>(data, 4, "ClickType")?;
    Ok(
        BaseButtonEvent {
            conn_id: load_u32(data, 0),
            click_type,
            was_queued: load_bool(data, 5),
            time_diff: load_u32(data, 6),
        },
    )
}

/// The click types that travel under opcode `op`. For the four button
/// opcodes these are proper subsets of [`ClickType`]; no other opcode
/// carries a click type.
pub open spec fn click_type_allowed(op: Opcode, c: ClickType) -> bool {
    match op {
        Opcode::ButtonUpOrDown => c == ClickType::ButtonUp || c == ClickType::ButtonDown,
        Opcode::ButtonClickOrHold => c == ClickType::ButtonClick || c == ClickType::ButtonHold,
        Opcode::ButtonSingleOrDoubleClick => c == ClickType::ButtonSingleClick || c
            == ClickType::ButtonDoubleClick,
        Opcode::ButtonSingleOrDoubleClickOrHold => c == ClickType::ButtonSingleClick || c
            == ClickType::ButtonDoubleClick || c == ClickType::ButtonHold,
        _ => false,
    }
}

/// What a body says as a [`ButtonUpOrDown`]: the shared layout, and a click type
/// that this opcode carries. A click type of another button event is a
/// fault of its own kind, not a bad code.
pub open spec fn spec_unmarshal_button_up_or_down(data: Seq<u8>) -> Result<
    EventView,
    UnmarshalErrorView,
> {
    match spec_unmarshal_base_button_event(data) {
        Err(e) => Err(e),
        Ok(base) => if click_type_allowed(Opcode::ButtonUpOrDown, base.click_type) {
            Ok(
                EventView::ButtonUpOrDown(
                    ButtonUpOrDown {
                        conn_id: base.conn_id,
                        click_type: base.click_type,
                        was_queued: base.was_queued,
                        time_diff: base.time_diff,
                    },
                ),
            )
        } else {
            Err(UnmarshalErrorView::BadClickType(base.click_type, "ButtonUpOrDown"@))
        },
    }
}

/// Reads a body as a [`ButtonUpOrDown`].
pub fn unmarshal_button_up_or_down(data: &[u8]) -> (r: Result<Event, FlicError>)
    ensures
        agrees(r, spec_unmarshal_button_up_or_down(data@)),
{
    let base_event = unmarshal_base_button_event(data)?;
    match base_event.click_type {
        ClickType::ButtonUp | ClickType::ButtonDown => (),
        _ => {
            return Err(
                FlicError::Unmarshal(
                    UnmarshalError::BadClickType(
                        base_event.click_type,
                        String::from_str("ButtonUpOrDown"),
                    ),
                ),
            );
        },
    };
    Ok(
        Event::ButtonUpOrDown(
            ButtonUpOrDown {
                conn_id: base_event.conn_id,
                click_type: base_event.click_type,
                was_queued: base_event.was_queued,
                time_diff: base_event.time_diff,
            },
        ),
    )
}

/// What a body says as a [`ButtonClickOrHold`]: the shared layout, and a click type
/// that this opcode carries. A click type of another button event is a
/// fault of its own kind, not a bad code.
pub open spec fn spec_unmarshal_button_click_or_hold(data: Seq<u8>) -> Result<
    EventView,
    UnmarshalErrorView,
> {
    match spec_unmarshal_base_button_event(data) {
        Err(e) => Err(e),
        Ok(base) => if click_type_allowed(Opcode::ButtonClickOrHold, base.click_type) {
            Ok(
                EventView::ButtonClickOrHold(
                    ButtonClickOrHold {
                        conn_id: base.conn_id,
                        click_type: base.click_type,
                        was_queued: base.was_queued,
                        time_diff: base.time_diff,
                    },
                ),
            )
        } else {
            Err(UnmarshalErrorView::BadClickType(base.click_type, "ButtonClickOrHold"@))
        },
    }
}

/// Reads a body as a [`ButtonClickOrHold`].
pub fn unmarshal_button_click_or_hold(data: &[u8]) -> (r: Result<Event, FlicError>)
    ensures
        agrees(r, spec_unmarshal_button_click_or_hold(data@)),
{
    let base_event = unmarshal_base_button_event(data)?;
    match base_event.click_type {
        ClickType::ButtonClick | ClickType::ButtonHold => (),
        _ => {
            return Err(
                FlicError::Unmarshal(
                    UnmarshalError::BadClickType(
                        base_event.click_type,
                        String::from_str("ButtonClickOrHold"),
                    ),
                ),
            );
        },
    };
    Ok(
        Event::ButtonClickOrHold(
            ButtonClickOrHold {
                conn_id: base_event.conn_id,
                click_type: base_event.click_type,
                was_queued: base_event.was_queued,
                time_diff: base_event.time_diff,
            },
        ),
    )
}

/// What a body says as a [`ButtonSingleOrDoubleClick`]: the shared layout, and a click type
/// that this opcode carries. A click type of another button event is a
/// fault of its own kind, not a bad code.
pub open spec fn spec_unmarshal_button_single_or_double_click(data: Seq<u8>) -> Result<
    EventView,
    UnmarshalErrorView,
> {
    match spec_unmarshal_base_button_event(data) {
        Err(e) => Err(e),
        Ok(base) => if click_type_allowed(Opcode::ButtonSingleOrDoubleClick, base.click_type) {
            Ok(
                EventView::ButtonSingleOrDoubleClick(
                    ButtonSingleOrDoubleClick {
                        conn_id: base.conn_id,
                        click_type: base.click_type,
                        was_queued: base.was_queued,
                        time_diff: base.time_diff,
                    },
                ),
            )
        } else {
            Err(UnmarshalErrorView::BadClickType(base.click_type, "ButtonSingleOrDoubleClick"@))
        },
    }
}

/// Reads a body as a [`ButtonSingleOrDoubleClick`].
pub fn unmarshal_button_single_or_double_click(data: &[u8]) -> (r: Result<Event, FlicError>)
    ensures
        agrees(r, spec_unmarshal_button_single_or_double_click(data@)),
{
    let base_event = unmarshal_base_button_event(data)?;
    match base_event.click_type {
        ClickType::ButtonSingleClick | ClickType::ButtonDoubleClick => (),
        _ => {
            return Err(
                FlicError::Unmarshal(
                    UnmarshalError::BadClickType(
                        base_event.click_type,
                        String::from_str("ButtonSingleOrDoubleClick"),
                    ),
                ),
            );
        },
    };
    Ok(
        Event::ButtonSingleOrDoubleClick(
            ButtonSingleOrDoubleClick {
                conn_id: base_event.conn_id,
                click_type: base_event.click_type,
                was_queued: base_event.was_queued,
                time_diff: base_event.time_diff,
            },
        ),
    )
}

/// What a body says as a [`ButtonSingleOrDoubleClickOrHold`]: the shared layout, and a click type
/// that this opcode carries. A click type of another button event is a
/// fault of its own kind, not a bad code.
pub open spec fn spec_unmarshal_button_single_or_double_click_or_hold(data: Seq<u8>) -> Result<
    EventView,
    UnmarshalErrorView,
> {
    match spec_unmarshal_base_button_event(data) {
        Err(e) => Err(e),
        Ok(base) => if click_type_allowed(
            Opcode::ButtonSingleOrDoubleClickOrHold,
            base.click_type,
        ) {
            Ok(
                EventView::ButtonSingleOrDoubleClickOrHold(
                    ButtonSingleOrDoubleClickOrHold {
                        conn_id: base.conn_id,
                        click_type: base.click_type,
                        was_queued: base.was_queued,
                        time_diff: base.time_diff,
                    },
                ),
            )
        } else {
            Err(
                UnmarshalErrorView::BadClickType(
                    base.click_type,
                    "ButtonSingleOrDoubleClickOrHold"@,
                ),
            )
        },
    }
}

/// Reads a body as a [`ButtonSingleOrDoubleClickOrHold`].
pub fn unmarshal_button_single_or_double_click_or_hold(data: &[u8]) -> (r: Result<Event, FlicError>)
    ensures
        agrees(r, spec_unmarshal_button_single_or_double_click_or_hold(data@)),
{
    let base_event = unmarshal_base_button_event(data)?;
    match base_event.click_type {
        ClickType::ButtonSingleClick | ClickType::ButtonDoubleClick | ClickType::ButtonHold => (),
        _ => {
            return Err(
                FlicError::Unmarshal(
                    UnmarshalError::BadClickType(
                        base_event.click_type,
                        String::from_str("ButtonSingleOrDoubleClickOrHold"),
                    ),
                ),
            );
        },
    };
    Ok(
        Event::ButtonSingleOrDoubleClickOrHold(
            ButtonSingleOrDoubleClickOrHold {
                conn_id: base_event.conn_id,
                click_type: base_event.click_type,
                was_queued: base_event.was_queued,
                time_diff: base_event.time_diff,
            },
        ),
    )
}

/// What a body says as a [`NewVerifiedButton`]: exactly 6 bytes, with
/// `bd_addr` at 0.
pub open spec fn spec_unmarshal_new_verified_button(data: Seq<u8>) -> Result<
    EventView,
    UnmarshalErrorView,
> {
    if data.len() != 6 {
        Err(UnmarshalErrorView::BadLength(data.len(), 6))
    } else {
        Ok(
            EventView::NewVerifiedButton(
                NewVerifiedButton {
                    bd_addr: spec_load_bd_addr(data, 0),
                },
            ),
        )
    }
}

/// Reads a body as a [`NewVerifiedButton`].
pub fn unmarshal_new_verified_button(data: &[u8]) -> (r: Result<Event, FlicError>)
    ensures
        agrees(r, spec_unmarshal_new_verified_button(data@)),
{
    check_sz(data, 6)?;
    let evt = NewVerifiedButton {
        bd_addr: load_bd_addr(data, 0),
    };
    Ok(Event::NewVerifiedButton(evt))
}

/// The size of a [`GetInfoResponse`] before its list of addresses.
pub const GET_INFO_PREFIX: usize = 15;

/// What a body says as a [`GetInfoResponse`]: a prefix of 15 bytes whose last
/// two give the number of verified buttons, then six bytes for each of them,
/// and nothing more. The fixed fields are `bluetooth_controller_state` at 0,
/// `my_bd_addr` at 1, `my_bd_addr_type` at 7, `max_pending_connections` at 8,
/// `max_concurrently_connected_buttons` at 9, `current_pending_connections`
/// at 11, `currently_no_space_for_new_connection` at 12 and
/// `nb_verified_buttons` at 13.
pub open spec fn spec_unmarshal_get_info_response(data: Seq<u8>) -> Result<
    EventView,
    UnmarshalErrorView,
> {
    let nb = spec_load_u16(data, 13);
    if data.len() < 15 {
        Err(UnmarshalErrorView::BadLengthAtLeast(data.len(), 15))
    } else if data.len() != 15 + nb * 6 {
        Err(UnmarshalErrorView::BadLength(data.len(), (15 + nb * 6) as nat))
    } else if BluetoothControllerState::spec_from_u8(data[0]) is None {
        Err(UnmarshalErrorView::BadEnum(data[0], "BluetoothControllerState"@))
    } else if BdAddrType::spec_from_u8(data[7]) is None {
        Err(UnmarshalErrorView::BadEnum(data[7], "BdAddrType"@))
    } else {
        Ok(
            EventView::GetInfoResponse(
                GetInfoResponseView {
                    bluetooth_controller_state: BluetoothControllerState::spec_from_u8(data[0])->0,
                    my_bd_addr: spec_load_bd_addr(data, 1),
                    my_bd_addr_type: BdAddrType::spec_from_u8(data[7])->0,
                    max_pending_connections: data[8],
                    max_concurrently_connected_buttons: spec_load_i16(data, 9),
                    current_pending_connections: data[11],
                    currently_no_space_for_new_connection: spec_load_bool(data, 12),
                    nb_verified_buttons: nb,
                    bd_addr_of_verified_buttons: Seq::new(
                        nb as nat,
                        |i: int| spec_load_bd_addr(data, 15 + i * 6),
                    ),
                },
            ),
        )
    }
}

/// Reads a body as a [`GetInfoResponse`].
pub fn unmarshal_get_info_response(data: &[u8]) -> (r: Result<Event, FlicError>)
    ensures
        agrees(r, spec_unmarshal_get_info_response(data@)),
{
    // The size depends on the count, so the prefix that holds the count is
    // checked first and the whole body after it.
    check_sz_at_least(data, GET_INFO_PREFIX)?;
    let nb_verified_buttons: u16 = load_u16(data, 13);
    let count: usize = nb_verified_buttons as usize;
    check_sz(data, GET_INFO_PREFIX + count * 6)?;
    let bluetooth_controller_state = load_enum::<BluetoothControllerState>(
        data,
        0,
        "BluetoothControllerState",
    )?;
    let my_bd_addr_type = load_enum::<BdAddrType>(data, 7, "BdAddrType")?;
    let mut bd_addr_of_verified_buttons: Vec<BdAddr> = Vec::with_capacity(count);
    let mut i: usize = 0;
    while i < count
        invariant
            i <= count,
            data.len() == 15 + count * 6,
            bd_addr_of_verified_buttons@.len() == i,
            forall|j: int|
                0 <= j < i ==> bd_addr_of_verified_buttons@[j] == spec_load_bd_addr(
                    data@,
                    15 + j * 6,
                ),
        decreases count - i,
    {
        bd_addr_of_verified_buttons.push(load_bd_addr(data, GET_INFO_PREFIX + i * 6));
        i += 1;
    }
    let evt = GetInfoResponse {
        bluetooth_controller_state,
        my_bd_addr: load_bd_addr(data, 1),
        my_bd_addr_type,
        max_pending_connections: data[8],
        max_concurrently_connected_buttons: load_i16(data, 9),
        current_pending_connections: data[11],
        currently_no_space_for_new_connection: load_bool(data, 12),
        nb_verified_buttons,
        bd_addr_of_verified_buttons,
    };
    assert(evt@.bd_addr_of_verified_buttons =~= Seq::new(
        nb_verified_buttons as nat,
        |i: int| spec_load_bd_addr(data@, 15 + i * 6),
    ));
    Ok(Event::GetInfoResponse(evt))
}

/// What a body says as a [`NoSpaceForNewConnection`]: exactly 1 bytes, with
/// `max_concurrently_connected_buttons` at 0.
pub open spec fn spec_unmarshal_no_space_for_new_connection(data: Seq<u8>) -> Result<
    EventView,
    UnmarshalErrorView,
> {
    if data.len() != 1 {
        Err(UnmarshalErrorView::BadLength(data.len(), 1))
    } else {
        Ok(
            EventView::NoSpaceForNewConnection(
                NoSpaceForNewConnection {
                    max_concurrently_connected_buttons: data[0],
                },
            ),
        )
    }
}

/// Reads a body as a [`NoSpaceForNewConnection`].
pub fn unmarshal_no_space_for_new_connection(data: &[u8]) -> (r: Result<Event, FlicError>)
    ensures
        agrees(r, spec_unmarshal_no_space_for_new_connection(data@)),
{
    check_sz(data, 1)?;
    let evt = NoSpaceForNewConnection {
        max_concurrently_connected_buttons: data[0],
    };
    Ok(Event::NoSpaceForNewConnection(evt))
}

/// What a body says as a [`GotSpaceForNewConnection`]: exactly 1 bytes, with
/// `max_concurrently_connected_buttons` at 0.
pub open spec fn spec_unmarshal_got_space_for_new_connection(data: Seq<u8>) -> Result<
    EventView,
    UnmarshalErrorView,
> {
    if data.len() != 1 {
        Err(UnmarshalErrorView::BadLength(data.len(), 1))
    } else {
        Ok(
            EventView::GotSpaceForNewConnection(
                GotSpaceForNewConnection {
                    max_concurrently_connected_buttons: data[0],
                },
            ),
        )
    }
}

/// Reads a body as a [`GotSpaceForNewConnection`].
pub fn unmarshal_got_space_for_new_connection(data: &[u8]) -> (r: Result<Event, FlicError>)
    ensures
        agrees(r, spec_unmarshal_got_space_for_new_connection(data@)),
{
    check_sz(data, 1)?;
    let evt = GotSpaceForNewConnection {
        max_concurrently_connected_buttons: data[0],
    };
    Ok(Event::GotSpaceForNewConnection(evt))
}

/// What a body says as a [`BluetoothControllerStateChange`]: exactly 1 bytes, with
/// `state` at 0.
pub open spec fn spec_unmarshal_bluetooth_controller_state_change(data: Seq<u8>) -> Result<
    EventView,
    UnmarshalErrorView,
> {
    if data.len() != 1 {
        Err(UnmarshalErrorView::BadLength(data.len(), 1))
    } else if BluetoothControllerState::spec_from_u8(data[0]) is None {
        Err(UnmarshalErrorView::BadEnum(data[0], "BluetoothControllerState"@))
    } else {
        Ok(
            EventView::BluetoothControllerStateChange(
                BluetoothControllerStateChange {
                    state: BluetoothControllerState::spec_from_u8(data[0])->0,
                },
            ),
        )
    }
}

/// Reads a body as a [`BluetoothControllerStateChange`].
pub fn unmarshal_bluetooth_controller_state_change(data: &[u8]) -> (r: Result<Event, FlicError>)
    ensures
        agrees(r, spec_unmarshal_bluetooth_controller_state_change(data@)),
{
    check_sz(data, 1)?;
    let state = load_enum::<BluetoothControllerState>(data, 0, "BluetoothControllerState")?;
    let evt = BluetoothControllerStateChange {
        state,
    };
    Ok(Event::BluetoothControllerStateChange(evt))
}

/// What a body says as a [`PingResponse`]: exactly 4 bytes, with
/// `ping_id` at 0.
pub open spec fn spec_unmarshal_ping_response(data: Seq<u8>) -> Result<
    EventView,
    UnmarshalErrorView,
> {
    if data.len() != 4 {
        Err(UnmarshalErrorView::BadLength(data.len(), 4))
    } else {
        Ok(
            EventView::PingResponse(
                PingResponse {
                    ping_id: spec_load_u32(data, 0),
                },
            ),
        )
    }
}

/// Reads a body as a [`PingResponse`].
pub fn unmarshal_ping_response(data: &[u8]) -> (r: Result<Event, FlicError>)
    ensures
        agrees(r, spec_unmarshal_ping_response(data@)),
{
    check_sz(data, 4)?;
    let evt = PingResponse {
        ping_id: load_u32(data, 0),
    };
    Ok(Event::PingResponse(evt))
}

/// What a body says as a [`GetButtonInfoResponse`]: exactly 56 bytes, with
/// `bd_addr` at 0, `uuid` at 6, the length of `color` at 22 and its buffer at
/// 23 and the length of `serial_number` at 39 and its buffer at 40.
pub open spec fn spec_unmarshal_get_button_info_response(data: Seq<u8>) -> Result<
    EventView,
    UnmarshalErrorView,
> {
    if data.len() != 56 {
        Err(UnmarshalErrorView::BadLength(data.len(), 56))
    } else {
        match spec_load_field(data, 22) {
            Err(e) => Err(e),
            Ok(color) =>
                match spec_load_field(data, 39) {
                    Err(e) => Err(e),
                    Ok(serial_number) =>
                        Ok(
                            EventView::GetButtonInfoResponse(
                                GetButtonInfoResponseView {
                                    bd_addr: spec_load_bd_addr(data, 0),
                                    uuid: spec_load_uuid(data, 6),
                                    color,
                                    serial_number,
                                },
                            ),
                        ),
                },
        }
    }
}

/// Reads a body as a [`GetButtonInfoResponse`].
pub fn unmarshal_get_button_info_response(data: &[u8]) -> (r: Result<Event, FlicError>)
    ensures
        agrees(r, spec_unmarshal_get_button_info_response(data@)),
{
    check_sz(data, 56)?;
    let color = load_field(data, 22)?;
    let serial_number = load_field(data, 39)?;
    let evt = GetButtonInfoResponse {
        bd_addr: load_bd_addr(data, 0),
        uuid: load_uuid(data, 6),
        color,
        serial_number,
    };
    Ok(Event::GetButtonInfoResponse(evt))
}

/// What a body says as a [`ScanWizardFoundPrivateButton`]: exactly 4 bytes, with
/// `scan_wizard_id` at 0.
pub open spec fn spec_unmarshal_scan_wizard_found_private_button(data: Seq<u8>) -> Result<
    EventView,
    UnmarshalErrorView,
> {
    if data.len() != 4 {
        Err(UnmarshalErrorView::BadLength(data.len(), 4))
    } else {
        Ok(
            EventView::ScanWizardFoundPrivateButton(
                ScanWizardFoundPrivateButton {
                    scan_wizard_id: spec_load_u32(data, 0),
                },
            ),
        )
    }
}

/// Reads a body as a [`ScanWizardFoundPrivateButton`].
pub fn unmarshal_scan_wizard_found_private_button(data: &[u8]) -> (r: Result<Event, FlicError>)
    ensures
        agrees(r, spec_unmarshal_scan_wizard_found_private_button(data@)),
{
    check_sz(data, 4)?;
    let evt = ScanWizardFoundPrivateButton {
        scan_wizard_id: load_u32(data, 0),
    };
    Ok(Event::ScanWizardFoundPrivateButton(evt))
}

/// What a body says as a [`ScanWizardFoundPublicButton`]: exactly 27 bytes, with
/// `scan_wizard_id` at 0, `bd_addr` at 4 and the length of `name` at 10 and its buffer at 11.
pub open spec fn spec_unmarshal_scan_wizard_found_public_button(data: Seq<u8>) -> Result<
    EventView,
    UnmarshalErrorView,
> {
    if data.len() != 27 {
        Err(UnmarshalErrorView::BadLength(data.len(), 27))
    } else {
        match spec_load_field(data, 10) {
            Err(e) => Err(e),
            Ok(name) =>
                Ok(
                    EventView::ScanWizardFoundPublicButton(
                        ScanWizardFoundPublicButtonView {
                            scan_wizard_id: spec_load_u32(data, 0),
                            bd_addr: spec_load_bd_addr(data, 4),
                            name,
                        },
                    ),
                ),
        }
    }
}

/// Reads a body as a [`ScanWizardFoundPublicButton`].
pub fn unmarshal_scan_wizard_found_public_button(data: &[u8]) -> (r: Result<Event, FlicError>)
    ensures
        agrees(r, spec_unmarshal_scan_wizard_found_public_button(data@)),
{
    check_sz(data, 27)?;
    let name = load_field(data, 10)?;
    let evt = ScanWizardFoundPublicButton {
        scan_wizard_id: load_u32(data, 0),
        bd_addr: load_bd_addr(data, 4),
        name,
    };
    Ok(Event::ScanWizardFoundPublicButton(evt))
}

/// What a body says as a [`ScanWizardButtonConnected`]: exactly 4 bytes, with
/// `scan_wizard_id` at 0.
pub open spec fn spec_unmarshal_scan_wizard_button_connected(data: Seq<u8>) -> Result<
    EventView,
    UnmarshalErrorView,
> {
    if data.len() != 4 {
        Err(UnmarshalErrorView::BadLength(data.len(), 4))
    } else {
        Ok(
            EventView::ScanWizardButtonConnected(
                ScanWizardButtonConnected {
                    scan_wizard_id: spec_load_u32(data, 0),
                },
            ),
        )
    }
}

/// Reads a body as a [`ScanWizardButtonConnected`].
pub fn unmarshal_scan_wizard_button_connected(data: &[u8]) -> (r: Result<Event, FlicError>)
    ensures
        agrees(r, spec_unmarshal_scan_wizard_button_connected(data@)),
{
    check_sz(data, 4)?;
    let evt = ScanWizardButtonConnected {
        scan_wizard_id: load_u32(data, 0),
    };
    Ok(Event::ScanWizardButtonConnected(evt))
}

/// What a body says as a [`ScanWizardCompleted`]: exactly 5 bytes, with
/// `scan_wizard_id` at 0 and `result` at 4.
pub open spec fn spec_unmarshal_scan_wizard_completed(data: Seq<u8>) -> Result<
    EventView,
    UnmarshalErrorView,
> {
    if data.len() != 5 {
        Err(UnmarshalErrorView::BadLength(data.len(), 5))
    } else if ScanWizardResult::spec_from_u8(data[4]) is None {
        Err(UnmarshalErrorView::BadEnum(data[4], "ScanWizardResult"@))
    } else {
        Ok(
            EventView::ScanWizardCompleted(
                ScanWizardCompleted {
                    scan_wizard_id: spec_load_u32(data, 0),
                    result: ScanWizardResult::spec_from_u8(data[4])->0,
                },
            ),
        )
    }
}

/// Reads a body as a [`ScanWizardCompleted`].
pub fn unmarshal_scan_wizard_completed(data: &[u8]) -> (r: Result<Event, FlicError>)
    ensures
        agrees(r, spec_unmarshal_scan_wizard_completed(data@)),
{
    check_sz(data, 5)?;
    let result = load_enum::<ScanWizardResult>(data, 4, "ScanWizardResult")?;
    let evt = ScanWizardCompleted {
        scan_wizard_id: load_u32(data, 0),
        result,
    };
    Ok(Event::ScanWizardCompleted(evt))
}

/// What a body says as a [`ButtonDeleted`]: exactly 7 bytes, with
/// `bd_addr` at 0 and `deleted_by_this_client` at 6.
pub open spec fn spec_unmarshal_button_deleted(data: Seq<u8>) -> Result<
    EventView,
    UnmarshalErrorView,
> {
    if data.len() != 7 {
        Err(UnmarshalErrorView::BadLength(data.len(), 7))
    } else {
        Ok(
            EventView::ButtonDeleted(
                ButtonDeleted {
                    bd_addr: spec_load_bd_addr(data, 0),
                    deleted_by_this_client: spec_load_bool(data, 6),
                },
            ),
        )
    }
}

/// Reads a body as a [`ButtonDeleted`].
pub fn unmarshal_button_deleted(data: &[u8]) -> (r: Result<Event, FlicError>)
    ensures
        agrees(r, spec_unmarshal_button_deleted(data@)),
{
    check_sz(data, 7)?;
    let evt = ButtonDeleted {
        bd_addr: load_bd_addr(data, 0),
        deleted_by_this_client: load_bool(data, 6),
    };
    Ok(Event::ButtonDeleted(evt))
}

/// What a body says as a [`BatteryStatus`]: exactly 13 bytes, with
/// `listener_id` at 0, `battery_percentage` at 4 and `timestamp` at 5.
pub open spec fn spec_unmarshal_battery_status(data: Seq<u8>) -> Result<
    EventView,
    UnmarshalErrorView,
> {
    if data.len() != 13 {
        Err(UnmarshalErrorView::BadLength(data.len(), 13))
    } else {
        Ok(
            EventView::BatteryStatus(
                BatteryStatus {
                    listener_id: spec_load_u32(data, 0),
                    battery_percentage: spec_i8(data[4]),
                    timestamp: spec_load_i64(data, 5),
                },
            ),
        )
    }
}

/// Reads a body as a [`BatteryStatus`].
pub fn unmarshal_battery_status(data: &[u8]) -> (r: Result<Event, FlicError>)
    ensures
        agrees(r, spec_unmarshal_battery_status(data@)),
{
    check_sz(data, 13)?;
    let evt = BatteryStatus {
        listener_id: load_u32(data, 0),
        battery_percentage: load_i8(data, 4),
        timestamp: load_i64(data, 5),
    };
    Ok(Event::BatteryStatus(evt))
}

/// What a body says under opcode `op`.
pub open spec fn spec_unmarshal_event(op: Opcode, body: Seq<u8>) -> Result<
    EventView,
    UnmarshalErrorView,
> {
    match op {
        Opcode::AdvertisementPacket => spec_unmarshal_advertisement_packet(body),
        Opcode::CreateConnectionChannelResponse =>
            spec_unmarshal_create_connection_channel_response(body),
        Opcode::ConnectionStatusChanged => spec_unmarshal_connection_status_changed(body),
        Opcode::ConnectionChannelRemoved => spec_unmarshal_connection_channel_removed(body),
        Opcode::ButtonUpOrDown => spec_unmarshal_button_up_or_down(body),
        Opcode::ButtonClickOrHold => spec_unmarshal_button_click_or_hold(body),
        Opcode::ButtonSingleOrDoubleClick => spec_unmarshal_button_single_or_double_click(body),
        Opcode::ButtonSingleOrDoubleClickOrHold =>
            spec_unmarshal_button_single_or_double_click_or_hold(body),
        Opcode::NewVerifiedButton => spec_unmarshal_new_verified_button(body),
        Opcode::GetInfoResponse => spec_unmarshal_get_info_response(body),
        Opcode::NoSpaceForNewConnection => spec_unmarshal_no_space_for_new_connection(body),
        Opcode::GotSpaceForNewConnection => spec_unmarshal_got_space_for_new_connection(body),
        Opcode::BluetoothControllerStateChange => spec_unmarshal_bluetooth_controller_state_change(
            body,
        ),
        Opcode::PingResponse => spec_unmarshal_ping_response(body),
        Opcode::GetButtonInfoResponse => spec_unmarshal_get_button_info_response(body),
        Opcode::ScanWizardFoundPrivateButton => spec_unmarshal_scan_wizard_found_private_button(
            body,
        ),
        Opcode::ScanWizardFoundPublicButton => spec_unmarshal_scan_wizard_found_public_button(body),
        Opcode::ScanWizardButtonConnected => spec_unmarshal_scan_wizard_button_connected(body),
        Opcode::ScanWizardCompleted => spec_unmarshal_scan_wizard_completed(body),
        Opcode::ButtonDeleted => spec_unmarshal_button_deleted(body),
        Opcode::BatteryStatus => spec_unmarshal_battery_status(body),
    }
}

/// What a frame's payload says: its first byte is the opcode, the rest is the
/// body of the event that the opcode names.
pub open spec fn spec_unmarshal(data: Seq<u8>) -> Result<(EventView, Opcode), UnmarshalErrorView> {
    if data.len() == 0 {
        Err(UnmarshalErrorView::BadLengthAtLeast(0, 1))
    } else {
        match Opcode::spec_from_u8(data[0]) {
            None => Err(UnmarshalErrorView::BadOpcode(data[0])),
            Some(op) => match spec_unmarshal_event(op, data.subrange(1, data.len() as int)) {
                Err(e) => Err(e),
                Ok(evt) => Ok((evt, op)),
            },
        }
    }
}

/// Reads a frame's payload, opcode first, as an event.
pub fn unmarshal(data: &[u8]) -> (r: Result<(Event, Opcode), FlicError>)
    ensures
        agrees(r, spec_unmarshal(data@)),
{
    check_sz_at_least(data, 1)?;
    let opcode = match Opcode::from_u8(data[0]) {
        Some(opcode) => opcode,
        None => return Err(FlicError::Unmarshal(UnmarshalError::BadOpcode(data[0]))),
    };
    let body = slice_subrange(data, 1, data.len());
    let evt = match opcode {
        Opcode::AdvertisementPacket => unmarshal_advertisement_packet(body),
        Opcode::CreateConnectionChannelResponse => unmarshal_create_connection_channel_response(
            body,
        ),
        Opcode::ConnectionStatusChanged => unmarshal_connection_status_changed(body),
        Opcode::ConnectionChannelRemoved => unmarshal_connection_channel_removed(body),
        Opcode::ButtonUpOrDown => unmarshal_button_up_or_down(body),
        Opcode::ButtonClickOrHold => unmarshal_button_click_or_hold(body),
        Opcode::ButtonSingleOrDoubleClick => unmarshal_button_single_or_double_click(body),
        Opcode::ButtonSingleOrDoubleClickOrHold => unmarshal_button_single_or_double_click_or_hold(
            body,
        ),
        Opcode::NewVerifiedButton => unmarshal_new_verified_button(body),
        Opcode::GetInfoResponse => unmarshal_get_info_response(body),
        Opcode::NoSpaceForNewConnection => unmarshal_no_space_for_new_connection(body),
        Opcode::GotSpaceForNewConnection => unmarshal_got_space_for_new_connection(body),
        Opcode::BluetoothControllerStateChange => unmarshal_bluetooth_controller_state_change(body),
        Opcode::PingResponse => unmarshal_ping_response(body),
        Opcode::GetButtonInfoResponse => unmarshal_get_button_info_response(body),
        Opcode::ScanWizardFoundPrivateButton => unmarshal_scan_wizard_found_private_button(body),
        Opcode::ScanWizardFoundPublicButton => unmarshal_scan_wizard_found_public_button(body),
        Opcode::ScanWizardButtonConnected => unmarshal_scan_wizard_button_connected(body),
        Opcode::ScanWizardCompleted => unmarshal_scan_wizard_completed(body),
        Opcode::ButtonDeleted => unmarshal_button_deleted(body),
        Opcode::BatteryStatus => unmarshal_battery_status(body),
    }?;
    Ok((evt, opcode))
}

/// The size of the body under `op`, for the opcodes whose body has one
/// size. A [`GetInfoResponse`] has none: its size depends on its count.
pub open spec fn fixed_size(op: Opcode) -> Option<nat> {
    match op {
        Opcode::AdvertisementPacket => Some(32),
        Opcode::CreateConnectionChannelResponse => Some(6),
        Opcode::ConnectionStatusChanged => Some(6),
        Opcode::ConnectionChannelRemoved => Some(5),
        Opcode::ButtonUpOrDown => Some(10),
        Opcode::ButtonClickOrHold => Some(10),
        Opcode::ButtonSingleOrDoubleClick => Some(10),
        Opcode::ButtonSingleOrDoubleClickOrHold => Some(10),
        Opcode::NewVerifiedButton => Some(6),
        Opcode::GetInfoResponse => None,
        Opcode::NoSpaceForNewConnection => Some(1),
        Opcode::GotSpaceForNewConnection => Some(1),
        Opcode::BluetoothControllerStateChange => Some(1),
        Opcode::PingResponse => Some(4),
        Opcode::GetButtonInfoResponse => Some(56),
        Opcode::ScanWizardFoundPrivateButton => Some(4),
        Opcode::ScanWizardFoundPublicButton => Some(27),
        Opcode::ScanWizardButtonConnected => Some(4),
        Opcode::ScanWizardCompleted => Some(5),
        Opcode::ButtonDeleted => Some(7),
        Opcode::BatteryStatus => Some(13),
    }
}

/// A body of any other length than its opcode's size is refused as
/// `BadLength`, whatever it holds: one byte short, one byte long, or empty.
pub proof fn lemma_fixed_size_enforced(op: Opcode, body: Seq<u8>)
    requires
        fixed_size(op) is Some,
        body.len() != fixed_size(op)->0,
    ensures
        spec_unmarshal_event(op, body) == Err::<EventView, UnmarshalErrorView>(
            UnmarshalErrorView::BadLength(body.len(), fixed_size(op)->0),
        ),
{
}

/// A body that decodes has exactly the length that its layout calls for:
/// the opcode's size or, for a [`GetInfoResponse`], the prefix and six bytes
/// for each address that the prefix counts.
pub proof fn lemma_decoded_length(op: Opcode, body: Seq<u8>)
    requires
        spec_unmarshal_event(op, body) is Ok,
    ensures
        fixed_size(op) matches Some(n) ==> body.len() == n,
        op == Opcode::GetInfoResponse ==> body.len() == 15 + 6 * spec_load_u16(body, 13),
{
}

/// A [`GetInfoResponse`] that decodes lists as many addresses as it counts,
/// and lists them in the order in which the body holds them.
pub proof fn lemma_get_info_addresses(body: Seq<u8>)
    requires
        spec_unmarshal_get_info_response(body) is Ok,
    ensures
        spec_unmarshal_get_info_response(body)->Ok_0 matches EventView::GetInfoResponse(info)
            && info.bd_addr_of_verified_buttons.len() == info.nb_verified_buttons
            && forall|i: int|
            0 <= i < info.nb_verified_buttons ==> #[trigger] info.bd_addr_of_verified_buttons[i]
                == spec_load_bd_addr(body, 15 + 6 * i),
{
}

/// A button event that decodes carries a click type that its opcode allows.
pub proof fn lemma_click_type_allowed(op: Opcode, body: Seq<u8>)
    requires
        spec_unmarshal_event(op, body) is Ok,
    ensures
        match spec_unmarshal_event(op, body)->Ok_0 {
            EventView::ButtonUpOrDown(e) => click_type_allowed(op, e.click_type),
            EventView::ButtonClickOrHold(e) => click_type_allowed(op, e.click_type),
            EventView::ButtonSingleOrDoubleClick(e) => click_type_allowed(op, e.click_type),
            EventView::ButtonSingleOrDoubleClickOrHold(e) => click_type_allowed(op, e.click_type),
            _ => true,
        },
{
}

/// A payload whose first byte is no opcode is refused as `BadOpcode` with
/// that byte, whatever follows it.
pub proof fn lemma_unknown_opcode(data: Seq<u8>)
    requires
        data.len() > 0,
        data[0] > 20,
    ensures
        spec_unmarshal(data) == Err::<(EventView, Opcode), UnmarshalErrorView>(
            UnmarshalErrorView::BadOpcode(data[0]),
        ),
{
}

/// A payload that decodes gives the opcode that its first byte stands for,
/// and an event of the kind that this opcode names.
pub proof fn lemma_opcode_of_event(data: Seq<u8>)
    requires
        spec_unmarshal(data) is Ok,
    ensures
        data.len() > 0,
        spec_unmarshal(data)->Ok_0.1.spec_to_u8() == data[0],
        spec_unmarshal(data)->Ok_0.0.opcode() == spec_unmarshal(data)->Ok_0.1,
{
    let op = Opcode::spec_from_u8(data[0])->0;
    Opcode::lemma_to_from(data[0]);
}

} // verus!
