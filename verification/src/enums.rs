//! The protocol's closed sets of codes, each with its byte on the wire.

use vstd::prelude::*;

verus! {

/// A closed set of codes that travels as one byte.
///
/// `spec_to_u8` is the byte a member is written as and `spec_from_u8` the member
/// a byte is read as. The two lemmas make them inverse to each other, so a byte
/// outside the set reads as `None` and never as a substitute member.
pub trait WireEnum: Sized {
    /// The byte that stands for `self`.
    spec fn spec_to_u8(self) -> u8;

    /// The member that `v` stands for, if it stands for one.
    spec fn spec_from_u8(v: u8) -> Option<Self>;

    /// Every member reads back from its own byte.
    proof fn lemma_from_to(self)
        ensures
            Self::spec_from_u8(self.spec_to_u8()) == Some(self),
    ;

    /// A byte that reads as a member is that member's byte.
    proof fn lemma_to_from(v: u8)
        ensures
            Self::spec_from_u8(v) matches Some(e) ==> e.spec_to_u8() == v,
    ;

    fn to_u8(&self) -> (v: u8)
        ensures
            v == self.spec_to_u8(),
    ;

    fn from_u8(v: u8) -> (r: Option<Self>)
        ensures
            r == Self::spec_from_u8(v),
    ;
}

/// Whether the daemon accepted a request for a connection channel.
#[derive(Clone, Copy, Debug, PartialEq, Eq)]
pub enum CreateConnectionChannelError {
    /// The controller had room for one more pending connection.
    NoError,
    /// The controller cannot hold another pending connection.
    MaxPendingConnectionsReached,
}

impl WireEnum for CreateConnectionChannelError {
    open spec fn spec_to_u8(self) -> u8 {
        match self {
            CreateConnectionChannelError::NoError => 0,
            CreateConnectionChannelError::MaxPendingConnectionsReached => 1,
        }
    }

    open spec fn spec_from_u8(v: u8) -> Option<Self> {
        if v == 0 {
            Some(CreateConnectionChannelError::NoError)
        } else if v == 1 {
            Some(CreateConnectionChannelError::MaxPendingConnectionsReached)
        } else {
            None
        }
    }

    proof fn lemma_from_to(self) {
    }

    proof fn lemma_to_from(v: u8) {
    }

    fn to_u8(&self) -> u8 {
        match self {
            CreateConnectionChannelError::NoError => 0,
            CreateConnectionChannelError::MaxPendingConnectionsReached => 1,
        }
    }

    fn from_u8(v: u8) -> Option<Self> {
        match v {
            0 => Some(CreateConnectionChannelError::NoError),
            1 => Some(CreateConnectionChannelError::MaxPendingConnectionsReached),
            _ => None,
        }
    }
}

/// How far the link to a button has come.
#[derive(Clone, Copy, Debug, PartialEq, Eq)]
pub enum ConnectionStatus {
    /// No link yet; the daemon connects as soon as the button is pressed in range.
    Disconnected,
    /// The radio link is up and the two sides are verifying each other.
    Connected,
    /// Verification is done; button events may arrive.
    Ready,
}

impl WireEnum for ConnectionStatus {
    open spec fn spec_to_u8(self) -> u8 {
        match self {
            ConnectionStatus::Disconnected => 0,
            ConnectionStatus::Connected => 1,
            ConnectionStatus::Ready => 2,
        }
    }

    open spec fn spec_from_u8(v: u8) -> Option<Self> {
        if v == 0 {
            Some(ConnectionStatus::Disconnected)
        } else if v == 1 {
            Some(ConnectionStatus::Connected)
        } else if v == 2 {
            Some(ConnectionStatus::Ready)
        } else {
            None
        }
    }

    proof fn lemma_from_to(self) {
    }

    proof fn lemma_to_from(v: u8) {
    }

    fn to_u8(&self) -> u8 {
        match self {
            ConnectionStatus::Disconnected => 0,
            ConnectionStatus::Connected => 1,
            ConnectionStatus::Ready => 2,
        }
    }

    fn from_u8(v: u8) -> Option<Self> {
        match v {
            0 => Some(ConnectionStatus::Disconnected),
            1 => Some(ConnectionStatus::Connected),
            2 => Some(ConnectionStatus::Ready),
            _ => None,
        }
    }
}

/// Why a link to a button went down.
#[derive(Clone, Copy, Debug, PartialEq, Eq)]
pub enum DisconnectReason {
    /// No reason is known.
    Unspecified,
    /// The controller connected but the button did not answer in time.
    ConnectionEstablishmentFailed,
    /// The link was lost: out of range, or radio trouble.
    TimedOut,
    /// Daemon and button disagree on the bonding keys.
    BondingKeysMismatch,
}

impl WireEnum for DisconnectReason {
    open spec fn spec_to_u8(self) -> u8 {
        match self {
            DisconnectReason::Unspecified => 0,
            DisconnectReason::ConnectionEstablishmentFailed => 1,
            DisconnectReason::TimedOut => 2,
            DisconnectReason::BondingKeysMismatch => 3,
        }
    }

    open spec fn spec_from_u8(v: u8) -> Option<Self> {
        if v == 0 {
            Some(DisconnectReason::Unspecified)
        } else if v == 1 {
            Some(DisconnectReason::ConnectionEstablishmentFailed)
        } else if v == 2 {
            Some(DisconnectReason::TimedOut)
        } else if v == 3 {
            Some(DisconnectReason::BondingKeysMismatch)
        } else {
            None
        }
    }

    proof fn lemma_from_to(self) {
    }

    proof fn lemma_to_from(v: u8) {
    }

    fn to_u8(&self) -> u8 {
        match self {
            DisconnectReason::Unspecified => 0,
            DisconnectReason::ConnectionEstablishmentFailed => 1,
            DisconnectReason::TimedOut => 2,
            DisconnectReason::BondingKeysMismatch => 3,
        }
    }

    fn from_u8(v: u8) -> Option<Self> {
        match v {
            0 => Some(DisconnectReason::Unspecified),
            1 => Some(DisconnectReason::ConnectionEstablishmentFailed),
            2 => Some(DisconnectReason::TimedOut),
            3 => Some(DisconnectReason::BondingKeysMismatch),
            _ => None,
        }
    }
}

/// Why a connection channel was removed.
#[derive(Clone, Copy, Debug, PartialEq, Eq)]
pub enum RemovedReason {
    /// This client removed the channel.
    RemovedByThisClient,
    /// This client forced a disconnect.
    ForceDisconnectedByThisClient,
    /// Another client forced a disconnect of the button.
    ForceDisconnectedByOtherClient,
    /// The button is not in public mode.
    ButtonIsPrivate,
    /// Bonding did not finish in time.
    VerifyTimeout,
    /// The request to the vendor's backend failed.
    InternetBackendError,
    /// The backend rejected the button's identity data.
    InvalidData,
    /// The operating system's device for the button could not be opened.
    CouldntLoadDevice,
    /// This client deleted the button.
    DeletedByThisClient,
    /// Another client deleted the button.
    DeletedByOtherClient,
    /// The button belongs to another partner.
    ButtonBelongsToOtherPartner,
    /// The button was reset, or dropped this pairing for a new one.
    DeletedFromButton,
}

impl WireEnum for RemovedReason {
    open spec fn spec_to_u8(self) -> u8 {
        match self {
            RemovedReason::RemovedByThisClient => 0,
            RemovedReason::ForceDisconnectedByThisClient => 1,
            RemovedReason::ForceDisconnectedByOtherClient => 2,
            RemovedReason::ButtonIsPrivate => 3,
            RemovedReason::VerifyTimeout => 4,
            RemovedReason::InternetBackendError => 5,
            RemovedReason::InvalidData => 6,
            RemovedReason::CouldntLoadDevice => 7,
            RemovedReason::DeletedByThisClient => 8,
            RemovedReason::DeletedByOtherClient => 9,
            RemovedReason::ButtonBelongsToOtherPartner => 10,
            RemovedReason::DeletedFromButton => 11,
        }
    }

    open spec fn spec_from_u8(v: u8) -> Option<Self> {
        if v == 0 {
            Some(RemovedReason::RemovedByThisClient)
        } else if v == 1 {
            Some(RemovedReason::ForceDisconnectedByThisClient)
        } else if v == 2 {
            Some(RemovedReason::ForceDisconnectedByOtherClient)
        } else if v == 3 {
            Some(RemovedReason::ButtonIsPrivate)
        } else if v == 4 {
            Some(RemovedReason::VerifyTimeout)
        } else if v == 5 {
            Some(RemovedReason::InternetBackendError)
        } else if v == 6 {
            Some(RemovedReason::InvalidData)
        } else if v == 7 {
            Some(RemovedReason::CouldntLoadDevice)
        } else if v == 8 {
            Some(RemovedReason::DeletedByThisClient)
        } else if v == 9 {
            Some(RemovedReason::DeletedByOtherClient)
        } else if v == 10 {
            Some(RemovedReason::ButtonBelongsToOtherPartner)
        } else if v == 11 {
            Some(RemovedReason::DeletedFromButton)
        } else {
            None
        }
    }

    proof fn lemma_from_to(self) {
    }

    proof fn lemma_to_from(v: u8) {
    }

    fn to_u8(&self) -> u8 {
        match self {
            RemovedReason::RemovedByThisClient => 0,
            RemovedReason::ForceDisconnectedByThisClient => 1,
            RemovedReason::ForceDisconnectedByOtherClient => 2,
            RemovedReason::ButtonIsPrivate => 3,
            RemovedReason::VerifyTimeout => 4,
            RemovedReason::InternetBackendError => 5,
            RemovedReason::InvalidData => 6,
            RemovedReason::CouldntLoadDevice => 7,
            RemovedReason::DeletedByThisClient => 8,
            RemovedReason::DeletedByOtherClient => 9,
            RemovedReason::ButtonBelongsToOtherPartner => 10,
            RemovedReason::DeletedFromButton => 11,
        }
    }

    fn from_u8(v: u8) -> Option<Self> {
        match v {
            0 => Some(RemovedReason::RemovedByThisClient),
            1 => Some(RemovedReason::ForceDisconnectedByThisClient),
            2 => Some(RemovedReason::ForceDisconnectedByOtherClient),
            3 => Some(RemovedReason::ButtonIsPrivate),
            4 => Some(RemovedReason::VerifyTimeout),
            5 => Some(RemovedReason::InternetBackendError),
            6 => Some(RemovedReason::InvalidData),
            7 => Some(RemovedReason::CouldntLoadDevice),
            8 => Some(RemovedReason::DeletedByThisClient),
            9 => Some(RemovedReason::DeletedByOtherClient),
            10 => Some(RemovedReason::ButtonBelongsToOtherPartner),
            11 => Some(RemovedReason::DeletedFromButton),
            _ => None,
        }
    }
}

/// What happened to the button.
#[derive(Clone, Copy, Debug, PartialEq, Eq)]
pub enum ClickType {
    /// Pressed.
    ButtonDown,
    /// Released.
    ButtonUp,
    /// Pressed and released within a second.
    ButtonClick,
    /// Clicked once.
    ButtonSingleClick,
    /// Clicked twice, at most half a second apart.
    ButtonDoubleClick,
    /// Held for at least a second.
    ButtonHold,
}

impl WireEnum for ClickType {
    open spec fn spec_to_u8(self) -> u8 {
        match self {
            ClickType::ButtonDown => 0,
            ClickType::ButtonUp => 1,
            ClickType::ButtonClick => 2,
            ClickType::ButtonSingleClick => 3,
            ClickType::ButtonDoubleClick => 4,
            ClickType::ButtonHold => 5,
        }
    }

    open spec fn spec_from_u8(v: u8) -> Option<Self> {
        if v == 0 {
            Some(ClickType::ButtonDown)
        } else if v == 1 {
            Some(ClickType::ButtonUp)
        } else if v == 2 {
            Some(ClickType::ButtonClick)
        } else if v == 3 {
            Some(ClickType::ButtonSingleClick)
        } else if v == 4 {
            Some(ClickType::ButtonDoubleClick)
        } else if v == 5 {
            Some(ClickType::ButtonHold)
        } else {
            None
        }
    }

    proof fn lemma_from_to(self) {
    }

    proof fn lemma_to_from(v: u8) {
    }

    fn to_u8(&self) -> u8 {
        match self {
            ClickType::ButtonDown => 0,
            ClickType::ButtonUp => 1,
            ClickType::ButtonClick => 2,
            ClickType::ButtonSingleClick => 3,
            ClickType::ButtonDoubleClick => 4,
            ClickType::ButtonHold => 5,
        }
    }

    fn from_u8(v: u8) -> Option<Self> {
        match v {
            0 => Some(ClickType::ButtonDown),
            1 => Some(ClickType::ButtonUp),
            2 => Some(ClickType::ButtonClick),
            3 => Some(ClickType::ButtonSingleClick),
            4 => Some(ClickType::ButtonDoubleClick),
            5 => Some(ClickType::ButtonHold),
            _ => None,
        }
    }
}

/// Which kind of address the daemon's controller uses.
#[derive(Clone, Copy, Debug, PartialEq, Eq)]
pub enum BdAddrType {
    /// The address burnt into the controller.
    PublicBdAddrType,
    /// A configured random static address.
    RandomBdAddrType,
}

impl WireEnum for BdAddrType {
    open spec fn spec_to_u8(self) -> u8 {
        match self {
            BdAddrType::PublicBdAddrType => 0,
            BdAddrType::RandomBdAddrType => 1,
        }
    }

    open spec fn spec_from_u8(v: u8) -> Option<Self> {
        if v == 0 {
            Some(BdAddrType::PublicBdAddrType)
        } else if v == 1 {
            Some(BdAddrType::RandomBdAddrType)
        } else {
            None
        }
    }

    proof fn lemma_from_to(self) {
    }

    proof fn lemma_to_from(v: u8) {
    }

    fn to_u8(&self) -> u8 {
        match self {
            BdAddrType::PublicBdAddrType => 0,
            BdAddrType::RandomBdAddrType => 1,
        }
    }

    fn from_u8(v: u8) -> Option<Self> {
        match v {
            0 => Some(BdAddrType::PublicBdAddrType),
            1 => Some(BdAddrType::RandomBdAddrType),
            _ => None,
        }
    }
}

/// The latency a connection channel accepts.
#[derive(Clone, Copy, Debug, PartialEq, Eq)]
pub enum LatencyMode {
    /// Up to 100 ms.
    Normal,
    /// Up to 17.5 ms.
    Low,
    /// Up to 275 ms.
    High,
}

impl WireEnum for LatencyMode {
    open spec fn spec_to_u8(self) -> u8 {
        match self {
            LatencyMode::Normal => 0,
            LatencyMode::Low => 1,
            LatencyMode::High => 2,
        }
    }

    open spec fn spec_from_u8(v: u8) -> Option<Self> {
        if v == 0 {
            Some(LatencyMode::Normal)
        } else if v == 1 {
            Some(LatencyMode::Low)
        } else if v == 2 {
            Some(LatencyMode::High)
        } else {
            None
        }
    }

    proof fn lemma_from_to(self) {
    }

    proof fn lemma_to_from(v: u8) {
    }

    fn to_u8(&self) -> u8 {
        match self {
            LatencyMode::Normal => 0,
            LatencyMode::Low => 1,
            LatencyMode::High => 2,
        }
    }

    fn from_u8(v: u8) -> Option<Self> {
        match v {
            0 => Some(LatencyMode::Normal),
            1 => Some(LatencyMode::Low),
            2 => Some(LatencyMode::High),
            _ => None,
        }
    }
}

/// Whether the daemon has its Bluetooth controller.
#[derive(Clone, Copy, Debug, PartialEq, Eq)]
pub enum BluetoothControllerState {
    /// The daemon lost the controller and is trying to get it back.
    Detached,
    /// The daemon has the controller again and is resetting it.
    Resetting,
    /// The controller is up and running.
    Attached,
}

impl WireEnum for BluetoothControllerState {
    open spec fn spec_to_u8(self) -> u8 {
        match self {
            BluetoothControllerState::Detached => 0,
            BluetoothControllerState::Resetting => 1,
            BluetoothControllerState::Attached => 2,
        }
    }

    open spec fn spec_from_u8(v: u8) -> Option<Self> {
        if v == 0 {
            Some(BluetoothControllerState::Detached)
        } else if v == 1 {
            Some(BluetoothControllerState::Resetting)
        } else if v == 2 {
            Some(BluetoothControllerState::Attached)
        } else {
            None
        }
    }

    proof fn lemma_from_to(self) {
    }

    proof fn lemma_to_from(v: u8) {
    }

    fn to_u8(&self) -> u8 {
        match self {
            BluetoothControllerState::Detached => 0,
            BluetoothControllerState::Resetting => 1,
            BluetoothControllerState::Attached => 2,
        }
    }

    fn from_u8(v: u8) -> Option<Self> {
        match v {
            0 => Some(BluetoothControllerState::Detached),
            1 => Some(BluetoothControllerState::Resetting),
            2 => Some(BluetoothControllerState::Attached),
            _ => None,
        }
    }
}

/// How a scan wizard ended.
#[derive(Clone, Copy, Debug, PartialEq, Eq)]
pub enum ScanWizardResult {
    /// A button was paired and verified.
    WizardSuccess,
    /// The wizard was cancelled by command.
    WizardCancelledByUser,
    /// The wizard made no progress for too long.
    WizardFailedTimeout,
    /// The button turned private after it was found public.
    WizardButtonIsPrivate,
    /// The controller is not attached.
    WizardBluetoothUnavailable,
    /// The request to the vendor's backend failed.
    WizardInternetBackendError,
    /// The backend rejected the button's identity data.
    WizardInvalidData,
    /// The button belongs to another partner.
    WizardButtonBelongsToOtherPartner,
    /// The button is connected to another device.
    WizardButtonAlreadyConnectedToOtherDevice,
}

impl WireEnum for ScanWizardResult {
    open spec fn spec_to_u8(self) -> u8 {
        match self {
            ScanWizardResult::WizardSuccess => 0,
            ScanWizardResult::WizardCancelledByUser => 1,
            ScanWizardResult::WizardFailedTimeout => 2,
            ScanWizardResult::WizardButtonIsPrivate => 3,
            ScanWizardResult::WizardBluetoothUnavailable => 4,
            ScanWizardResult::WizardInternetBackendError => 5,
            ScanWizardResult::WizardInvalidData => 6,
            ScanWizardResult::WizardButtonBelongsToOtherPartner => 7,
            ScanWizardResult::WizardButtonAlreadyConnectedToOtherDevice => 8,
        }
    }

    open spec fn spec_from_u8(v: u8) -> Option<Self> {
        if v == 0 {
            Some(ScanWizardResult::WizardSuccess)
        } else if v == 1 {
            Some(ScanWizardResult::WizardCancelledByUser)
        } else if v == 2 {
            Some(ScanWizardResult::WizardFailedTimeout)
        } else if v == 3 {
            Some(ScanWizardResult::WizardButtonIsPrivate)
        } else if v == 4 {
            Some(ScanWizardResult::WizardBluetoothUnavailable)
        } else if v == 5 {
            Some(ScanWizardResult::WizardInternetBackendError)
        } else if v == 6 {
            Some(ScanWizardResult::WizardInvalidData)
        } else if v == 7 {
            Some(ScanWizardResult::WizardButtonBelongsToOtherPartner)
        } else if v == 8 {
            Some(ScanWizardResult::WizardButtonAlreadyConnectedToOtherDevice)
        } else {
            None
        }
    }

    proof fn lemma_from_to(self) {
    }

    proof fn lemma_to_from(v: u8) {
    }

    fn to_u8(&self) -> u8 {
        match self {
            ScanWizardResult::WizardSuccess => 0,
            ScanWizardResult::WizardCancelledByUser => 1,
            ScanWizardResult::WizardFailedTimeout => 2,
            ScanWizardResult::WizardButtonIsPrivate => 3,
            ScanWizardResult::WizardBluetoothUnavailable => 4,
            ScanWizardResult::WizardInternetBackendError => 5,
            ScanWizardResult::WizardInvalidData => 6,
            ScanWizardResult::WizardButtonBelongsToOtherPartner => 7,
            ScanWizardResult::WizardButtonAlreadyConnectedToOtherDevice => 8,
        }
    }

    fn from_u8(v: u8) -> Option<Self> {
        match v {
            0 => Some(ScanWizardResult::WizardSuccess),
            1 => Some(ScanWizardResult::WizardCancelledByUser),
            2 => Some(ScanWizardResult::WizardFailedTimeout),
            3 => Some(ScanWizardResult::WizardButtonIsPrivate),
            4 => Some(ScanWizardResult::WizardBluetoothUnavailable),
            5 => Some(ScanWizardResult::WizardInternetBackendError),
            6 => Some(ScanWizardResult::WizardInvalidData),
            7 => Some(ScanWizardResult::WizardButtonBelongsToOtherPartner),
            8 => Some(ScanWizardResult::WizardButtonAlreadyConnectedToOtherDevice),
            _ => None,
        }
    }
}
impl ClickType {
    /// The click type's name, as messages give it.
    pub open spec fn spec_name(self) -> Seq<char> {
        match self {
            ClickType::ButtonDown => "ButtonDown"@,
            ClickType::ButtonUp => "ButtonUp"@,
            ClickType::ButtonClick => "ButtonClick"@,
            ClickType::ButtonSingleClick => "ButtonSingleClick"@,
            ClickType::ButtonDoubleClick => "ButtonDoubleClick"@,
            ClickType::ButtonHold => "ButtonHold"@,
        }
    }

    /// The click type's name, as messages give it.
    pub fn name(&self) -> (s: &'static str)
        ensures
            s@ == self.spec_name(),
    {
        match self {
            ClickType::ButtonDown => "ButtonDown",
            ClickType::ButtonUp => "ButtonUp",
            ClickType::ButtonClick => "ButtonClick",
            ClickType::ButtonSingleClick => "ButtonSingleClick",
            ClickType::ButtonDoubleClick => "ButtonDoubleClick",
            ClickType::ButtonHold => "ButtonHold",
        }
    }
}

} // verus!
