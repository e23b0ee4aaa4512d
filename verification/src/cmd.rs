//! Message bodies on their own, for callers that pair a body with an opcode
//! themselves.
//!
//! A body is the message's fields in the order declared: integers least
//! significant byte first, an address as its six bytes, a code as one byte.

use crate::enums::WireEnum;
use crate::text::{hex_encode, hex_of};
use crate::wire::{
    lemma_load_u16_at, lemma_load_u32_at, spec_load_bd_addr, spec_load_u16, spec_load_u32,
    spec_store_u16, spec_store_u32, store_bytes, store_u16, store_u32,
};
use vstd::prelude::*;

verus! {

/// The body of a message to the daemon.
pub trait Message {
    /// The bytes of the body.
    spec fn spec_marshal(&self) -> Seq<u8>;

    /// The message that a body spells, where it spells one of this kind.
    spec fn spec_unmarshal(body: Seq<u8>) -> Option<Self> where Self: Sized;

    /// A message can be read back from its own body.
    proof fn lemma_round_trip(&self) where Self: Sized
        ensures
            Self::spec_unmarshal(self.spec_marshal()) == Some(*self),
    ;

    /// Encodes the body.
    fn marshal(&self) -> (v: Vec<u8>)
        ensures
            v@ == self.spec_marshal(),
    ;
}

/// Renders a message for a log: its body in hexadecimal digits.
pub fn describe<M: Message>(msg: &M) -> (s: String)
    ensures
        s@ == hex_of(msg.spec_marshal()),
{
    let body = msg.marshal();
    hex_encode(body.as_slice())
}

/// The latency a connection channel accepts.
#[derive(Clone, Copy, Debug, PartialEq, Eq)]
pub enum LatencyMode {
    /// Up to 100 ms.
    Normal,
    /// Up to 17.5 ms.
    Low,
    /// Up to 275 ms.
    High,
}

impl WireEnum for LatencyMode {
    open spec fn spec_to_u8(self) -> u8 {
        match self {
            LatencyMode::Normal => 0,
            LatencyMode::Low => 1,
            LatencyMode::High => 2,
        }
    }

    open spec fn spec_from_u8(v: u8) -> Option<Self> {
        if v == 0 {
            Some(LatencyMode::Normal)
        } else if v == 1 {
            Some(LatencyMode::Low)
        } else if v == 2 {
            Some(LatencyMode::High)
        } else {
            None
        }
    }

    proof fn lemma_from_to(self) {
    }

    proof fn lemma_to_from(v: u8) {
    }

    fn to_u8(&self) -> u8 {
        match self {
            LatencyMode::Normal => 0,
            LatencyMode::Low => 1,
            LatencyMode::High => 2,
        }
    }

    fn from_u8(v: u8) -> Option<Self> {
        match v {
            0 => Some(LatencyMode::Normal),
            1 => Some(LatencyMode::Low),
            2 => Some(LatencyMode::High),
            _ => None,
        }
    }
}

/// A message with the opcode it travels under.
pub struct Command {
    pub opcode: u8,
    pub message: dyn Message,
}

/// The empty body of a request for the daemon's state.
#[derive(Clone, Copy, Debug, PartialEq, Eq)]
pub struct GetInfoMsg {}

impl Message for GetInfoMsg {
    open spec fn spec_marshal(&self) -> Seq<u8> {
        Seq::empty()
    }

    open spec fn spec_unmarshal(body: Seq<u8>) -> Option<Self> {
        if body.len() != 0 {
            None
        } else {
            Some(GetInfoMsg {  })
        }
    }

    proof fn lemma_round_trip(&self) {
    }

    fn marshal(&self) -> Vec<u8> {
        Vec::new()
    }
}

/// The body of a request to start a scanner.
#[derive(Clone, Copy, Debug, PartialEq, Eq)]
pub struct CreateScannerMsg {
    /// The scanner.
    pub scan_id: u32,
}

impl Message for CreateScannerMsg {
    open spec fn spec_marshal(&self) -> Seq<u8> {
        spec_store_u32(self.scan_id)
    }

    open spec fn spec_unmarshal(body: Seq<u8>) -> Option<Self> {
        if body.len() != 4 {
            None
        } else {
            Some(
                CreateScannerMsg {
                    scan_id: spec_load_u32(body, 0),
                },
            )
        }
    }

    proof fn lemma_round_trip(&self) {
        let body = self.spec_marshal();
        assert(body.subrange(0, 4) =~= spec_store_u32(self.scan_id));
        lemma_load_u32_at(body, 0, self.scan_id);
    }

    fn marshal(&self) -> Vec<u8> {
        let mut v: Vec<u8> = Vec::new();
        store_u32(&mut v, self.scan_id);
        assert(v@ =~= self.spec_marshal());
        v
    }
}

/// The body of a request to stop a scanner.
#[derive(Clone, Copy, Debug, PartialEq, Eq)]
pub struct RemoveScannerMsg {
    /// The scanner.
    pub scan_id: u32,
}

impl Message for RemoveScannerMsg {
    open spec fn spec_marshal(&self) -> Seq<u8> {
        spec_store_u32(self.scan_id)
    }

    open spec fn spec_unmarshal(body: Seq<u8>) -> Option<Self> {
        if body.len() != 4 {
            None
        } else {
            Some(
                RemoveScannerMsg {
                    scan_id: spec_load_u32(body, 0),
                },
            )
        }
    }

    proof fn lemma_round_trip(&self) {
        let body = self.spec_marshal();
        assert(body.subrange(0, 4) =~= spec_store_u32(self.scan_id));
        lemma_load_u32_at(body, 0, self.scan_id);
    }

    fn marshal(&self) -> Vec<u8> {
        let mut v: Vec<u8> = Vec::new();
        store_u32(&mut v, self.scan_id);
        assert(v@ =~= self.spec_marshal());
        v
    }
}

/// The body of a request to open a connection channel to a button.
#[derive(Clone, Copy, Debug, PartialEq, Eq)]
pub struct CreateConnectionChannelMsg {
    /// The channel.
    pub conn_id: u32,
    /// The button's address.
    pub bd_addr: [u8; 6],
    /// The latency the channel accepts.
    pub latency_mode: LatencyMode,
    /// Seconds of silence after which the button is disconnected.
    pub auto_disconnect_time: u16,
}

impl Message for CreateConnectionChannelMsg {
    open spec fn spec_marshal(&self) -> Seq<u8> {
        spec_store_u32(self.conn_id) + self.bd_addr@
            + seq![self.latency_mode.spec_to_u8()] + spec_store_u16(self.auto_disconnect_time)
    }

    open spec fn spec_unmarshal(body: Seq<u8>) -> Option<Self> {
        if body.len() != 13 {
            None
        } else if LatencyMode::spec_from_u8(body[10]) is None {
            None
        } else {
            Some(
                CreateConnectionChannelMsg {
                    conn_id: spec_load_u32(body, 0),
                    bd_addr: spec_load_bd_addr(body, 4).0,
                    latency_mode: LatencyMode::spec_from_u8(body[10])->0,
                    auto_disconnect_time: spec_load_u16(body, 11),
                },
            )
        }
    }

    proof fn lemma_round_trip(&self) {
        let body = self.spec_marshal();
        assert(body.subrange(0, 4) =~= spec_store_u32(self.conn_id));
        lemma_load_u32_at(body, 0, self.conn_id);
        assert(spec_load_bd_addr(body, 4).0 =~= self.bd_addr);
        self.latency_mode.lemma_from_to();
        assert(body.subrange(11, 13) =~= spec_store_u16(self.auto_disconnect_time));
        lemma_load_u16_at(body, 11, self.auto_disconnect_time);
    }

    fn marshal(&self) -> Vec<u8> {
        let mut v: Vec<u8> = Vec::new();
        store_u32(&mut v, self.conn_id);
        store_bytes(&mut v, self.bd_addr.as_slice());
        v.push(self.latency_mode.to_u8());
        store_u16(&mut v, self.auto_disconnect_time);
        assert(v@ =~= self.spec_marshal());
        v
    }
}

/// The body of a request to close a connection channel.
#[derive(Clone, Copy, Debug, PartialEq, Eq)]
pub struct RemoveConnectionChannelMsg {
    /// The channel.
    pub conn_id: u32,
}

impl Message for RemoveConnectionChannelMsg {
    open spec fn spec_marshal(&self) -> Seq<u8> {
        spec_store_u32(self.conn_id)
    }

    open spec fn spec_unmarshal(body: Seq<u8>) -> Option<Self> {
        if body.len() != 4 {
            None
        } else {
            Some(
                RemoveConnectionChannelMsg {
                    conn_id: spec_load_u32(body, 0),
                },
            )
        }
    }

    proof fn lemma_round_trip(&self) {
        let body = self.spec_marshal();
        assert(body.subrange(0, 4) =~= spec_store_u32(self.conn_id));
        lemma_load_u32_at(body, 0, self.conn_id);
    }

    fn marshal(&self) -> Vec<u8> {
        let mut v: Vec<u8> = Vec::new();
        store_u32(&mut v, self.conn_id);
        assert(v@ =~= self.spec_marshal());
        v
    }
}

/// The body of a request to close every client's channels to a button.
#[derive(Clone, Copy, Debug, PartialEq, Eq)]
pub struct ForceDisconnectMsg {
    /// The button's address.
    pub bd_addr: [u8; 6],
}

impl Message for ForceDisconnectMsg {
    open spec fn spec_marshal(&self) -> Seq<u8> {
        self.bd_addr@
    }

    open spec fn spec_unmarshal(body: Seq<u8>) -> Option<Self> {
        if body.len() != 6 {
            None
        } else {
            Some(
                ForceDisconnectMsg {
                    bd_addr: spec_load_bd_addr(body, 0).0,
                },
            )
        }
    }

    proof fn lemma_round_trip(&self) {
        let body = self.spec_marshal();
        assert(spec_load_bd_addr(body, 0).0 =~= self.bd_addr);
    }

    fn marshal(&self) -> Vec<u8> {
        let mut v: Vec<u8> = Vec::new();
        store_bytes(&mut v, self.bd_addr.as_slice());
        assert(v@ =~= self.spec_marshal());
        v
    }
}

/// The body of a request to change a channel's latency and auto-disconnect time.
#[derive(Clone, Copy, Debug, PartialEq, Eq)]
pub struct ChangeModeParametersMsg {
    /// The channel.
    pub conn_id: u32,
    /// The latency the channel accepts.
    pub latency_mode: LatencyMode,
    /// Seconds of silence after which the button is disconnected.
    pub auto_disconnect_time: u16,
}

impl Message for ChangeModeParametersMsg {
    open spec fn spec_marshal(&self) -> Seq<u8> {
        spec_store_u32(self.conn_id) + seq![self.latency_mode.spec_to_u8()]
            + spec_store_u16(self.auto_disconnect_time)
    }

    open spec fn spec_unmarshal(body: Seq<u8>) -> Option<Self> {
        if body.len() != 7 {
            None
        } else if LatencyMode::spec_from_u8(body[4]) is None {
            None
        } else {
            Some(
                ChangeModeParametersMsg {
                    conn_id: spec_load_u32(body, 0),
                    latency_mode: LatencyMode::spec_from_u8(body[4])->0,
                    auto_disconnect_time: spec_load_u16(body, 5),
                },
            )
        }
    }

    proof fn lemma_round_trip(&self) {
        let body = self.spec_marshal();
        assert(body.subrange(0, 4) =~= spec_store_u32(self.conn_id));
        lemma_load_u32_at(body, 0, self.conn_id);
        self.latency_mode.lemma_from_to();
        assert(body.subrange(5, 7) =~= spec_store_u16(self.auto_disconnect_time));
        lemma_load_u16_at(body, 5, self.auto_disconnect_time);
    }

    fn marshal(&self) -> Vec<u8> {
        let mut v: Vec<u8> = Vec::new();
        store_u32(&mut v, self.conn_id);
        v.push(self.latency_mode.to_u8());
        store_u16(&mut v, self.auto_disconnect_time);
        assert(v@ =~= self.spec_marshal());
        v
    }
}

/// The body of a ping.
#[derive(Clone, Copy, Debug, PartialEq, Eq)]
pub struct PingMsg {
    /// An identifier that the answer repeats.
    pub ping_id: u32,
}

impl Message for PingMsg {
    open spec fn spec_marshal(&self) -> Seq<u8> {
        spec_store_u32(self.ping_id)
    }

    open spec fn spec_unmarshal(body: Seq<u8>) -> Option<Self> {
        if body.len() != 4 {
            None
        } else {
            Some(
                PingMsg {
                    ping_id: spec_load_u32(body, 0),
                },
            )
        }
    }

    proof fn lemma_round_trip(&self) {
        let body = self.spec_marshal();
        assert(body.subrange(0, 4) =~= spec_store_u32(self.ping_id));
        lemma_load_u32_at(body, 0, self.ping_id);
    }

    fn marshal(&self) -> Vec<u8> {
        let mut v: Vec<u8> = Vec::new();
        store_u32(&mut v, self.ping_id);
        assert(v@ =~= self.spec_marshal());
        v
    }
}

/// The body of a request for what the daemon knows of a button.
#[derive(Clone, Copy, Debug, PartialEq, Eq)]
pub struct GetButtonInfoMsg {
    /// The button's address.
    pub bd_addr: [u8; 6],
}

impl Message for GetButtonInfoMsg {
    open spec fn spec_marshal(&self) -> Seq<u8> {
        self.bd_addr@
    }

    open spec fn spec_unmarshal(body: Seq<u8>) -> Option<Self> {
        if body.len() != 6 {
            None
        } else {
            Some(
                GetButtonInfoMsg {
                    bd_addr: spec_load_bd_addr(body, 0).0,
                },
            )
        }
    }

    proof fn lemma_round_trip(&self) {
        let body = self.spec_marshal();
        assert(spec_load_bd_addr(body, 0).0 =~= self.bd_addr);
    }

    fn marshal(&self) -> Vec<u8> {
        let mut v: Vec<u8> = Vec::new();
        store_bytes(&mut v, self.bd_addr.as_slice());
        assert(v@ =~= self.spec_marshal());
        v
    }
}

/// The body of a request to start a scan wizard.
#[derive(Clone, Copy, Debug, PartialEq, Eq)]
pub struct CreateScanWizardMsg {
    /// The wizard.
    pub scan_wizard_id: u32,
}

impl Message for CreateScanWizardMsg {
    open spec fn spec_marshal(&self) -> Seq<u8> {
        spec_store_u32(self.scan_wizard_id)
    }

    open spec fn spec_unmarshal(body: Seq<u8>) -> Option<Self> {
        if body.len() != 4 {
            None
        } else {
            Some(
                CreateScanWizardMsg {
                    scan_wizard_id: spec_load_u32(body, 0),
                },
            )
        }
    }

    proof fn lemma_round_trip(&self) {
        let body = self.spec_marshal();
        assert(body.subrange(0, 4) =~= spec_store_u32(self.scan_wizard_id));
        lemma_load_u32_at(body, 0, self.scan_wizard_id);
    }

    fn marshal(&self) -> Vec<u8> {
        let mut v: Vec<u8> = Vec::new();
        store_u32(&mut v, self.scan_wizard_id);
        assert(v@ =~= self.spec_marshal());
        v
    }
}

/// The body of a request to cancel a scan wizard.
#[derive(Clone, Copy, Debug, PartialEq, Eq)]
pub struct CancelScanWizardMsg {
    /// The wizard.
    pub scan_wizard_id: u32,
}

impl Message for CancelScanWizardMsg {
    open spec fn spec_marshal(&self) -> Seq<u8> {
        spec_store_u32(self.scan_wizard_id)
    }

    open spec fn spec_unmarshal(body: Seq<u8>) -> Option<Self> {
        if body.len() != 4 {
            None
        } else {
            Some(
                CancelScanWizardMsg {
                    scan_wizard_id: spec_load_u32(body, 0),
                },
            )
        }
    }

    proof fn lemma_round_trip(&self) {
        let body = self.spec_marshal();
        assert(body.subrange(0, 4) =~= spec_store_u32(self.scan_wizard_id));
        lemma_load_u32_at(body, 0, self.scan_wizard_id);
    }

    fn marshal(&self) -> Vec<u8> {
        let mut v: Vec<u8> = Vec::new();
        store_u32(&mut v, self.scan_wizard_id);
        assert(v@ =~= self.spec_marshal());
        v
    }
}

/// The body of a request to delete a verified button.
#[derive(Clone, Copy, Debug, PartialEq, Eq)]
pub struct DeleteButtonMsg {
    /// The button's address.
    pub bd_addr: [u8; 6],
}

impl Message for DeleteButtonMsg {
    open spec fn spec_marshal(&self) -> Seq<u8> {
        self.bd_addr@
    }

    open spec fn spec_unmarshal(body: Seq<u8>) -> Option<Self> {
        if body.len() != 6 {
            None
        } else {
            Some(
                DeleteButtonMsg {
                    bd_addr: spec_load_bd_addr(body, 0).0,
                },
            )
        }
    }

    proof fn lemma_round_trip(&self) {
        let body = self.spec_marshal();
        assert(spec_load_bd_addr(body, 0).0 =~= self.bd_addr);
    }

    fn marshal(&self) -> Vec<u8> {
        let mut v: Vec<u8> = Vec::new();
        store_bytes(&mut v, self.bd_addr.as_slice());
        assert(v@ =~= self.spec_marshal());
        v
    }
}

/// The body of a request for a button's battery level.
#[derive(Clone, Copy, Debug, PartialEq, Eq)]
pub struct CreateBatteryStatusListenerMsg {
    /// The listener.
    pub listener_id: u32,
    /// The button's address.
    pub bd_addr: [u8; 6],
}

impl Message for CreateBatteryStatusListenerMsg {
    open spec fn spec_marshal(&self) -> Seq<u8> {
        spec_store_u32(self.listener_id) + self.bd_addr@
    }

    open spec fn spec_unmarshal(body: Seq<u8>) -> Option<Self> {
        if body.len() != 10 {
            None
        } else {
            Some(
                CreateBatteryStatusListenerMsg {
                    listener_id: spec_load_u32(body, 0),
                    bd_addr: spec_load_bd_addr(body, 4).0,
                },
            )
        }
    }

    proof fn lemma_round_trip(&self) {
        let body = self.spec_marshal();
        assert(body.subrange(0, 4) =~= spec_store_u32(self.listener_id));
        lemma_load_u32_at(body, 0, self.listener_id);
        assert(spec_load_bd_addr(body, 4).0 =~= self.bd_addr);
    }

    fn marshal(&self) -> Vec<u8> {
        let mut v: Vec<u8> = Vec::new();
        store_u32(&mut v, self.listener_id);
        store_bytes(&mut v, self.bd_addr.as_slice());
        assert(v@ =~= self.spec_marshal());
        v
    }
}

/// The body of a request to remove a battery status listener.
#[derive(Clone, Copy, Debug, PartialEq, Eq)]
pub struct RemoveBatteryStatusListenerMsg {
    /// The listener.
    pub listener_id: u32,
}

impl Message for RemoveBatteryStatusListenerMsg {
    open spec fn spec_marshal(&self) -> Seq<u8> {
        spec_store_u32(self.listener_id)
    }

    open spec fn spec_unmarshal(body: Seq<u8>) -> Option<Self> {
        if body.len() != 4 {
            None
        } else {
            Some(
                RemoveBatteryStatusListenerMsg {
                    listener_id: spec_load_u32(body, 0),
                },
            )
        }
    }

    proof fn lemma_round_trip(&self) {
        let body = self.spec_marshal();
        assert(body.subrange(0, 4) =~= spec_store_u32(self.listener_id));
        lemma_load_u32_at(body, 0, self.listener_id);
    }

    fn marshal(&self) -> Vec<u8> {
        let mut v: Vec<u8> = Vec::new();
        store_u32(&mut v, self.listener_id);
        assert(v@ =~= self.spec_marshal());
        v
    }
}

} // verus!
