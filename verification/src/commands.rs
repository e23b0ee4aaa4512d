//! Commands: what a client sends, each with its opcode and the bytes of its
//! body.
//!
//! A body is the command's fields in the order declared: integers least
//! significant byte first, an address as its six bytes, a code as one byte.
//! Nothing in it says how long it is; every kind of command has one size.

use crate::enums::{LatencyMode, WireEnum};
use crate::text::{decimal, hex_encode, hex_of, spec_decimal};
use crate::wire::{
    lemma_load_u16_at, lemma_load_u32_at, spec_load_bd_addr, spec_load_u16, spec_load_u32,
    spec_store_u16, spec_store_u32, store_bytes, store_u16, store_u32,
};
use vstd::prelude::*;
use vstd::string::StringExecFns;

verus! {

/// The longest body a frame can carry: the frame's two-byte length counts the
/// opcode and the body.
pub const MAX_BODY: usize = 0xfffe;

/// A message to the daemon.
pub trait Command: Sized {
    /// The bytes of the body.
    spec fn spec_marshal(&self) -> Seq<u8>;

    /// The opcode that the frame carries before the body.
    spec fn spec_opcode(&self) -> u8;

    /// The command that a body spells, where it spells one of this kind.
    spec fn spec_unmarshal(body: Seq<u8>) -> Option<Self>;

    /// A command can be read back from its own body: no two commands of one
    /// kind share a body, and nothing of a command is lost in it.
    proof fn lemma_round_trip(&self)
        ensures
            Self::spec_unmarshal(self.spec_marshal()) == Some(*self),
    ;

    /// Encodes the body. With its opcode it fits a frame.
    fn marshal(&self) -> (v: Vec<u8>)
        ensures
            v@ == self.spec_marshal(),
            v@.len() <= MAX_BODY,
    ;

    fn opcode(&self) -> (op: u8)
        ensures
            op == self.spec_opcode(),
    ;
}

/// A command as a line for a log: its opcode, its body in hexadecimal digits,
/// and how many digits that is.
pub open spec fn spec_describe(opcode: u8, body: Seq<u8>) -> Seq<char> {
    "Opcode "@ + spec_decimal(opcode as nat) + ", Body "@ + hex_of(body) + ", Length "@
        + spec_decimal(2 * body.len())
}

/// Renders `cmd` as a line for a log.
pub fn describe<C: Command>(cmd: &C) -> (s: String)
    ensures
        s@ == spec_describe(cmd.spec_opcode(), cmd.spec_marshal()),
{
    let body = cmd.marshal();
    let digits = hex_encode(body.as_slice());
    let mut s = String::from_str("Opcode ");
    s.append(decimal(cmd.opcode() as usize).as_str());
    s.append(", Body ");
    s.append(digits.as_str());
    s.append(", Length ");
    s.append(decimal(2 * body.len()).as_str());
    s
}

/// Asks for the daemon's state; a `GetInfoResponse` event answers.
#[derive(Clone, Copy, Debug, PartialEq, Eq)]
pub struct GetInfo {}

impl Command for GetInfo {
    open spec fn spec_marshal(&self) -> Seq<u8> {
        Seq::empty()
    }

    open spec fn spec_opcode(&self) -> u8 {
        0
    }

    open spec fn spec_unmarshal(body: Seq<u8>) -> Option<Self> {
        if body.len() != 0 {
            None
        } else {
            Some(GetInfo {  })
        }
    }

    proof fn lemma_round_trip(&self) {
    }

    fn marshal(&self) -> Vec<u8> {
        Vec::new()
    }

    fn opcode(&self) -> u8 {
        0
    }
}

/// Starts a scanner: every advertisement heard from a button is reported
/// under `scan_id` until the scanner is removed.
#[derive(Clone, Copy, Debug, PartialEq, Eq)]
pub struct CreateScanner {
    /// The caller's name for the scanner.
    pub scan_id: u32,
}

impl Command for CreateScanner {
    open spec fn spec_marshal(&self) -> Seq<u8> {
        spec_store_u32(self.scan_id)
    }

    open spec fn spec_opcode(&self) -> u8 {
        1
    }

    open spec fn spec_unmarshal(body: Seq<u8>) -> Option<Self> {
        if body.len() != 4 {
            None
        } else {
            Some(
                CreateScanner {
                    scan_id: spec_load_u32(body, 0),
                },
            )
        }
    }

    proof fn lemma_round_trip(&self) {
        let body = self.spec_marshal();
        assert(body.subrange(0, 4) =~= spec_store_u32(self.scan_id));
        lemma_load_u32_at(body, 0, self.scan_id);
    }

    fn marshal(&self) -> Vec<u8> {
        let mut v: Vec<u8> = Vec::new();
        store_u32(&mut v, self.scan_id);
        assert(v@ =~= self.spec_marshal());
        v
    }

    fn opcode(&self) -> u8 {
        1
    }
}

/// Stops a scanner.
#[derive(Clone, Copy, Debug, PartialEq, Eq)]
pub struct RemoveScanner {
    /// The scanner to stop.
    pub scan_id: u32,
}

impl Command for RemoveScanner {
    open spec fn spec_marshal(&self) -> Seq<u8> {
        spec_store_u32(self.scan_id)
    }

    open spec fn spec_opcode(&self) -> u8 {
        2
    }

    open spec fn spec_unmarshal(body: Seq<u8>) -> Option<Self> {
        if body.len() != 4 {
            None
        } else {
            Some(
                RemoveScanner {
                    scan_id: spec_load_u32(body, 0),
                },
            )
        }
    }

    proof fn lemma_round_trip(&self) {
        let body = self.spec_marshal();
        assert(body.subrange(0, 4) =~= spec_store_u32(self.scan_id));
        lemma_load_u32_at(body, 0, self.scan_id);
    }

    fn marshal(&self) -> Vec<u8> {
        let mut v: Vec<u8> = Vec::new();
        store_u32(&mut v, self.scan_id);
        assert(v@ =~= self.spec_marshal());
        v
    }

    fn opcode(&self) -> u8 {
        2
    }
}

/// Opens a connection channel to a button; a `CreateConnectionChannelResponse` event answers.
#[derive(Clone, Copy, Debug, PartialEq, Eq)]
pub struct CreateConnectionChannel {
    /// The caller's name for the channel.
    pub conn_id: u32,
    /// The button's address.
    pub bd_addr: [u8; 6],
    /// The latency the channel accepts.
    pub latency_mode: LatencyMode,
    /// Seconds of silence after which the button is disconnected.
    pub auto_disconnect_time: u16,
}

impl Command for CreateConnectionChannel {
    open spec fn spec_marshal(&self) -> Seq<u8> {
        spec_store_u32(self.conn_id) + self.bd_addr@
            + seq![self.latency_mode.spec_to_u8()] + spec_store_u16(self.auto_disconnect_time)
    }

    open spec fn spec_opcode(&self) -> u8 {
        3
    }

    open spec fn spec_unmarshal(body: Seq<u8>) -> Option<Self> {
        if body.len() != 13 {
            None
        } else if LatencyMode::spec_from_u8(body[10]) is None {
            None
        } else {
            Some(
                CreateConnectionChannel {
                    conn_id: spec_load_u32(body, 0),
                    bd_addr: spec_load_bd_addr(body, 4).0,
                    latency_mode: LatencyMode::spec_from_u8(body[10])->0,
                    auto_disconnect_time: spec_load_u16(body, 11),
                },
            )
        }
    }

    proof fn lemma_round_trip(&self) {
        let body = self.spec_marshal();
        assert(body.subrange(0, 4) =~= spec_store_u32(self.conn_id));
        lemma_load_u32_at(body, 0, self.conn_id);
        assert(spec_load_bd_addr(body, 4).0 =~= self.bd_addr);
        self.latency_mode.lemma_from_to();
        assert(body.subrange(11, 13) =~= spec_store_u16(self.auto_disconnect_time));
        lemma_load_u16_at(body, 11, self.auto_disconnect_time);
    }

    fn marshal(&self) -> Vec<u8> {
        let mut v: Vec<u8> = Vec::new();
        store_u32(&mut v, self.conn_id);
        store_bytes(&mut v, self.bd_addr.as_slice());
        v.push(self.latency_mode.to_u8());
        store_u16(&mut v, self.auto_disconnect_time);
        assert(v@ =~= self.spec_marshal());
        v
    }

    fn opcode(&self) -> u8 {
        3
    }
}

/// Closes a connection channel.
#[derive(Clone, Copy, Debug, PartialEq, Eq)]
pub struct RemoveConnectionChannel {
    /// The channel to close.
    pub conn_id: u32,
}

impl Command for RemoveConnectionChannel {
    open spec fn spec_marshal(&self) -> Seq<u8> {
        spec_store_u32(self.conn_id)
    }

    open spec fn spec_opcode(&self) -> u8 {
        4
    }

    open spec fn spec_unmarshal(body: Seq<u8>) -> Option<Self> {
        if body.len() != 4 {
            None
        } else {
            Some(
                RemoveConnectionChannel {
                    conn_id: spec_load_u32(body, 0),
                },
            )
        }
    }

    proof fn lemma_round_trip(&self) {
        let body = self.spec_marshal();
        assert(body.subrange(0, 4) =~= spec_store_u32(self.conn_id));
        lemma_load_u32_at(body, 0, self.conn_id);
    }

    fn marshal(&self) -> Vec<u8> {
        let mut v: Vec<u8> = Vec::new();
        store_u32(&mut v, self.conn_id);
        assert(v@ =~= self.spec_marshal());
        v
    }

    fn opcode(&self) -> u8 {
        4
    }
}

/// Closes every client's channels to a button.
#[derive(Clone, Copy, Debug, PartialEq, Eq)]
pub struct ForceDisconnect {
    /// The button's address.
    pub bd_addr: [u8; 6],
}

impl Command for ForceDisconnect {
    open spec fn spec_marshal(&self) -> Seq<u8> {
        self.bd_addr@
    }

    open spec fn spec_opcode(&self) -> u8 {
        5
    }

    open spec fn spec_unmarshal(body: Seq<u8>) -> Option<Self> {
        if body.len() != 6 {
            None
        } else {
            Some(
                ForceDisconnect {
                    bd_addr: spec_load_bd_addr(body, 0).0,
                },
            )
        }
    }

    proof fn lemma_round_trip(&self) {
        let body = self.spec_marshal();
        assert(spec_load_bd_addr(body, 0).0 =~= self.bd_addr);
    }

    fn marshal(&self) -> Vec<u8> {
        let mut v: Vec<u8> = Vec::new();
        store_bytes(&mut v, self.bd_addr.as_slice());
        assert(v@ =~= self.spec_marshal());
        v
    }

    fn opcode(&self) -> u8 {
        5
    }
}

/// Changes the latency and the auto-disconnect time of a channel.
#[derive(Clone, Copy, Debug, PartialEq, Eq)]
pub struct ChangeModeParameters {
    /// The channel.
    pub conn_id: u32,
    /// The latency the channel accepts from now on.
    pub latency_mode: LatencyMode,
    /// The auto-disconnect time, applied when the button next connects.
    pub auto_disconnect_time: u16,
}

impl Command for ChangeModeParameters {
    open spec fn spec_marshal(&self) -> Seq<u8> {
        spec_store_u32(self.conn_id) + seq![self.latency_mode.spec_to_u8()]
            + spec_store_u16(self.auto_disconnect_time)
    }

    open spec fn spec_opcode(&self) -> u8 {
        6
    }

    open spec fn spec_unmarshal(body: Seq<u8>) -> Option<Self> {
        if body.len() != 7 {
            None
        } else if LatencyMode::spec_from_u8(body[4]) is None {
            None
        } else {
            Some(
                ChangeModeParameters {
                    conn_id: spec_load_u32(body, 0),
                    latency_mode: LatencyMode::spec_from_u8(body[4])->0,
                    auto_disconnect_time: spec_load_u16(body, 5),
                },
            )
        }
    }

    proof fn lemma_round_trip(&self) {
        let body = self.spec_marshal();
        assert(body.subrange(0, 4) =~= spec_store_u32(self.conn_id));
        lemma_load_u32_at(body, 0, self.conn_id);
        self.latency_mode.lemma_from_to();
        assert(body.subrange(5, 7) =~= spec_store_u16(self.auto_disconnect_time));
        lemma_load_u16_at(body, 5, self.auto_disconnect_time);
    }

    fn marshal(&self) -> Vec<u8> {
        let mut v: Vec<u8> = Vec::new();
        store_u32(&mut v, self.conn_id);
        v.push(self.latency_mode.to_u8());
        store_u16(&mut v, self.auto_disconnect_time);
        assert(v@ =~= self.spec_marshal());
        v
    }

    fn opcode(&self) -> u8 {
        6
    }
}

/// Asks the daemon to answer with a `PingResponse` event.
#[derive(Clone, Copy, Debug, PartialEq, Eq)]
pub struct Ping {
    /// An identifier that the answer repeats.
    pub ping_id: u32,
}

impl Command for Ping {
    open spec fn spec_marshal(&self) -> Seq<u8> {
        spec_store_u32(self.ping_id)
    }

    open spec fn spec_opcode(&self) -> u8 {
        7
    }

    open spec fn spec_unmarshal(body: Seq<u8>) -> Option<Self> {
        if body.len() != 4 {
            None
        } else {
            Some(
                Ping {
                    ping_id: spec_load_u32(body, 0),
                },
            )
        }
    }

    proof fn lemma_round_trip(&self) {
        let body = self.spec_marshal();
        assert(body.subrange(0, 4) =~= spec_store_u32(self.ping_id));
        lemma_load_u32_at(body, 0, self.ping_id);
    }

    fn marshal(&self) -> Vec<u8> {
        let mut v: Vec<u8> = Vec::new();
        store_u32(&mut v, self.ping_id);
        assert(v@ =~= self.spec_marshal());
        v
    }

    fn opcode(&self) -> u8 {
        7
    }
}

/// Asks what the daemon knows of a verified button.
#[derive(Clone, Copy, Debug, PartialEq, Eq)]
pub struct GetButtonInfo {
    /// The button's address.
    pub bd_addr: [u8; 6],
}

impl Command for GetButtonInfo {
    open spec fn spec_marshal(&self) -> Seq<u8> {
        self.bd_addr@
    }

    open spec fn spec_opcode(&self) -> u8 {
        8
    }

    open spec fn spec_unmarshal(body: Seq<u8>) -> Option<Self> {
        if body.len() != 6 {
            None
        } else {
            Some(
                GetButtonInfo {
                    bd_addr: spec_load_bd_addr(body, 0).0,
                },
            )
        }
    }

    proof fn lemma_round_trip(&self) {
        let body = self.spec_marshal();
        assert(spec_load_bd_addr(body, 0).0 =~= self.bd_addr);
    }

    fn marshal(&self) -> Vec<u8> {
        let mut v: Vec<u8> = Vec::new();
        store_bytes(&mut v, self.bd_addr.as_slice());
        assert(v@ =~= self.spec_marshal());
        v
    }

    fn opcode(&self) -> u8 {
        8
    }
}

/// Starts a scan wizard.
#[derive(Clone, Copy, Debug, PartialEq, Eq)]
pub struct CreateScanWizard {
    /// The caller's name for the wizard.
    pub scan_wizard_id: u32,
}

impl Command for CreateScanWizard {
    open spec fn spec_marshal(&self) -> Seq<u8> {
        spec_store_u32(self.scan_wizard_id)
    }

    open spec fn spec_opcode(&self) -> u8 {
        9
    }

    open spec fn spec_unmarshal(body: Seq<u8>) -> Option<Self> {
        if body.len() != 4 {
            None
        } else {
            Some(
                CreateScanWizard {
                    scan_wizard_id: spec_load_u32(body, 0),
                },
            )
        }
    }

    proof fn lemma_round_trip(&self) {
        let body = self.spec_marshal();
        assert(body.subrange(0, 4) =~= spec_store_u32(self.scan_wizard_id));
        lemma_load_u32_at(body, 0, self.scan_wizard_id);
    }

    fn marshal(&self) -> Vec<u8> {
        let mut v: Vec<u8> = Vec::new();
        store_u32(&mut v, self.scan_wizard_id);
        assert(v@ =~= self.spec_marshal());
        v
    }

    fn opcode(&self) -> u8 {
        9
    }
}

/// Cancels a scan wizard.
#[derive(Clone, Copy, Debug, PartialEq, Eq)]
pub struct CancelScanWizard {
    /// The wizard to cancel.
    pub scan_wizard_id: u32,
}

impl Command for CancelScanWizard {
    open spec fn spec_marshal(&self) -> Seq<u8> {
        spec_store_u32(self.scan_wizard_id)
    }

    open spec fn spec_opcode(&self) -> u8 {
        10
    }

    open spec fn spec_unmarshal(body: Seq<u8>) -> Option<Self> {
        if body.len() != 4 {
            None
        } else {
            Some(
                CancelScanWizard {
                    scan_wizard_id: spec_load_u32(body, 0),
                },
            )
        }
    }

    proof fn lemma_round_trip(&self) {
        let body = self.spec_marshal();
        assert(body.subrange(0, 4) =~= spec_store_u32(self.scan_wizard_id));
        lemma_load_u32_at(body, 0, self.scan_wizard_id);
    }

    fn marshal(&self) -> Vec<u8> {
        let mut v: Vec<u8> = Vec::new();
        store_u32(&mut v, self.scan_wizard_id);
        assert(v@ =~= self.spec_marshal());
        v
    }

    fn opcode(&self) -> u8 {
        10
    }
}

/// Deletes a button from the daemon's store of verified buttons.
#[derive(Clone, Copy, Debug, PartialEq, Eq)]
pub struct DeleteButton {
    /// The button's address.
    pub bd_addr: [u8; 6],
}

impl Command for DeleteButton {
    open spec fn spec_marshal(&self) -> Seq<u8> {
        self.bd_addr@
    }

    open spec fn spec_opcode(&self) -> u8 {
        11
    }

    open spec fn spec_unmarshal(body: Seq<u8>) -> Option<Self> {
        if body.len() != 6 {
            None
        } else {
            Some(
                DeleteButton {
                    bd_addr: spec_load_bd_addr(body, 0).0,
                },
            )
        }
    }

    proof fn lemma_round_trip(&self) {
        let body = self.spec_marshal();
        assert(spec_load_bd_addr(body, 0).0 =~= self.bd_addr);
    }

    fn marshal(&self) -> Vec<u8> {
        let mut v: Vec<u8> = Vec::new();
        store_bytes(&mut v, self.bd_addr.as_slice());
        assert(v@ =~= self.spec_marshal());
        v
    }

    fn opcode(&self) -> u8 {
        11
    }
}

/// Asks for a button's battery level, now and whenever it changes.
#[derive(Clone, Copy, Debug, PartialEq, Eq)]
pub struct CreateBatteryStatusListener {
    /// The caller's name for the listener.
    pub listener_id: u32,
    /// The button's address.
    pub bd_addr: [u8; 6],
}

impl Command for CreateBatteryStatusListener {
    open spec fn spec_marshal(&self) -> Seq<u8> {
        spec_store_u32(self.listener_id) + self.bd_addr@
    }

    open spec fn spec_opcode(&self) -> u8 {
        12
    }

    open spec fn spec_unmarshal(body: Seq<u8>) -> Option<Self> {
        if body.len() != 10 {
            None
        } else {
            Some(
                CreateBatteryStatusListener {
                    listener_id: spec_load_u32(body, 0),
                    bd_addr: spec_load_bd_addr(body, 4).0,
                },
            )
        }
    }

    proof fn lemma_round_trip(&self) {
        let body = self.spec_marshal();
        assert(body.subrange(0, 4) =~= spec_store_u32(self.listener_id));
        lemma_load_u32_at(body, 0, self.listener_id);
        assert(spec_load_bd_addr(body, 4).0 =~= self.bd_addr);
    }

    fn marshal(&self) -> Vec<u8> {
        let mut v: Vec<u8> = Vec::new();
        store_u32(&mut v, self.listener_id);
        store_bytes(&mut v, self.bd_addr.as_slice());
        assert(v@ =~= self.spec_marshal());
        v
    }

    fn opcode(&self) -> u8 {
        12
    }
}

/// Removes a battery status listener.
#[derive(Clone, Copy, Debug, PartialEq, Eq)]
pub struct RemoveBatteryStatusListener {
    /// The listener to remove.
    pub listener_id: u32,
}

impl Command for RemoveBatteryStatusListener {
    open spec fn spec_marshal(&self) -> Seq<u8> {
        spec_store_u32(self.listener_id)
    }

    open spec fn spec_opcode(&self) -> u8 {
        13
    }

    open spec fn spec_unmarshal(body: Seq<u8>) -> Option<Self> {
        if body.len() != 4 {
            None
        } else {
            Some(
                RemoveBatteryStatusListener {
                    listener_id: spec_load_u32(body, 0),
                },
            )
        }
    }

    proof fn lemma_round_trip(&self) {
        let body = self.spec_marshal();
        assert(body.subrange(0, 4) =~= spec_store_u32(self.listener_id));
        lemma_load_u32_at(body, 0, self.listener_id);
    }

    fn marshal(&self) -> Vec<u8> {
        let mut v: Vec<u8> = Vec::new();
        store_u32(&mut v, self.listener_id);
        assert(v@ =~= self.spec_marshal());
        v
    }

    fn opcode(&self) -> u8 {
        13
    }
}
} // verus!
