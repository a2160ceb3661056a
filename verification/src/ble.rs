//! The BLE transport decision core.
//!
//! Adapter management, scanning, GATT discovery and characteristic writes
//! are asynchronous calls into the OS Bluetooth stack and live outside this
//! crate. Every decision between those calls — which peripheral a connect
//! request addresses, when the handshake may be skipped, how the connection
//! state moves, which characteristic carries the print stream — is made
//! here, over plain snapshot values, and verified. The driving loop hands
//! the transport's answers back in as arguments.

use vstd::prelude::*;

use crate::{EcoPrintError, EcoPrintResult};

verus! {

/// The well-known BLE thermal-printer service UUID.
pub const THERMAL_PRINTER_SERVICE: &'static str = "000018f0-0000-1000-8000-00805f9b34fb";

/// The 16-bit short code of the thermal printer's status characteristic.
pub const THERMAL_PRINTER_CHR_0: u16 = 0x2af0;

/// The 16-bit short code of the thermal printer's write characteristic:
/// the print stream goes here, write-without-response.
pub const THERMAL_PRINTER_CHR_1: u16 = 0x2af1;

/// What a scan reports about one peripheral.
#[derive(Debug)]
pub struct BLEDevice {
    /// The transport's identifier for the peripheral.
    pub id: String,
    /// The advertised local name.
    pub local_name: String,
}

impl Clone for BLEDevice {
    fn clone(&self) -> (r: Self)
        ensures
            r == *self,
    {
        BLEDevice { id: self.id.clone(), local_name: self.local_name.clone() }
    }
}

/// The lifecycle of one connection. A send failure is terminal: the
/// connection is discarded and must be rebuilt.
#[derive(Debug, Clone, Copy, PartialEq, Eq, Structural)]
pub enum ConnectionState {
    Unconnected,
    Connected,
    Failed,
}

/// How a connect request is to be carried out.
pub enum ConnectPlan {
    /// A peripheral is already held: query its live state first, and re-run
    /// the handshake only if the transport says the link dropped. The
    /// requested device is deliberately ignored — an existing connection is
    /// kept, never replaced.
    Existing(BLEDevice),
    /// No peripheral is held: handshake with the requested device, then
    /// verify by re-querying the transport's connected state.
    Fresh(BLEDevice),
}

/// What the transport reported back while a connect plan was carried out.
pub enum ConnectOutcome {
    /// The held peripheral was still connected; no handshake was re-run.
    ExistingAlive,
    /// The held peripheral had dropped and the handshake was re-run, with
    /// this transport result.
    ExistingRelinked(bool),
    /// A fresh handshake with `device` was made; `verified` is the
    /// transport's connected state re-queried after it.
    FreshVerified { device: BLEDevice, verified: bool },
}

/// The decision state of one BLE printer session: the connection, the
/// discovery snapshot, and the cached write characteristic.
pub struct BLESession {
    /// Where the connection stands.
    pub state: ConnectionState,
    /// The connected peripheral, held exactly while `state` is `Connected`.
    pub device: Option<BLEDevice>,
    /// The latest discovery snapshot, replaced atomically per scan event.
    pub devices: Vec<BLEDevice>,
    /// Whether an adapter has been obtained; scanning is a no-op without
    /// one.
    pub adapter_ready: bool,
    /// The write characteristic resolved for this connection, cached so
    /// GATT discovery runs once per connection.
    pub print_chr: Option<u16>,
}

/// The connect transition: how the session and the caller's result react
/// to what the transport reported.
pub open spec fn spec_connect_finish(s: BLESession, outcome: ConnectOutcome) -> (BLESession, bool) {
    match outcome {
        ConnectOutcome::ExistingAlive => (s, true),
        ConnectOutcome::ExistingRelinked(ok) => (s, ok),
        ConnectOutcome::FreshVerified { device, verified } => {
            if verified {
                (
                    BLESession {
                        state: ConnectionState::Connected,
                        device: Some(device),
                        ..s
                    },
                    true,
                )
            } else {
                (s, true)
            }
        },
    }
}

/// The disconnect transition: a no-op success when nothing is connected,
/// otherwise the connection is dropped exactly when the transport call
/// succeeded.
pub open spec fn spec_disconnect(s: BLESession, link_ok: bool) -> (BLESession, bool) {
    if s.device is None {
        (s, true)
    } else if link_ok {
        (
            BLESession {
                state: ConnectionState::Unconnected,
                device: None,
                print_chr: None,
                ..s
            },
            true,
        )
    } else {
        (s, false)
    }
}

/// Whether the snapshot of characteristic short codes offers the printer's
/// write characteristic.
pub open spec fn spec_has_print_chr(chrs: Seq<u16>) -> bool {
    exists|i: int| 0 <= i < chrs.len() && chrs[i] == THERMAL_PRINTER_CHR_1
}

impl BLESession {
    /// The session invariant: a peripheral is held exactly while connected,
    /// and a characteristic is cached only for a live connection.
    pub open spec fn wf(self) -> bool {
        &&& self.device is Some <==> self.state == ConnectionState::Connected
        &&& self.print_chr is Some ==> self.state == ConnectionState::Connected
    }

    /// A fresh session: unconnected, nothing discovered, no adapter.
    pub fn new() -> (s: Self)
        ensures
            s.wf(),
            s.state == ConnectionState::Unconnected,
            s.device is None,
            s.devices@ =~= Seq::<BLEDevice>::empty(),
            !s.adapter_ready,
            s.print_chr is None,
    {
        BLESession {
            state: ConnectionState::Unconnected,
            device: None,
            devices: Vec::new(),
            adapter_ready: false,
            print_chr: None,
        }
    }

    /// Record that the driving loop obtained an adapter.
    pub fn mark_adapter_ready(&mut self)
        ensures
            final(self).adapter_ready,
            final(self).state == old(self).state,
            final(self).device == old(self).device,
            final(self).devices == old(self).devices,
            final(self).print_chr == old(self).print_chr,
    {
        self.adapter_ready = true;
    }

    /// Whether a scan request should reach the transport: scanning without
    /// an adapter is a silent no-op, not an error.
    pub fn should_start_scan(&self) -> (b: bool)
        ensures
            b == self.adapter_ready,
    {
        self.adapter_ready
    }

    /// Replace the discovery snapshot in one step, so no caller ever sees a
    /// partially rebuilt set.
    pub fn replace_devices(&mut self, found: Vec<BLEDevice>)
        ensures
            final(self).devices == found,
            final(self).state == old(self).state,
            final(self).device == old(self).device,
            final(self).adapter_ready == old(self).adapter_ready,
            final(self).print_chr == old(self).print_chr,
    {
        self.devices = found;
    }

    /// The current discovery snapshot, exactly as last replaced. Total: an
    /// empty snapshot — nothing advertising — is an empty list, not an
    /// error.
    pub fn get_devices(&self) -> (r: Vec<BLEDevice>)
        ensures
            r@ == self.devices@,
    {
        let mut out: Vec<BLEDevice> = Vec::new();
        let n = self.devices.len();
        for i in 0..n
            invariant
                n == self.devices@.len(),
                out@ == self.devices@.subrange(0, i as int),
        {
            out.push(self.devices[i].clone());
            proof {
                assert(out@ =~= self.devices@.subrange(0, i + 1));
            }
        }
        proof {
            assert(self.devices@.subrange(0, n as int) =~= self.devices@);
        }
        out
    }

    /// Resolve a connect request: an existing connection wins over the
    /// requested device, and only a session without one hands the requested
    /// device to the transport.
    pub fn connect_plan(&self, requested: &BLEDevice) -> (p: ConnectPlan)
        ensures
            self.device matches Some(d) ==> (p matches ConnectPlan::Existing(t) && t == d),
            self.device is None ==> (p matches ConnectPlan::Fresh(t) && t == *requested),
    {
        match &self.device {
            Some(d) => ConnectPlan::Existing(d.clone()),
            None => ConnectPlan::Fresh(requested.clone()),
        }
    }

    /// Commit what the transport reported for a connect attempt. Follows
    /// [`spec_connect_finish`]: an alive existing link and a fresh attempt
    /// always succeed (a fresh handshake that failed verification commits
    /// nothing), and re-linking an existing peripheral fails exactly when
    /// the transport call failed.
    pub fn connect_finish(&mut self, outcome: ConnectOutcome) -> (r: EcoPrintResult<()>)
        requires
            old(self).wf(),
            !(outcome matches ConnectOutcome::FreshVerified { .. }) ==> old(self).device is Some,
            (outcome matches ConnectOutcome::FreshVerified { .. }) ==> old(self).device is None,
        ensures
            final(self).wf(),
            *final(self) == spec_connect_finish(*old(self), outcome).0,
            r is Ok <==> spec_connect_finish(*old(self), outcome).1,
            r matches Err(e) ==> e matches EcoPrintError::BLEPeripheral(_),
    {
        match outcome {
            ConnectOutcome::ExistingAlive => Ok(()),
            ConnectOutcome::ExistingRelinked(ok) => {
                if ok {
                    Ok(())
                } else {
                    Err(
                        EcoPrintError::BLEPeripheral(
                            String::from_str("transport refused to re-link the held peripheral"),
                        ),
                    )
                }
            },
            ConnectOutcome::FreshVerified { device, verified } => {
                if verified {
                    self.state = ConnectionState::Connected;
                    self.device = Some(device);
                }
                Ok(())
            },
        }
    }

    /// Which peripheral a disconnect must address: `None` means nothing is
    /// connected and the request is already satisfied.
    pub fn disconnect_plan(&self) -> (p: Option<&BLEDevice>)
        ensures
            p matches Some(d) ==> (self.device matches Some(h) && d == h),
            p is None <==> self.device is None,
    {
        self.device.as_ref()
    }

    /// Commit a disconnect. Follows [`spec_disconnect`]: with nothing
    /// connected it is a no-op success, so disconnecting twice in a row
    /// succeeds both times; otherwise, on transport success the connection
    /// and the cached characteristic are dropped, and on transport failure
    /// nothing changes and the error surfaces.
    pub fn disconnect_finish(&mut self, link_ok: bool) -> (r: EcoPrintResult<()>)
        requires
            old(self).wf(),
        ensures
            final(self).wf(),
            *final(self) == spec_disconnect(*old(self), link_ok).0,
            r is Ok <==> spec_disconnect(*old(self), link_ok).1,
            r matches Err(e) ==> e matches EcoPrintError::BLEPeripheral(_),
    {
        if self.device.is_none() {
            return Ok(());
        }
        if link_ok {
            self.state = ConnectionState::Unconnected;
            self.device = None;
            self.print_chr = None;
            Ok(())
        } else {
            Err(
                EcoPrintError::BLEPeripheral(
                    String::from_str("transport failed to disconnect from the peripheral"),
                ),
            )
        }
    }

    /// The peripheral a print must write to; printing without a connection
    /// is refused, never attempted.
    pub fn send_target(&self) -> (r: EcoPrintResult<&BLEDevice>)
        ensures
            self.device matches Some(d) ==> (r matches Ok(t) && t == d),
            self.device is None ==> (r matches Err(e) && e matches EcoPrintError::BLEPeripheral(
                _,
            )),
    {
        match &self.device {
            Some(d) => Ok(d),
            None => Err(
                EcoPrintError::BLEPeripheral(String::from_str("peripheral not connected")),
            ),
        }
    }

    /// Resolve the write characteristic for the live connection. A cached
    /// result is answered without looking at the snapshot (GATT discovery
    /// runs once per connection); otherwise the printer's write
    /// characteristic is picked out of the discovered short codes and
    /// cached. A connection without one is a connect failure, not a
    /// process-terminating condition.
    pub fn resolve_print_chr(&mut self, chrs: &Vec<u16>) -> (r: EcoPrintResult<u16>)
        requires
            old(self).wf(),
            old(self).state == ConnectionState::Connected,
        ensures
            final(self).wf(),
            final(self).state == old(self).state,
            final(self).device == old(self).device,
            final(self).devices == old(self).devices,
            final(self).adapter_ready == old(self).adapter_ready,
            old(self).print_chr matches Some(c) ==> (r matches Ok(rc) && rc == c
                && final(self).print_chr == old(self).print_chr),
            old(self).print_chr is None && spec_has_print_chr(chrs@) ==> (r matches Ok(rc) && rc
                == THERMAL_PRINTER_CHR_1 && final(self).print_chr == Some(THERMAL_PRINTER_CHR_1)),
            old(self).print_chr is None && !spec_has_print_chr(chrs@) ==> (r matches Err(e) && e
                matches EcoPrintError::BLEConnect(_) && final(self).print_chr is None),
    {
        match self.print_chr {
            Some(c) => Ok(c),
            None => {
                let n = chrs.len();
                for i in 0..n
                    invariant
                        n == chrs@.len(),
                        forall|j: int| 0 <= j < i ==> chrs@[j] != THERMAL_PRINTER_CHR_1,
                        self == old(self),
                        old(self).wf(),
                        old(self).state == ConnectionState::Connected,
                        old(self).print_chr is None,
                {
                    if chrs[i] == THERMAL_PRINTER_CHR_1 {
                        self.print_chr = Some(THERMAL_PRINTER_CHR_1);
                        return Ok(THERMAL_PRINTER_CHR_1);
                    }
                }
                Err(
                    EcoPrintError::BLEConnect(
                        String::from_str(
                            "the peripheral offers no write characteristic for printing",
                        ),
                    ),
                )
            },
        }
    }

    /// Commit the transport's answer to the characteristic write. A failed
    /// send is terminal for the connection: the session moves to `Failed`
    /// and the peripheral is discarded; the caller must reconnect.
    pub fn send_finish(&mut self, write_ok: bool) -> (r: EcoPrintResult<()>)
        requires
            old(self).wf(),
            old(self).device is Some,
        ensures
            final(self).wf(),
            write_ok ==> r is Ok && *final(self) == *old(self),
            !write_ok ==> {
                &&& (r matches Err(e) && e matches EcoPrintError::Printing(_))
                &&& final(self).state == ConnectionState::Failed
                &&& final(self).device is None
                &&& final(self).print_chr is None
                &&& final(self).devices == old(self).devices
                &&& final(self).adapter_ready == old(self).adapter_ready
            },
    {
        if write_ok {
            Ok(())
        } else {
            self.state = ConnectionState::Failed;
            self.device = None;
            self.print_chr = None;
            Err(
                EcoPrintError::Printing(
                    String::from_str("characteristic write to the peripheral failed"),
                ),
            )
        }
    }
}

/// Disconnect is idempotent: once a disconnect has succeeded, a second one
/// succeeds as well — whatever the transport would answer — and leaves the
/// session untouched, because nothing is connected any more.
pub proof fn lemma_disconnect_idempotent(s: BLESession, ok1: bool, ok2: bool)
    requires
        spec_disconnect(s, ok1).1,
    ensures
        spec_disconnect(spec_disconnect(s, ok1).0, ok2) == (spec_disconnect(s, ok1).0, true),
{
}

/// Connect is idempotent on a connected session: a fresh, verified connect
/// yields a connected session, and a second connect request — which, by
/// [`BLESession::connect_plan`], addresses the held peripheral and re-runs
/// no handshake while the link is alive — succeeds and changes nothing.
pub proof fn lemma_connect_idempotent(s: BLESession, device: BLEDevice)
    requires
        s.wf(),
        s.device is None,
    ensures
        ({
            let (s1, ok1) = spec_connect_finish(
                s,
                ConnectOutcome::FreshVerified { device, verified: true },
            );
            &&& ok1
            &&& s1.state == ConnectionState::Connected
            &&& spec_connect_finish(s1, ConnectOutcome::ExistingAlive) == (s1, true)
        }),
{
}

} // verus!
