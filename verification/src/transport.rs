//! The USB serial transport, modelled as a state machine over plain values.
//!
//! The real link is a CDC-ACM (virtual serial port) device: the main loop
//! appends bytes to an outbound buffer, and an interrupt handler services the
//! USB controller, walking the standard enumeration states and handing
//! buffered bytes to the host once the device is configured.  The hardware
//! and the class library drive the wire; this module fixes the discipline
//! both sides must follow — when a write is accepted, what each interrupt
//! event does to the buffer, and in what order the host sees the bytes —
//! and proves the properties the firmware relies on.
//!
//! The one real correctness concern of the firmware lives here too: the
//! transport is installed into a process-wide slot only after it is fully
//! constructed, and the interrupt handler must tolerate firing while the
//! slot is still empty.  [`TransportSlot`] makes the "not yet installed"
//! state a representable value, and its service entry is proved to be a
//! no-op on an empty slot.

use vstd::prelude::*;

verus! {

/// The standard USB device enumeration states, as the transport sees them.
/// Only in `Configured` do application writes reach the host.
#[derive(Clone, Copy, PartialEq, Eq, Structural, Debug)]
pub enum LinkState {
    /// No bus activity seen yet.
    Unattached,
    /// A bus reset arrived; the device answers on the default address.
    BusDefault,
    /// The host assigned a device address.
    Addressed,
    /// The host selected a configuration; the serial link is usable.
    Configured,
}

/// What one service pass over the USB controller found pending.
#[derive(Clone, Copy, PartialEq, Eq, Structural, Debug)]
pub enum UsbEvent {
    /// A bus reset: enumeration starts over and buffered bytes are gone.
    Reset,
    /// The host assigned an address during enumeration.
    AddressAssigned,
    /// The host selected a configuration; enumeration is complete.
    ConfigurationSet,
    /// The host is ready to take up to this many bytes from the device.
    HostReady(usize),
    /// Nothing was pending (a spurious interrupt).
    NoEvent,
}

/// The transport's non-fatal write failures.
#[derive(Clone, Copy, PartialEq, Eq, Structural, Debug)]
pub enum TransportError {
    /// The host has not enumerated the device yet; nothing was buffered.
    NotEnumerated,
    /// The outbound buffer cannot take the whole write; nothing was buffered.
    BufferFull,
    /// No transport has been installed in the slot.
    NotInstalled,
}

/// The transport's abstract state: the enumeration state, the bytes
/// accepted but not yet handed to the host, and the buffer bound.
pub ghost struct TransportView {
    pub link: LinkState,
    pub pending: Seq<u8>,
    pub capacity: nat,
}

impl TransportView {
    /// The buffer never holds more than its bound.
    pub open spec fn wf(self) -> bool {
        self.pending.len() <= self.capacity
    }
}

/// What a write does: rejected whole before enumeration and when it would
/// overrun the buffer, appended whole otherwise.
pub open spec fn write_outcome(t: TransportView, data: Seq<u8>) -> (TransportView, Result<
    (),
    TransportError,
>) {
    if t.link != LinkState::Configured {
        (t, Err(TransportError::NotEnumerated))
    } else if t.pending.len() + data.len() > t.capacity {
        (t, Err(TransportError::BufferFull))
    } else {
        (TransportView { pending: t.pending + data, ..t }, Ok(()))
    }
}

/// What one service pass does for each event: the new state, and the bytes
/// handed to the host on this pass.
pub open spec fn service_outcome(t: TransportView, e: UsbEvent) -> (TransportView, Seq<u8>) {
    match e {
        UsbEvent::Reset => (
            TransportView { link: LinkState::BusDefault, pending: Seq::empty(), ..t },
            Seq::empty(),
        ),
        UsbEvent::AddressAssigned => {
            if t.link == LinkState::BusDefault {
                (TransportView { link: LinkState::Addressed, ..t }, Seq::empty())
            } else {
                (t, Seq::empty())
            }
        },
        UsbEvent::ConfigurationSet => {
            if t.link == LinkState::Addressed {
                (TransportView { link: LinkState::Configured, ..t }, Seq::empty())
            } else {
                (t, Seq::empty())
            }
        },
        UsbEvent::HostReady(k) => {
            if t.link == LinkState::Configured {
                let n = if k < t.pending.len() {
                    k as int
                } else {
                    t.pending.len() as int
                };
                (
                    TransportView { pending: t.pending.skip(n), ..t },
                    t.pending.take(n),
                )
            } else {
                (t, Seq::empty())
            }
        },
        UsbEvent::NoEvent => (t, Seq::empty()),
    }
}

/// The serial transport: enumeration state and the outbound byte buffer,
/// bounded by the capacity it was built with.
pub struct Transport {
    link: LinkState,
    pending: Vec<u8>,
    capacity: usize,
}

impl View for Transport {
    type V = TransportView;

    closed spec fn view(&self) -> TransportView {
        TransportView { link: self.link, pending: self.pending@, capacity: self.capacity as nat }
    }
}

impl Transport {
    /// Builds a fresh transport with the given outbound buffer bound.
    /// Nothing has been seen on the bus and nothing is buffered.
    pub fn new(capacity: usize) -> (t: Transport)
        ensures
            t@ == (TransportView {
                link: LinkState::Unattached,
                pending: Seq::<u8>::empty(),
                capacity: capacity as nat,
            }),
            t@.wf(),
    {
        let t = Transport { link: LinkState::Unattached, pending: Vec::new(), capacity };
        proof {
            assert(t@.pending =~= Seq::<u8>::empty());
        }
        t
    }

    /// The enumeration state, as last observed by a service pass.
    pub fn link_state(&self) -> (s: LinkState)
        ensures
            s == self@.link,
    {
        self.link
    }

    /// How many accepted bytes still wait for the host.
    pub fn pending_len(&self) -> (n: usize)
        ensures
            n == self@.pending.len(),
    {
        self.pending.len()
    }

    /// Appends `data` to the outbound buffer without blocking on host
    /// readiness.  The write is accepted whole exactly when the device is
    /// configured and the buffer has room; a rejected write leaves the
    /// transport exactly as it was.
    pub fn write(&mut self, data: &[u8]) -> (r: Result<(), TransportError>)
        requires
            old(self)@.wf(),
        ensures
            final(self)@.wf(),
            (final(self)@, r) == write_outcome(old(self)@, data@),
    {
        if !matches!(self.link, LinkState::Configured) {
            return Err(TransportError::NotEnumerated);
        }
        if data.len() > self.capacity - self.pending.len() {
            return Err(TransportError::BufferFull);
        }
        crate::text::append_bytes(&mut self.pending, data);
        Ok(())
    }

    /// One service pass, as the interrupt handler runs it: applies what the
    /// controller reported and returns the bytes handed to the host on this
    /// pass.  Safe to call when nothing is pending, and never blocks.
    pub fn service(&mut self, e: UsbEvent) -> (sent: Vec<u8>)
        requires
            old(self)@.wf(),
        ensures
            final(self)@.wf(),
            (final(self)@, sent@) == service_outcome(old(self)@, e),
    {
        match e {
            UsbEvent::Reset => {
                self.link = LinkState::BusDefault;
                self.pending = Vec::new();
                let sent: Vec<u8> = Vec::new();
                proof {
                    assert(self@.pending =~= Seq::<u8>::empty());
                    assert(sent@ =~= Seq::<u8>::empty());
                }
                sent
            },
            UsbEvent::AddressAssigned => {
                if matches!(self.link, LinkState::BusDefault) {
                    self.link = LinkState::Addressed;
                }
                let sent: Vec<u8> = Vec::new();
                proof {
                    assert(sent@ =~= Seq::<u8>::empty());
                }
                sent
            },
            UsbEvent::ConfigurationSet => {
                if matches!(self.link, LinkState::Addressed) {
                    self.link = LinkState::Configured;
                }
                let sent: Vec<u8> = Vec::new();
                proof {
                    assert(sent@ =~= Seq::<u8>::empty());
                }
                sent
            },
            UsbEvent::HostReady(k) => {
                if matches!(self.link, LinkState::Configured) {
                    let n: usize = if k < self.pending.len() {
                        k
                    } else {
                        self.pending.len()
                    };
                    let mut sent: Vec<u8> = Vec::new();
                    let mut i: usize = 0;
                    while i < n
                        invariant
                            i <= n,
                            n <= self.pending@.len(),
                            sent@ == self.pending@.take(i as int),
                        decreases n - i,
                    {
                        sent.push(self.pending[i]);
                        proof {
                            assert(self.pending@.take(i + 1 as int) =~= self.pending@.take(
                                i as int,
                            ).push(self.pending@[i as int]));
                        }
                        i = i + 1;
                    }
                    let mut rest: Vec<u8> = Vec::new();
                    let mut j: usize = n;
                    while j < self.pending.len()
                        invariant
                            n <= j <= self.pending@.len(),
                            rest@ == self.pending@.subrange(n as int, j as int),
                        decreases self.pending@.len() - j,
                    {
                        rest.push(self.pending[j]);
                        proof {
                            assert(self.pending@.subrange(n as int, j + 1 as int)
                                =~= self.pending@.subrange(n as int, j as int).push(
                                self.pending@[j as int],
                            ));
                        }
                        j = j + 1;
                    }
                    proof {
                        assert(rest@ =~= self.pending@.skip(n as int));
                    }
                    self.pending = rest;
                    sent
                } else {
                    let sent: Vec<u8> = Vec::new();
                    proof {
                        assert(sent@ =~= Seq::<u8>::empty());
                    }
                    sent
                }
            },
            UsbEvent::NoEvent => {
                let sent: Vec<u8> = Vec::new();
                proof {
                    assert(sent@ =~= Seq::<u8>::empty());
                }
                sent
            },
        }
    }
}

/// The process-wide slot the transport is installed into once constructed.
///
/// Until installation the slot is empty, and every entry point tolerates
/// that: the interrupt may be unmasked only after installation, but even a
/// stray interrupt before it must find a safe no-op here.
pub struct TransportSlot {
    pub installed: Option<Transport>,
}

impl TransportSlot {
    /// Every installed transport is well formed.
    pub open spec fn wf(self) -> bool {
        self.installed matches Some(t) ==> t@.wf()
    }

    /// The slot as power-on leaves it: nothing installed.
    pub fn empty() -> (s: TransportSlot)
        ensures
            s.installed is None,
            s.wf(),
    {
        TransportSlot { installed: None }
    }

    /// Installs the fully constructed transport.  Called exactly once,
    /// before the USB interrupt is unmasked.
    pub fn install(&mut self, t: Transport)
        requires
            old(self).installed is None,
            t@.wf(),
        ensures
            final(self).installed == Some(t),
            final(self).wf(),
    {
        self.installed = Some(t);
    }

    /// The interrupt handler's entry point: services the installed
    /// transport, and is a safe no-op — same slot back, nothing sent —
    /// when no transport is installed.
    pub fn service_interrupt(&mut self, e: UsbEvent) -> (sent: Vec<u8>)
        requires
            old(self).wf(),
        ensures
            final(self).wf(),
            old(self).installed is None ==> final(self).installed is None && sent@
                == Seq::<u8>::empty(),
            old(self).installed matches Some(t) ==> (final(self).installed matches Some(u)
                && (u@, sent@) == service_outcome(t@, e)),
    {
        match &mut self.installed {
            Some(t) => t.service(e),
            None => {
                let sent: Vec<u8> = Vec::new();
                proof {
                    assert(sent@ =~= Seq::<u8>::empty());
                }
                sent
            },
        }
    }

    /// Writes through the slot: fails with `NotInstalled`, touching
    /// nothing, while the slot is empty, and otherwise behaves exactly as
    /// the installed transport's write.
    pub fn write(&mut self, data: &[u8]) -> (r: Result<(), TransportError>)
        requires
            old(self).wf(),
        ensures
            final(self).wf(),
            old(self).installed is None ==> final(self).installed is None && r == Err::<
                (),
                TransportError,
            >(TransportError::NotInstalled),
            old(self).installed matches Some(t) ==> (final(self).installed matches Some(u)
                && (u@, r) == write_outcome(t@, data@)),
    {
        match &mut self.installed {
            Some(t) => t.write(data),
            None => Err(TransportError::NotInstalled),
        }
    }
}

/// Fault reporting: one best-effort attempt to hand a diagnostic to the
/// transport, after which the caller halts for good.  A single write is
/// tried — no retry, no blocking — and a missing, unenumerated or full
/// transport simply loses the diagnostic; the returned flag says whether
/// the bytes were accepted.
pub fn fault_report(slot: &mut TransportSlot, diagnostic: &[u8]) -> (accepted: bool)
    requires
        old(slot).wf(),
    ensures
        final(slot).wf(),
        old(slot).installed is None ==> final(slot).installed is None && !accepted,
        old(slot).installed matches Some(t) ==> (final(slot).installed matches Some(u) && {
            let (tv, r) = write_outcome(t@, diagnostic@);
            u@ == tv && accepted == r.is_ok()
        }),
{
    match slot.write(diagnostic) {
        Ok(_) => true,
        Err(_) => false,
    }
}

/// Applies a whole sequence of service passes, accumulating, in order,
/// every byte handed to the host.
pub open spec fn run_service(t: TransportView, events: Seq<UsbEvent>) -> (TransportView, Seq<u8>)
    decreases events.len(),
{
    if events.len() == 0 {
        (t, Seq::empty())
    } else {
        let (t1, out1) = service_outcome(t, events[0]);
        let (t2, out2) = run_service(t1, events.skip(1));
        (t2, out1 + out2)
    }
}

/// While the device stays configured (no bus reset), service passes only
/// ever peel bytes off the front of the buffer: whatever the host has been
/// handed, followed by what still waits, is exactly the buffer as it stood,
/// in the same order.
pub proof fn lemma_service_preserves_order(t: TransportView, events: Seq<UsbEvent>)
    requires
        t.link == LinkState::Configured,
        forall|i: int| 0 <= i < events.len() ==> events[i] != UsbEvent::Reset,
    ensures
        ({
            let (tf, out) = run_service(t, events);
            &&& tf.link == LinkState::Configured
            &&& out + tf.pending == t.pending
            &&& tf.capacity == t.capacity
        }),
    decreases events.len(),
{
    if events.len() == 0 {
        let (tf, out) = run_service(t, events);
        assert(out + tf.pending =~= t.pending);
    } else {
        let (t1, out1) = service_outcome(t, events[0]);
        assert(events[0] != UsbEvent::Reset);
        assert(t1.link == LinkState::Configured);
        assert(forall|i: int|
            0 <= i < events.skip(1).len() ==> events.skip(1)[i] != UsbEvent::Reset);
        lemma_service_preserves_order(t1, events.skip(1));
        let (t2, out2) = run_service(t1, events.skip(1));
        assert(out1 + t1.pending =~= t.pending);
        assert((out1 + out2) + t2.pending =~= out1 + (out2 + t2.pending));
    }
}

/// A write made before enumeration completes is rejected whole and corrupts
/// nothing: the transport is exactly as it was.  Once enumeration has run
/// its course — reset, address, configuration — a write that fits is
/// accepted, and the buffer then holds exactly its bytes, in order.
pub proof fn lemma_write_before_enumeration(t: TransportView, early: Seq<u8>, late: Seq<u8>)
    requires
        t.link != LinkState::Configured,
        late.len() <= t.capacity,
    ensures
        ({
            let (t1, r1) = write_outcome(t, early);
            let (t2, _) = service_outcome(t1, UsbEvent::Reset);
            let (t3, _) = service_outcome(t2, UsbEvent::AddressAssigned);
            let (t4, _) = service_outcome(t3, UsbEvent::ConfigurationSet);
            let (t5, r5) = write_outcome(t4, late);
            &&& r1 == Err::<(), TransportError>(TransportError::NotEnumerated)
            &&& t1 == t
            &&& r5 == Ok::<(), TransportError>(())
            &&& t5.pending == late
        }),
{
    let (t1, r1) = write_outcome(t, early);
    let (t2, _) = service_outcome(t1, UsbEvent::Reset);
    let (t3, _) = service_outcome(t2, UsbEvent::AddressAssigned);
    let (t4, _) = service_outcome(t3, UsbEvent::ConfigurationSet);
    let (t5, r5) = write_outcome(t4, late);
    assert(t4.pending =~= Seq::<u8>::empty());
    assert(t5.pending =~= late);
}

/// Round-trip ordering: two writes accepted in program order, then any run
/// of service passes without a bus reset, hand the host exactly the old
/// buffer, the first write and the second, in that order — never
/// interleaved, never reordered — up to the tail still waiting in the
/// buffer.
pub proof fn lemma_round_trip_order(
    t: TransportView,
    a: Seq<u8>,
    b: Seq<u8>,
    events: Seq<UsbEvent>,
)
    requires
        t.link == LinkState::Configured,
        t.pending.len() + a.len() + b.len() <= t.capacity,
        forall|i: int| 0 <= i < events.len() ==> events[i] != UsbEvent::Reset,
    ensures
        ({
            let (t1, r1) = write_outcome(t, a);
            let (t2, r2) = write_outcome(t1, b);
            let (tf, delivered) = run_service(t2, events);
            &&& r1 == Ok::<(), TransportError>(())
            &&& r2 == Ok::<(), TransportError>(())
            &&& delivered + tf.pending == t.pending + a + b
        }),
{
    let (t1, r1) = write_outcome(t, a);
    let (t2, r2) = write_outcome(t1, b);
    assert(t2.pending =~= t.pending + a + b);
    lemma_service_preserves_order(t2, events);
}

} // verus!
