use usb_blinky::transport::{
    fault_report, LinkState, Transport, TransportError, TransportSlot, UsbEvent,
};

fn enumerate(t: &mut Transport) {
    t.service(UsbEvent::Reset);
    t.service(UsbEvent::AddressAssigned);
    t.service(UsbEvent::ConfigurationSet);
}

#[test]
fn write_before_enumeration_is_rejected_and_harmless() {
    let mut t = Transport::new(64);
    assert_eq!(t.write(b"too early"), Err(TransportError::NotEnumerated));
    assert_eq!(t.link_state(), LinkState::Unattached);
    assert_eq!(t.pending_len(), 0);

    // Enumeration still runs its ordinary course afterwards, and a later
    // write succeeds and is delivered in order.
    enumerate(&mut t);
    assert_eq!(t.link_state(), LinkState::Configured);
    assert_eq!(t.write(b"hello"), Ok(()));
    let sent = t.service(UsbEvent::HostReady(64));
    assert_eq!(sent, b"hello".to_vec());
    assert_eq!(t.pending_len(), 0);
}

#[test]
fn enumeration_walks_the_standard_states() {
    let mut t = Transport::new(8);
    assert_eq!(t.link_state(), LinkState::Unattached);
    t.service(UsbEvent::Reset);
    assert_eq!(t.link_state(), LinkState::BusDefault);
    t.service(UsbEvent::AddressAssigned);
    assert_eq!(t.link_state(), LinkState::Addressed);
    t.service(UsbEvent::ConfigurationSet);
    assert_eq!(t.link_state(), LinkState::Configured);
}

#[test]
fn bytes_reach_the_host_in_program_order() {
    let mut t = Transport::new(64);
    enumerate(&mut t);
    assert_eq!(t.write(b"starting loop number 0\r\n"), Ok(()));
    assert_eq!(t.write(b"starting loop number 1\r\n"), Ok(()));

    // The host drains in arbitrary chunks; what it observes is the two
    // writes back to back, never interleaved or reordered.
    let mut observed = Vec::new();
    observed.extend(t.service(UsbEvent::HostReady(10)));
    observed.extend(t.service(UsbEvent::NoEvent));
    observed.extend(t.service(UsbEvent::HostReady(7)));
    observed.extend(t.service(UsbEvent::HostReady(64)));
    assert_eq!(
        observed,
        b"starting loop number 0\r\nstarting loop number 1\r\n".to_vec()
    );
    assert_eq!(t.pending_len(), 0);
}

#[test]
fn overfull_write_is_rejected_whole() {
    let mut t = Transport::new(4);
    enumerate(&mut t);
    assert_eq!(t.write(b"abc"), Ok(()));
    assert_eq!(t.write(b"de"), Err(TransportError::BufferFull));
    assert_eq!(t.pending_len(), 3);
    let sent = t.service(UsbEvent::HostReady(8));
    assert_eq!(sent, b"abc".to_vec());
}

#[test]
fn bus_reset_drops_buffered_bytes() {
    let mut t = Transport::new(16);
    enumerate(&mut t);
    assert_eq!(t.write(b"gone"), Ok(()));
    t.service(UsbEvent::Reset);
    assert_eq!(t.link_state(), LinkState::BusDefault);
    assert_eq!(t.pending_len(), 0);
    assert_eq!(t.write(b"late"), Err(TransportError::NotEnumerated));
}

#[test]
fn host_ready_before_configuration_sends_nothing() {
    let mut t = Transport::new(16);
    t.service(UsbEvent::Reset);
    let sent = t.service(UsbEvent::HostReady(8));
    assert!(sent.is_empty());
    assert_eq!(t.link_state(), LinkState::BusDefault);
}

#[test]
fn interrupt_with_no_transport_installed_is_a_no_op() {
    let mut slot = TransportSlot::empty();
    let sent = slot.service_interrupt(UsbEvent::HostReady(8));
    assert!(sent.is_empty());
    assert!(slot.installed.is_none());
    let sent = slot.service_interrupt(UsbEvent::Reset);
    assert!(sent.is_empty());
    assert!(slot.installed.is_none());
}

#[test]
fn installed_slot_services_the_transport() {
    let mut slot = TransportSlot::empty();
    let mut t = Transport::new(32);
    enumerate(&mut t);
    t.write(b"ready").unwrap();
    slot.install(t);
    let sent = slot.service_interrupt(UsbEvent::HostReady(32));
    assert_eq!(sent, b"ready".to_vec());
}

#[test]
fn write_through_empty_slot_fails() {
    let mut slot = TransportSlot::empty();
    assert_eq!(slot.write(b"x"), Err(TransportError::NotInstalled));
    assert!(slot.installed.is_none());
}

#[test]
fn fault_report_is_best_effort() {
    // No transport installed: the diagnostic is lost, nothing faults.
    let mut empty_slot = TransportSlot::empty();
    assert!(!fault_report(&mut empty_slot, b"panicked early\r\n"));

    // Installed but not enumerated: still lost, still no fault.
    let mut cold_slot = TransportSlot::empty();
    cold_slot.install(Transport::new(64));
    assert!(!fault_report(&mut cold_slot, b"panicked early\r\n"));

    // Installed and configured: the one write attempt is accepted.
    let mut live_slot = TransportSlot::empty();
    let mut t = Transport::new(64);
    enumerate(&mut t);
    slot_install_and_report(&mut live_slot, t);
}

fn slot_install_and_report(slot: &mut TransportSlot, t: Transport) {
    slot.install(t);
    assert!(fault_report(slot, b"panicked late\r\n"));
    let sent = slot.service_interrupt(UsbEvent::HostReady(64));
    assert_eq!(sent, b"panicked late\r\n".to_vec());
}
