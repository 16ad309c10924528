use cef_lifecycle::port::{find_available_port, PortScan, ScanAction, PORT_RANGE_END, PORT_RANGE_START};

/// Runs a scan against a host on which exactly the ports in `free` can be bound.
fn scan_with(mut scan: PortScan, free: &[u16]) -> (ScanAction, Vec<u16>) {
    let mut probed = Vec::new();
    loop {
        match scan.action() {
            ScanAction::Probe { port } => {
                probed.push(port);
                scan = scan.advance(free.contains(&port));
            }
            over => return (over, probed),
        }
    }
}

#[test]
fn default_range_is_ten_to_fifty_thousand() {
    assert_eq!(PORT_RANGE_START, 10000);
    assert_eq!(PORT_RANGE_END, 50000);
    assert_eq!(find_available_port(), PortScan::Probing { next: 10000, end: 50000 });
    assert_eq!(find_available_port().action(), ScanAction::Probe { port: 10000 });
}

#[test]
fn first_port_free_is_allocated_after_one_probe() {
    let (outcome, probed) = scan_with(find_available_port(), &[10000, 10001]);
    assert_eq!(outcome, ScanAction::Allocated { port: 10000 });
    assert_eq!(probed, vec![10000]);
}

#[test]
fn scan_skips_taken_ports_in_order() {
    let (outcome, probed) = scan_with(find_available_port(), &[10003, 10007]);
    assert_eq!(outcome, ScanAction::Allocated { port: 10003 });
    assert_eq!(probed, vec![10000, 10001, 10002, 10003]);
}

#[test]
fn last_port_of_the_range_is_still_probed() {
    let (outcome, probed) = scan_with(find_available_port(), &[49999]);
    assert_eq!(outcome, ScanAction::Allocated { port: 49999 });
    assert_eq!(probed.len(), 40000);
}

#[test]
fn range_without_free_port_fails_after_one_probe_each() {
    let (outcome, probed) = scan_with(find_available_port(), &[50000, 9999]);
    assert_eq!(outcome, ScanAction::NoPortAvailable);
    assert_eq!(probed.len(), 40000);
    assert_eq!(probed.first(), Some(&10000));
    assert_eq!(probed.last(), Some(&49999));
}

#[test]
fn small_range_without_free_port_fails() {
    let (outcome, probed) = scan_with(PortScan::over(100, 103), &[]);
    assert_eq!(outcome, ScanAction::NoPortAvailable);
    assert_eq!(probed, vec![100, 101, 102]);
}

#[test]
fn empty_range_fails_without_a_probe() {
    assert_eq!(PortScan::over(5, 5), PortScan::Exhausted);
    assert_eq!(PortScan::over(6, 5), PortScan::Exhausted);
    let (outcome, probed) = scan_with(PortScan::over(5, 5), &[5]);
    assert_eq!(outcome, ScanAction::NoPortAvailable);
    assert!(probed.is_empty());
}

#[test]
fn range_up_to_the_highest_port_does_not_overflow() {
    let (outcome, probed) = scan_with(PortScan::over(65533, 65535), &[]);
    assert_eq!(outcome, ScanAction::NoPortAvailable);
    assert_eq!(probed, vec![65533, 65534]);
    assert_eq!(PortScan::Probing { next: 65535, end: 65535 }.advance(false), PortScan::Exhausted);
}

#[test]
fn finished_scan_ignores_reports() {
    assert_eq!(PortScan::Found { port: 7 }.advance(false), PortScan::Found { port: 7 });
    assert_eq!(PortScan::Exhausted.advance(true), PortScan::Exhausted);
}
