//! Port allocation: the scan for the first local port on which a bind succeeds.
//!
//! The scan decides which port to probe next; the host binds and releases a
//! listener on it and reports whether the bind succeeded.

use vstd::prelude::*;

verus! {

/// The first port of the range that is scanned by default.
pub const PORT_RANGE_START: u16 = 10000;

/// The end of that range; the port itself is not probed.
pub const PORT_RANGE_END: u16 = 50000;

/// The progress of a scan over the ports `next..end`.
#[derive(Clone, Copy, Debug, PartialEq, Eq, Structural)]
pub enum PortScan {
    /// `next` is to be probed; the ports before it were all taken.
    Probing { next: u16, end: u16 },
    /// A bind on `port` succeeded.
    Found { port: u16 },
    /// Every port of the range was probed and none could be bound.
    Exhausted,
}

/// What the host is to do for a scan.
#[derive(Clone, Copy, Debug, PartialEq, Eq, Structural)]
pub enum ScanAction {
    /// Bind a listener on `port`, release it at once, and report whether the bind succeeded.
    Probe { port: u16 },
    /// The scan is over: `port` is free.
    Allocated { port: u16 },
    /// The scan is over: the range holds no free port.
    NoPortAvailable,
}

impl PortScan {
    /// The scan over `start..end` before any probe.
    pub open spec fn over_range(start: u16, end: u16) -> PortScan {
        if start < end {
            PortScan::Probing { next: start, end }
        } else {
            PortScan::Exhausted
        }
    }

    /// What the scan asks of the host in this state.
    pub open spec fn pending(self) -> ScanAction {
        match self {
            PortScan::Probing { next, end } => ScanAction::Probe { port: next },
            PortScan::Found { port } => ScanAction::Allocated { port },
            PortScan::Exhausted => ScanAction::NoPortAvailable,
        }
    }

    /// The state after the host reported on the pending probe. A finished scan stays as it is.
    pub open spec fn after(self, bound: bool) -> PortScan {
        match self {
            PortScan::Probing { next, end } => {
                if bound {
                    PortScan::Found { port: next }
                } else if next + 1 < end {
                    PortScan::Probing { next: (next + 1) as u16, end }
                } else {
                    PortScan::Exhausted
                }
            },
            _ => self,
        }
    }

    /// The state after a series of reports, the first report first.
    pub open spec fn after_all(self, reports: Seq<bool>) -> PortScan
        decreases reports.len(),
    {
        if reports.len() == 0 {
            self
        } else {
            self.after(reports[0]).after_all(reports.drop_first())
        }
    }

    /// Whether the scan is over.
    pub open spec fn finished(self) -> bool {
        !(self is Probing)
    }

    /// Starts a scan over the ports `start..end`.
    pub fn over(start: u16, end: u16) -> (scan: PortScan)
        ensures
            scan == PortScan::over_range(start, end),
    {
        if start < end {
            PortScan::Probing { next: start, end }
        } else {
            PortScan::Exhausted
        }
    }

    /// The action that the host is to perform now.
    pub fn action(&self) -> (action: ScanAction)
        ensures
            action == self.pending(),
    {
        match *self {
            PortScan::Probing { next, end: _ } => ScanAction::Probe { port: next },
            PortScan::Found { port } => ScanAction::Allocated { port },
            PortScan::Exhausted => ScanAction::NoPortAvailable,
        }
    }

    /// Takes the host's report on the pending probe: `bound` says whether the bind succeeded.
    pub fn advance(self, bound: bool) -> (scan: PortScan)
        ensures
            scan == self.after(bound),
    {
        match self {
            PortScan::Probing { next, end } => {
                if bound {
                    PortScan::Found { port: next }
                } else if next < u16::MAX && next + 1 < end {
                    PortScan::Probing { next: next + 1, end }
                } else {
                    PortScan::Exhausted
                }
            },
            other => other,
        }
    }
}

/// Starts the scan for an available port over the default range.
pub fn find_available_port() -> (scan: PortScan)
    ensures
        scan == PortScan::over_range(PORT_RANGE_START, PORT_RANGE_END),
{
    PortScan::over(PORT_RANGE_START, PORT_RANGE_END)
}

/// A finished scan ignores further reports.
pub proof fn finished_scan_stays(scan: PortScan, reports: Seq<bool>)
    requires
        scan.finished(),
    ensures
        scan.after_all(reports) == scan,
    decreases reports.len(),
{
    if reports.len() > 0 {
        finished_scan_stays(scan, reports.drop_first());
    }
}

/// The scan allocates the first port of the range on which the bind succeeded:
/// when the first `i` probes fail and the next one succeeds, the port is `next + i`.
pub proof fn scan_allocates_first_free(next: u16, end: u16, reports: Seq<bool>, i: int)
    requires
        0 <= i < reports.len(),
        next + i < end,
        reports[i],
        forall|j: int| 0 <= j < i ==> !reports[j],
    ensures
        (PortScan::Probing { next, end }).after_all(reports) == (PortScan::Found {
            port: (next + i) as u16,
        }),
    decreases reports.len(),
{
    let scan = PortScan::Probing { next, end };
    let rest = reports.drop_first();
    if i == 0 {
        finished_scan_stays(scan.after(true), rest);
    } else {
        assert(!reports[0]);
        assert(scan.after(false) == PortScan::Probing { next: (next + 1) as u16, end });
        assert(rest[i - 1] == reports[i]);
        assert forall|j: int| 0 <= j < i - 1 implies !rest[j] by {
            assert(rest[j] == reports[j + 1]);
        }
        scan_allocates_first_free((next + 1) as u16, end, rest, i - 1);
    }
}

/// A range without a free port is given up after one probe of each port: the
/// scan ends in `Exhausted` as soon as every port of `next..end` was reported taken.
pub proof fn scan_exhausts_range_without_free_port(next: u16, end: u16, reports: Seq<bool>)
    requires
        next < end,
        reports.len() >= end - next,
        forall|j: int| 0 <= j < end - next ==> !reports[j],
    ensures
        (PortScan::Probing { next, end }).after_all(reports) == PortScan::Exhausted,
    decreases reports.len(),
{
    let scan = PortScan::Probing { next, end };
    let rest = reports.drop_first();
    assert(!reports[0]);
    if next + 1 < end {
        assert forall|j: int| 0 <= j < end - (next + 1) implies !rest[j] by {
            assert(rest[j] == reports[j + 1]);
        }
        scan_exhausts_range_without_free_port((next + 1) as u16, end, rest);
    } else {
        finished_scan_stays(PortScan::Exhausted, rest);
    }
}

/// While every probe so far failed and ports are left, the scan asks for the next port in order.
pub proof fn scan_probes_in_order(next: u16, end: u16, reports: Seq<bool>)
    requires
        next + reports.len() < end,
        forall|j: int| 0 <= j < reports.len() ==> !reports[j],
    ensures
        (PortScan::Probing { next, end }).after_all(reports) == (PortScan::Probing {
            next: (next + reports.len()) as u16,
            end,
        }),
    decreases reports.len(),
{
    if reports.len() > 0 {
        let rest = reports.drop_first();
        assert(!reports[0]);
        assert forall|j: int| 0 <= j < rest.len() implies !rest[j] by {
            assert(rest[j] == reports[j + 1]);
        }
        scan_probes_in_order((next + 1) as u16, end, rest);
    }
}

/// An empty range is given up without a single probe.
pub proof fn empty_range_has_no_port(start: u16, end: u16)
    requires
        start >= end,
    ensures
        PortScan::over_range(start, end).pending() == ScanAction::NoPortAvailable,
{
}

} // verus!
