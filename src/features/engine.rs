//! The scan engine as a step machine: the caller probes each port in turn and
//! reports whether it connected; the session keeps progress and the open ports.

use vstd::prelude::*;
use crate::features::scanner::{PortInfo, PortInfoView, PortState, infos_view};
use crate::features::services::{detect_service, service_name};
use crate::features::ports::strictly_ascending;

verus! {

/// The record of a port that accepted a connection.
pub open spec fn found(port: u16, service_detection: bool) -> PortInfoView {
    PortInfoView {
        port,
        service: if service_detection { service_name(port) } else { None },
        state: PortState::Open,
    }
}

/// The open ports among the first `outcomes.len()` ports, in probing order.
pub open spec fn open_results(ports: Seq<u16>, outcomes: Seq<bool>, service_detection: bool) -> Seq<
    PortInfoView,
>
    decreases outcomes.len(),
{
    if outcomes.len() == 0 {
        Seq::empty()
    } else {
        let prev = open_results(ports, outcomes.drop_last(), service_detection);
        if outcomes.last() {
            prev.push(found(ports[outcomes.len() - 1], service_detection))
        } else {
            prev
        }
    }
}

/// A session as the contracts see it.
pub struct SessionView {
    pub ports: Seq<u16>,
    pub service_detection: bool,
    pub completed: nat,
    pub open: Seq<PortInfoView>,
    pub outcomes: Seq<bool>,
}

/// The session after one more probe.
pub open spec fn step(v: SessionView, connected: bool) -> SessionView {
    SessionView {
        ports: v.ports,
        service_detection: v.service_detection,
        completed: v.completed + 1,
        open: if connected {
            v.open.push(found(v.ports[v.completed as int], v.service_detection))
        } else {
            v.open
        },
        outcomes: v.outcomes.push(connected),
    }
}

/// The session after a run of probes.
pub open spec fn run(v: SessionView, outcomes: Seq<bool>) -> SessionView
    decreases outcomes.len(),
{
    if outcomes.len() == 0 {
        v
    } else {
        run(step(v, outcomes[0]), outcomes.drop_first())
    }
}

/// The `(completed, total)` pairs reported after each probe of a run.
pub open spec fn progress_trace(v: SessionView, outcomes: Seq<bool>) -> Seq<(nat, nat)>
    decreases outcomes.len(),
{
    if outcomes.len() == 0 {
        Seq::empty()
    } else {
        let w = step(v, outcomes[0]);
        seq![(w.completed, w.ports.len())] + progress_trace(w, outcomes.drop_first())
    }
}

/// A consistent session.
pub open spec fn session_ok(v: SessionView) -> bool {
    &&& v.completed <= v.ports.len()
    &&& v.outcomes.len() == v.completed
    &&& v.open == open_results(v.ports, v.outcomes, v.service_detection)
}

/// One scan in progress: the target, the ports in probing order, and what the
/// probes so far have found.
pub struct ScanSession {
    pub target: String,
    pub ports: Vec<u16>,
    pub service_detection: bool,
    pub save_to_file: bool,
    pub completed: usize,
    pub open_ports: Vec<PortInfo>,
    pub outcomes: Ghost<Seq<bool>>,
}

impl View for ScanSession {
    type V = SessionView;

    open spec fn view(&self) -> SessionView {
        SessionView {
            ports: self.ports@,
            service_detection: self.service_detection,
            completed: self.completed as nat,
            open: infos_view(self.open_ports@),
            outcomes: self.outcomes@,
        }
    }
}

impl ScanSession {
    pub open spec fn wf(&self) -> bool {
        session_ok(self@)
    }

    /// A session that has probed nothing yet.
    pub fn new(target: String, ports: Vec<u16>, service_detection: bool, save_to_file: bool) -> (r:
        ScanSession)
        ensures
            r.wf(),
            r.target@ == target@,
            r.ports@ == ports@,
            r.service_detection == service_detection,
            r.save_to_file == save_to_file,
            r.completed == 0,
            r.open_ports@.len() == 0,
    {
        let r = ScanSession {
            target,
            ports,
            service_detection,
            save_to_file,
            completed: 0,
            open_ports: Vec::new(),
            outcomes: Ghost(Seq::empty()),
        };
        assert(infos_view(r.open_ports@) =~= Seq::<PortInfoView>::empty());
        r
    }

    /// The next port to probe, if any is left.
    pub fn next_port(&self) -> (r: Option<u16>)
        requires
            self.wf(),
        ensures
            self.completed < self.ports@.len() ==> r == Some(self.ports@[self.completed as int]),
            self.completed == self.ports@.len() ==> r is None,
    {
        if self.completed < self.ports.len() {
            Some(self.ports[self.completed])
        } else {
            None
        }
    }

    /// Whether every port has been probed.
    pub fn is_complete(&self) -> (r: bool)
        requires
            self.wf(),
        ensures
            r == (self.completed == self.ports@.len()),
    {
        self.completed == self.ports.len()
    }

    /// Progress as `(completed, total)`.
    pub fn progress(&self) -> (r: (usize, usize))
        ensures
            r == (self.completed, self.ports@.len() as usize),
    {
        (self.completed, self.ports.len())
    }

    /// Records the outcome of probing the next port: a port that accepted the
    /// connection is kept as open, with its service name when detection is on;
    /// any other outcome leaves no trace but the progress.
    pub fn record_probe(&mut self, connected: bool)
        requires
            old(self).wf(),
            old(self).completed < old(self).ports@.len(),
        ensures
            final(self).wf(),
            final(self)@ == step(old(self)@, connected),
            final(self).target == old(self).target,
            final(self).save_to_file == old(self).save_to_file,
    {
        let total = self.ports.len();
        let port = self.ports[self.completed];
        let ghost before = self@;
        if connected {
            let service = if self.service_detection {
                detect_service(port)
            } else {
                None
            };
            let info = PortInfo { port, service, state: PortState::Open };
            assert(info@ == found(port, self.service_detection));
            self.open_ports.push(info);
        }
        self.completed = self.completed + 1;
        self.outcomes = Ghost(self.outcomes@.push(connected));
        assert(self@.outcomes.drop_last() =~= before.outcomes);
        assert(infos_view(self.open_ports@) =~= step(before, connected).open);
    }

    /// The open ports found, in probing order.
    pub fn into_results(self) -> (r: Vec<PortInfo>)
        requires
            self.wf(),
        ensures
            infos_view(r@) == open_results(self.ports@, self.outcomes@, self.service_detection),
    {
        self.open_ports
    }
}

/// Progress during a scan of N ports: after each probe the pair
/// `(completed, total)` is reported; `completed` never decreases, `total`
/// stays N, and the last report is `(N, N)`.
pub proof fn lemma_progress_trace(v: SessionView, outcomes: Seq<bool>)
    requires
        session_ok(v),
        v.completed == 0,
        outcomes.len() == v.ports.len(),
    ensures
        progress_trace(v, outcomes).len() == v.ports.len(),
        forall|i: int, j: int|
            0 <= i <= j < outcomes.len() ==> (#[trigger] progress_trace(v, outcomes)[i]).0
                <= (#[trigger] progress_trace(v, outcomes)[j]).0,
        forall|i: int|
            0 <= i < outcomes.len() ==> (#[trigger] progress_trace(v, outcomes)[i]).1
                == v.ports.len(),
        outcomes.len() > 0 ==> progress_trace(v, outcomes).last() == (
        v.ports.len(),
        v.ports.len(),
        ),
{
    lemma_trace_values(v, outcomes);
}

proof fn lemma_trace_values(v: SessionView, outcomes: Seq<bool>)
    ensures
        progress_trace(v, outcomes).len() == outcomes.len(),
        forall|i: int|
            0 <= i < outcomes.len() ==> #[trigger] progress_trace(v, outcomes)[i] == (
            (v.completed + i + 1) as nat,
            v.ports.len(),
            ),
    decreases outcomes.len(),
{
    if outcomes.len() > 0 {
        let w = step(v, outcomes[0]);
        lemma_trace_values(w, outcomes.drop_first());
        assert forall|i: int| 0 <= i < outcomes.len() implies #[trigger] progress_trace(v, outcomes)[i]
            == ((v.completed + i + 1) as nat, v.ports.len()) by {
            if i > 0 {
                assert(progress_trace(v, outcomes)[i] == progress_trace(w, outcomes.drop_first())[i
                    - 1]);
            }
        }
    }
}

/// A full run of probes over a fresh session yields exactly the open ports
/// among all ports, in probing order.
pub proof fn lemma_run_results(v: SessionView, outcomes: Seq<bool>)
    requires
        session_ok(v),
        v.completed + outcomes.len() <= v.ports.len(),
    ensures
        session_ok(run(v, outcomes)),
        run(v, outcomes).outcomes == v.outcomes + outcomes,
        run(v, outcomes).open == open_results(v.ports, v.outcomes + outcomes, v.service_detection),
    decreases outcomes.len(),
{
    if outcomes.len() == 0 {
        assert(v.outcomes + outcomes =~= v.outcomes);
    } else {
        let w = step(v, outcomes[0]);
        assert(w.outcomes.drop_last() =~= v.outcomes);
        lemma_run_results(w, outcomes.drop_first());
        assert(w.outcomes + outcomes.drop_first() =~= v.outcomes + outcomes);
    }
}

/// Scanning ports in ascending order gives results in ascending order, and
/// each result is one of the scanned ports that connected.
pub proof fn lemma_results_ascending(ports: Seq<u16>, outcomes: Seq<bool>, service_detection: bool)
    requires
        strictly_ascending(ports),
        outcomes.len() <= ports.len(),
    ensures
        forall|i: int, j: int|
            0 <= i < j < open_results(ports, outcomes, service_detection).len() ==> (
            #[trigger] open_results(ports, outcomes, service_detection)[i]).port < (
            #[trigger] open_results(ports, outcomes, service_detection)[j]).port,
        forall|i: int|
            0 <= i < open_results(ports, outcomes, service_detection).len() ==> exists|k: int|
                0 <= k < outcomes.len() && outcomes[k] && ports[k] == (
                #[trigger] open_results(ports, outcomes, service_detection)[i]).port,
    decreases outcomes.len(),
{
    if outcomes.len() > 0 {
        let prev_out = outcomes.drop_last();
        lemma_results_ascending(ports, prev_out, service_detection);
        let prev = open_results(ports, prev_out, service_detection);
        let cur = open_results(ports, outcomes, service_detection);
        let n = outcomes.len() - 1;
        assert forall|i: int| 0 <= i < prev.len() implies #[trigger] prev[i].port < ports[n] by {
            let k = choose|k: int| 0 <= k < prev_out.len() && prev_out[k] && ports[k] == prev[i].port;
            assert(k < n);
        }
        assert forall|i: int| 0 <= i < cur.len() implies exists|k: int|
            0 <= k < outcomes.len() && outcomes[k] && ports[k] == (#[trigger] cur[i]).port by {
            if i < prev.len() {
                let k = choose|k: int| 0 <= k < prev_out.len() && prev_out[k] && ports[k] == prev[i].port;
                assert(outcomes[k] == prev_out[k]);
            } else {
                assert(outcomes[n] && ports[n] == cur[i].port);
            }
        }
    }
}

} // verus!
