//! The port scanner: scan types, options, and the wizard that sequences them.

use vstd::prelude::*;
use crate::errors::{ModeError, describes, error_text};
use crate::features::engine::ScanSession;
use crate::features::ports::{lists_ascending, parse_port_range, port_range_ports, strictly_ascending};
use crate::features::target::{target_error, validate_target};
use crate::text::{decimal, decimal_text, join2, join3, pop_char, push_char, trim, trimmed};

verus! {

/// How a probed port answered.
#[derive(Debug, Clone, Copy, PartialEq, Eq, Structural)]
pub enum PortState {
    Open,
    Closed,
    Filtered,
}

/// One port found during a scan.
#[derive(Debug)]
pub struct PortInfo {
    pub port: u16,
    pub service: Option<String>,
    pub state: PortState,
}

/// A port as the contracts see it: its service name as characters.
pub struct PortInfoView {
    pub port: u16,
    pub service: Option<Seq<char>>,
    pub state: PortState,
}

impl View for PortInfo {
    type V = PortInfoView;

    open spec fn view(&self) -> PortInfoView {
        PortInfoView {
            port: self.port,
            service: match self.service {
                Some(s) => Some(s@),
                None => None,
            },
            state: self.state,
        }
    }
}

/// The views of a sequence of ports.
pub open spec fn infos_view(v: Seq<PortInfo>) -> Seq<PortInfoView> {
    v.map_values(|p: PortInfo| p@)
}

/// Which ports a scan probes.
#[derive(Debug, Clone, Copy, PartialEq, Eq, Structural)]
pub enum ScanType {
    /// A handful of common service ports.
    QuickScan,
    /// The most common ports.
    StandardScan,
    /// Every port from 1 to 65535.
    FullScan,
    /// Ports given by the operator.
    CustomRange,
}

/// The ports of a quick scan.
pub open spec fn quick_ports() -> Seq<u16> {
    seq![21, 22, 23, 25, 53, 80, 110, 143, 443, 3306, 3389, 5432, 8080, 8443]
}

/// The ports of a standard scan, ascending.
pub open spec fn standard_ports() -> Seq<u16> {
    seq![
        20, 21, 22, 23, 25, 53, 69, 80, 110, 111, 123, 135, 137, 138, 139, 143, 161, 162, 389, 443,
        445, 636, 989, 990, 993, 995, 1025, 1026, 1027, 1433, 1434, 1521, 1723, 2049, 2082, 2083,
        2086, 2087, 2095, 2096, 3128, 3306, 3389, 5432, 5800, 5900, 5901, 6000, 6001, 8000, 8008,
        8009, 8080, 8081, 8082, 8083, 8084, 8085, 8086, 8087, 8088, 8089, 8090, 8180, 8181, 8443,
        8888, 9090, 9091, 9100, 9999, 10000, 32768, 32769, 32770, 32771, 32772, 32773, 32774,
        32775, 32776, 32777, 49152, 49153, 49154, 49155, 49156, 49157, 50000, 50001, 50002, 50003,
    ]
}

/// Every port, 1 to 65535, ascending.
pub open spec fn all_ports() -> Seq<u16> {
    Seq::new(65535, |i: int| (i + 1) as u16)
}

/// The fixed ports of a scan type; a custom range has none of its own.
pub open spec fn ports_of(t: ScanType) -> Seq<u16> {
    match t {
        ScanType::QuickScan => quick_ports(),
        ScanType::StandardScan => standard_ports(),
        ScanType::FullScan => all_ports(),
        ScanType::CustomRange => Seq::empty(),
    }
}

/// The scan types in menu order.
pub open spec fn scan_types() -> Seq<ScanType> {
    seq![ScanType::QuickScan, ScanType::StandardScan, ScanType::FullScan, ScanType::CustomRange]
}

pub open spec fn scan_type_name(t: ScanType) -> Seq<char> {
    match t {
        ScanType::QuickScan => "Quick Scan"@,
        ScanType::StandardScan => "Standard Scan"@,
        ScanType::FullScan => "Full Scan"@,
        ScanType::CustomRange => "Custom Range"@,
    }
}

impl ScanType {
    /// All scan types, in menu order.
    pub fn all() -> (r: Vec<ScanType>)
        ensures
            r@ == scan_types(),
    {
        let r = vec![
            ScanType::QuickScan,
            ScanType::StandardScan,
            ScanType::FullScan,
            ScanType::CustomRange,
        ];
        assert(r@ =~= scan_types());
        r
    }

    /// The display name.
    pub fn name(&self) -> (r: &'static str)
        ensures
            r@ == scan_type_name(*self),
    {
        match self {
            ScanType::QuickScan => "Quick Scan",
            ScanType::StandardScan => "Standard Scan",
            ScanType::FullScan => "Full Scan",
            ScanType::CustomRange => "Custom Range",
        }
    }

    /// The one-line description.
    pub fn description(&self) -> (r: &'static str)
        ensures
            *self == ScanType::QuickScan ==> r@
                == "Scan common ports (21, 22, 23, 25, 53, 80, 110, 143, 443, 3306, 3389, 5432, 8080, 8443)"@,
            *self == ScanType::StandardScan ==> r@ == "Scan top 100 most common ports"@,
            *self == ScanType::FullScan ==> r@
                == "Scan all 65535 ports (may take several minutes)"@,
            *self == ScanType::CustomRange ==> r@ == "Scan a custom port range (e.g., 1-1000)"@,
    {
        match self {
            ScanType::QuickScan => "Scan common ports (21, 22, 23, 25, 53, 80, 110, 143, 443, 3306, 3389, 5432, 8080, 8443)",
            ScanType::StandardScan => "Scan top 100 most common ports",
            ScanType::FullScan => "Scan all 65535 ports (may take several minutes)",
            ScanType::CustomRange => "Scan a custom port range (e.g., 1-1000)",
        }
    }

    /// The ports this scan type probes, ascending and each once; the same on
    /// every call.
    pub fn get_ports(&self) -> (r: Vec<u16>)
        ensures
            r@ == ports_of(*self),
            *self != ScanType::CustomRange ==> strictly_ascending(r@),
            forall|i: int| 0 <= i < r@.len() ==> 1 <= #[trigger] r@[i],
    {
        match self {
            ScanType::QuickScan => {
                let r: Vec<u16> = vec![21, 22, 23, 25, 53, 80, 110, 143, 443, 3306, 3389, 5432, 8080, 8443];
                assert(r@ =~= quick_ports());
                r
            },
            ScanType::StandardScan => {
                let r: Vec<u16> = vec![
                    20, 21, 22, 23, 25, 53, 69, 80, 110, 111, 123, 135, 137, 138, 139, 143, 161,
                    162, 389, 443, 445, 636, 989, 990, 993, 995, 1025, 1026, 1027, 1433, 1434,
                    1521, 1723, 2049, 2082, 2083, 2086, 2087, 2095, 2096, 3128, 3306, 3389, 5432,
                    5800, 5900, 5901, 6000, 6001, 8000, 8008, 8009, 8080, 8081, 8082, 8083, 8084,
                    8085, 8086, 8087, 8088, 8089, 8090, 8180, 8181, 8443, 8888, 9090, 9091, 9100,
                    9999, 10000, 32768, 32769, 32770, 32771, 32772, 32773, 32774, 32775, 32776,
                    32777, 49152, 49153, 49154, 49155, 49156, 49157, 50000, 50001, 50002, 50003,
                ];
                assert(r@ =~= standard_ports());
                r
            },
            ScanType::FullScan => {
                let mut r: Vec<u16> = Vec::new();
                let mut p: u32 = 1;
                while p <= 65535
                    invariant
                        1 <= p <= 65536,
                        r@ == Seq::new((p - 1) as nat, |i: int| (i + 1) as u16),
                    decreases 65536 - p,
                {
                    r.push(p as u16);
                    assert(r@ =~= Seq::new(p as nat, |i: int| (i + 1) as u16));
                    p = p + 1;
                }
                r
            },
            ScanType::CustomRange => {
                let r: Vec<u16> = Vec::new();
                assert(r@ =~= Seq::<u16>::empty());
                r
            },
        }
    }
}

/// A switch on the options screen.
#[derive(Debug, Clone, Copy, PartialEq, Eq, Structural)]
pub enum ScanOption {
    ServiceDetection,
    SaveToFile,
}

/// The options in screen order.
pub open spec fn scan_options() -> Seq<ScanOption> {
    seq![ScanOption::ServiceDetection, ScanOption::SaveToFile]
}

pub open spec fn option_name(o: ScanOption) -> Seq<char> {
    match o {
        ScanOption::ServiceDetection => "Service Detection"@,
        ScanOption::SaveToFile => "Save Results to File"@,
    }
}

pub open spec fn option_description(o: ScanOption, enabled: bool) -> Seq<char> {
    let status = if enabled { "ON"@ } else { "OFF"@ };
    match o {
        ScanOption::ServiceDetection => "["@ + status + "] Attempt to identify services running on open ports"@,
        ScanOption::SaveToFile => "["@ + status + "] Save scan results to a file"@,
    }
}

impl ScanOption {
    /// All options, in screen order.
    pub fn all() -> (r: Vec<ScanOption>)
        ensures
            r@ == scan_options(),
    {
        let r = vec![ScanOption::ServiceDetection, ScanOption::SaveToFile];
        assert(r@ =~= scan_options());
        r
    }

    /// The display name.
    pub fn name(&self) -> (r: &'static str)
        ensures
            r@ == option_name(*self),
    {
        match self {
            ScanOption::ServiceDetection => "Service Detection",
            ScanOption::SaveToFile => "Save Results to File",
        }
    }

    /// The description, with the option's current setting in front.
    pub fn description(&self, enabled: bool) -> (r: String)
        ensures
            r@ == option_description(*self, enabled),
    {
        let status = if enabled { "ON" } else { "OFF" };
        match self {
            ScanOption::ServiceDetection => crate::text::join3(
                "[",
                status,
                "] Attempt to identify services running on open ports",
            ),
            ScanOption::SaveToFile => crate::text::join3("[", status, "] Save scan results to a file"),
        }
    }
}

/// The steps of the scan wizard, each with the data it needs.
#[derive(Debug)]
pub enum ScannerState {
    /// Choosing a scan type.
    SelectingScanType { selected: usize },
    /// Typing the target address or host name.
    EnteringTarget { scan_type: ScanType, input: String },
    /// Typing a custom port range.
    EnteringPortRange { target: String, input: String },
    /// Switching options on and off.
    SelectingOptions {
        scan_type: ScanType,
        target: String,
        selected: usize,
        service_detection: bool,
        save_to_file: bool,
        custom_ports: Option<Vec<u16>>,
    },
    /// Reviewing the parameters before the scan.
    Confirming {
        scan_type: ScanType,
        target: String,
        service_detection: bool,
        save_to_file: bool,
        custom_ports: Option<Vec<u16>>,
    },
    /// The scan is running.
    Scanning {
        scan_type: ScanType,
        target: String,
        progress: usize,
        total: usize,
        service_detection: bool,
        save_to_file: bool,
        custom_ports: Option<Vec<u16>>,
    },
    /// Browsing the open ports found.
    ViewingResults { target: String, open_ports: Vec<PortInfo>, scroll: usize },
    /// Finished, with a message.
    Success { message: String },
    /// Failed, with a message.
    Error { message: String },
}

/// A wizard step as the contracts see it: text as characters.
pub enum ScannerModel {
    SelectingScanType { selected: usize },
    EnteringTarget { scan_type: ScanType, input: Seq<char> },
    EnteringPortRange { target: Seq<char>, input: Seq<char> },
    SelectingOptions {
        scan_type: ScanType,
        target: Seq<char>,
        selected: usize,
        service_detection: bool,
        save_to_file: bool,
        custom_ports: Option<Seq<u16>>,
    },
    Confirming {
        scan_type: ScanType,
        target: Seq<char>,
        service_detection: bool,
        save_to_file: bool,
        custom_ports: Option<Seq<u16>>,
    },
    Scanning {
        scan_type: ScanType,
        target: Seq<char>,
        progress: usize,
        total: usize,
        service_detection: bool,
        save_to_file: bool,
        custom_ports: Option<Seq<u16>>,
    },
    ViewingResults { target: Seq<char>, open_ports: Seq<PortInfoView>, scroll: usize },
    Success { message: Seq<char> },
    Error { message: Seq<char> },
}

pub open spec fn ports_view(p: Option<Vec<u16>>) -> Option<Seq<u16>> {
    match p {
        Some(v) => Some(v@),
        None => None,
    }
}

impl View for ScannerState {
    type V = ScannerModel;

    open spec fn view(&self) -> ScannerModel {
        match *self {
            ScannerState::SelectingScanType { selected } => ScannerModel::SelectingScanType {
                selected,
            },
            ScannerState::EnteringTarget { scan_type, input } => ScannerModel::EnteringTarget {
                scan_type,
                input: input@,
            },
            ScannerState::EnteringPortRange { target, input } => ScannerModel::EnteringPortRange {
                target: target@,
                input: input@,
            },
            ScannerState::SelectingOptions {
                scan_type,
                target,
                selected,
                service_detection,
                save_to_file,
                custom_ports,
            } => ScannerModel::SelectingOptions {
                scan_type,
                target: target@,
                selected,
                service_detection,
                save_to_file,
                custom_ports: ports_view(custom_ports),
            },
            ScannerState::Confirming {
                scan_type,
                target,
                service_detection,
                save_to_file,
                custom_ports,
            } => ScannerModel::Confirming {
                scan_type,
                target: target@,
                service_detection,
                save_to_file,
                custom_ports: ports_view(custom_ports),
            },
            ScannerState::Scanning {
                scan_type,
                target,
                progress,
                total,
                service_detection,
                save_to_file,
                custom_ports,
            } => ScannerModel::Scanning {
                scan_type,
                target: target@,
                progress,
                total,
                service_detection,
                save_to_file,
                custom_ports: ports_view(custom_ports),
            },
            ScannerState::ViewingResults { target, open_ports, scroll } =>
                ScannerModel::ViewingResults {
                target: target@,
                open_ports: infos_view(open_ports@),
                scroll,
            },
            ScannerState::Success { message } => ScannerModel::Success { message: message@ },
            ScannerState::Error { message } => ScannerModel::Error { message: message@ },
        }
    }
}

/// Selection indices stay within their lists.
pub open spec fn model_ok(m: ScannerModel) -> bool {
    match m {
        ScannerModel::SelectingScanType { selected } => selected < 4,
        ScannerModel::SelectingOptions { selected, .. } => selected < 2,
        _ => true,
    }
}

pub open spec fn after_previous(m: ScannerModel) -> ScannerModel {
    match m {
        ScannerModel::SelectingScanType { selected } => ScannerModel::SelectingScanType {
            selected: if selected == 0 { 3 } else { (selected - 1) as usize },
        },
        ScannerModel::SelectingOptions {
            scan_type,
            target,
            selected,
            service_detection,
            save_to_file,
            custom_ports,
        } => ScannerModel::SelectingOptions {
            scan_type,
            target,
            selected: if selected == 0 { 1 } else { (selected - 1) as usize },
            service_detection,
            save_to_file,
            custom_ports,
        },
        ScannerModel::ViewingResults { target, open_ports, scroll } =>
            ScannerModel::ViewingResults {
            target,
            open_ports,
            scroll: if scroll > 0 { (scroll - 1) as usize } else { scroll },
        },
        other => other,
    }
}

pub open spec fn after_next(m: ScannerModel) -> ScannerModel {
    match m {
        ScannerModel::SelectingScanType { selected } => ScannerModel::SelectingScanType {
            selected: ((selected + 1) % 4) as usize,
        },
        ScannerModel::SelectingOptions {
            scan_type,
            target,
            selected,
            service_detection,
            save_to_file,
            custom_ports,
        } => ScannerModel::SelectingOptions {
            scan_type,
            target,
            selected: ((selected + 1) % 2) as usize,
            service_detection,
            save_to_file,
            custom_ports,
        },
        ScannerModel::ViewingResults { target, open_ports, scroll } =>
            ScannerModel::ViewingResults {
            target,
            open_ports,
            scroll: if scroll + 1 < open_ports.len() { (scroll + 1) as usize } else { scroll },
        },
        other => other,
    }
}

/// Where the wizard goes when the target is submitted. `is_ip_literal` tells
/// whether the trimmed target parses as an IP address.
pub open spec fn after_target(m: ScannerModel, is_ip_literal: bool) -> ScannerModel {
    match m {
        ScannerModel::EnteringTarget { scan_type, input } => {
            let t = trim(input);
            match target_error(t, is_ip_literal) {
                Some(msg) => ScannerModel::Error { message: msg },
                None => if scan_type == ScanType::CustomRange {
                    ScannerModel::EnteringPortRange { target: t, input: Seq::empty() }
                } else {
                    ScannerModel::SelectingOptions {
                        scan_type,
                        target: t,
                        selected: 0,
                        service_detection: false,
                        save_to_file: false,
                        custom_ports: None,
                    }
                },
            }
        },
        other => other,
    }
}

/// The characters the port range field accepts.
pub open spec fn port_range_char(c: char) -> bool {
    ('0' <= c <= '9') || c == ',' || c == '-' || c == ' '
}

pub open spec fn after_go_back(m: ScannerModel) -> ScannerModel {
    match m {
        ScannerModel::EnteringTarget { scan_type, .. } => ScannerModel::SelectingScanType {
            selected: match scan_type {
                ScanType::QuickScan => 0,
                ScanType::StandardScan => 1,
                ScanType::FullScan => 2,
                ScanType::CustomRange => 3,
            },
        },
        ScannerModel::EnteringPortRange { target, .. } => ScannerModel::EnteringTarget {
            scan_type: ScanType::CustomRange,
            input: target,
        },
        ScannerModel::SelectingOptions { scan_type, target, .. } => if scan_type
            == ScanType::CustomRange {
            ScannerModel::EnteringPortRange { target, input: Seq::empty() }
        } else {
            ScannerModel::EnteringTarget { scan_type, input: Seq::empty() }
        },
        ScannerModel::Confirming {
            scan_type,
            target,
            service_detection,
            save_to_file,
            custom_ports,
        } => ScannerModel::SelectingOptions {
            scan_type,
            target,
            selected: 0,
            service_detection,
            save_to_file,
            custom_ports,
        },
        other => other,
    }
}

/// Where the wizard goes when the port range `input` is submitted for
/// `target`: to the options with the range's ports, or to the reason the
/// range was rejected.
pub open spec fn port_range_submitted(target: Seq<char>, input: Seq<char>, after: ScannerModel) -> bool {
    match port_range_ports(input) {
        Ok(set) => {
            &&& after matches ScannerModel::SelectingOptions {
                scan_type,
                target: t,
                selected,
                service_detection,
                save_to_file,
                custom_ports,
            }
            &&& scan_type == ScanType::CustomRange
            &&& t == target
            &&& selected == 0
            &&& !service_detection
            &&& !save_to_file
            &&& custom_ports matches Some(p)
            &&& lists_ascending(p, set)
        },
        Err(m) => after == (ScannerModel::Error { message: m }),
    }
}

/// The options step with the selected option flipped.
pub open spec fn after_toggle(m: ScannerModel) -> ScannerModel {
    match m {
        ScannerModel::SelectingOptions {
            scan_type,
            target,
            selected,
            service_detection,
            save_to_file,
            custom_ports,
        } => ScannerModel::SelectingOptions {
            scan_type,
            target,
            selected,
            service_detection: if selected == 0 { !service_detection } else { service_detection },
            save_to_file: if selected == 1 { !save_to_file } else { save_to_file },
            custom_ports,
        },
        other => other,
    }
}

/// The review step that follows the options.
pub open spec fn after_options(m: ScannerModel) -> ScannerModel {
    match m {
        ScannerModel::SelectingOptions {
            scan_type,
            target,
            service_detection,
            save_to_file,
            custom_ports,
            ..
        } => ScannerModel::Confirming {
            scan_type,
            target,
            service_detection,
            save_to_file,
            custom_ports,
        },
        other => other,
    }
}

/// Starting the reviewed scan `m` leads to `after`, with `session` over the
/// ports to probe.
pub open spec fn scan_started(m: ScannerModel, after: ScannerModel, session: ScanSession) -> bool {
    match m {
        ScannerModel::Confirming {
            scan_type,
            target,
            service_detection,
            save_to_file,
            custom_ports,
        } => {
            &&& after == (ScannerModel::Scanning {
                scan_type,
                target,
                progress: 0,
                total: scan_ports(scan_type, custom_ports).len() as usize,
                service_detection,
                save_to_file,
                custom_ports,
            })
            &&& session.wf()
            &&& session.target@ == target
            &&& session.ports@ == scan_ports(scan_type, custom_ports)
            &&& session.service_detection == service_detection
            &&& session.save_to_file == save_to_file
            &&& session.completed == 0
        },
        _ => false,
    }
}

/// Where ending the running scan `before` leads, given what the engine
/// `found` and why saving the report failed, if it did: a failure ends the
/// wizard with its message, no open ports end it with a notice, otherwise the
/// results are shown from the top.
pub open spec fn scan_finished_step(
    before: ScannerModel,
    found: Result<Vec<PortInfo>, ModeError>,
    save_failure: Option<ModeError>,
    after: ScannerModel,
) -> bool {
    &&& before matches ScannerModel::Scanning { target, .. } ==> exists|shown: Seq<char>|
        {
            &&& after == #[trigger] after_scan(target, found_view(found), save_failure, shown)
            &&& scan_failure(found_view(found), save_failure) matches Some(e) ==> describes(
                e,
                shown,
            )
        }
    &&& !(before is Scanning) ==> after == before
}

/// The running scan shows `completed` probes done; other steps are left alone.
pub open spec fn progress_shown(before: ScannerModel, completed: usize, after: ScannerModel) -> bool {
    &&& before matches ScannerModel::Scanning {
            scan_type,
            target,
            total,
            service_detection,
            save_to_file,
            custom_ports,
            ..
        } ==> after == (ScannerModel::Scanning {
            scan_type,
            target,
            progress: completed,
            total,
            service_detection,
            save_to_file,
            custom_ports,
        })
    &&& !(before is Scanning) ==> after == before
}

/// The ports a confirmed scan probes: the custom ones, else the scan type's.
pub open spec fn scan_ports(scan_type: ScanType, custom_ports: Option<Seq<u16>>) -> Seq<u16> {
    match custom_ports {
        Some(p) => p,
        None => ports_of(scan_type),
    }
}

pub open spec fn prompt_of(m: ScannerModel) -> Seq<char> {
    match m {
        ScannerModel::SelectingScanType { .. } =>
            "Select scan type (\u{2191}/\u{2193} to navigate, Enter to select, ESC to cancel):"@,
        ScannerModel::EnteringTarget { scan_type, .. } => scan_type_name(scan_type)
            + "\nEnter target IP address or hostname:"@,
        ScannerModel::EnteringPortRange { .. } =>
            "Enter port range (e.g., '80,443' or '1-1000' or '80,443,8000-9000'):"@,
        ScannerModel::SelectingOptions { .. } =>
            "Configure scan options (\u{2191}/\u{2193} to navigate, Space to toggle, Enter to continue):"@,
        ScannerModel::Confirming { .. } => "Review scan parameters:"@,
        ScannerModel::Scanning { progress, total, .. } => "Scanning... "@ + decimal(
            progress as nat,
        ) + "/"@ + decimal(total as nat) + " ports"@,
        ScannerModel::ViewingResults { target, open_ports, .. } => "Scan Results for "@ + target
            + " ("@ + decimal(open_ports.len()) + " open ports)"@,
        ScannerModel::Success { message } => message,
        ScannerModel::Error { message } => "Error: "@ + message,
    }
}

/// The rows of the confirmation screen.
pub open spec fn confirmation_rows(
    scan_type: ScanType,
    target: Seq<char>,
    service_detection: bool,
    save_to_file: bool,
    custom_ports: Option<Seq<u16>>,
) -> Seq<(Seq<char>, Seq<char>)> {
    seq![
        ("Scan Type"@, scan_type_name(scan_type)),
        ("Target"@, target),
        ("Ports"@, decimal(scan_ports(scan_type, custom_ports).len()) + " ports"@),
        ("Service Detection"@, if service_detection { "Enabled"@ } else { "Disabled"@ }),
        ("Save to File"@, if save_to_file { "Yes"@ } else { "No"@ }),
    ]
}

pub open spec fn rows_view(v: Seq<(String, String)>) -> Seq<(Seq<char>, Seq<char>)> {
    v.map_values(|p: (String, String)| (p.0@, p.1@))
}

/// A copy of a port list.
fn copy_ports(p: &Option<Vec<u16>>) -> (r: Option<Vec<u16>>)
    ensures
        ports_view(r) == ports_view(*p),
{
    match p {
        Some(v) => {
            let c = v.clone();
            assert(c@ =~= v@);
            Some(c)
        },
        None => None,
    }
}

/// The port scanner wizard.
#[derive(Debug)]
pub struct Scanner {
    pub state: ScannerState,
}

impl Scanner {
    pub open spec fn wf(&self) -> bool {
        model_ok(self.state@)
    }

    /// A wizard at its first step, with the first scan type selected.
    pub fn new() -> (r: Scanner)
        ensures
            r.state@ == (ScannerModel::SelectingScanType { selected: 0 }),
            r.wf(),
    {
        Scanner { state: ScannerState::SelectingScanType { selected: 0 } }
    }

    /// Moves the selection up, wrapping to the bottom; scrolls results up.
    pub fn previous(&mut self)
        requires
            old(self).wf(),
        ensures
            final(self).wf(),
            final(self).state@ == after_previous(old(self).state@),
    {
        match &mut self.state {
            ScannerState::SelectingScanType { selected } => {
                let total = ScanType::all().len();
                *selected = if *selected == 0 { total - 1 } else { *selected - 1 };
            },
            ScannerState::SelectingOptions { selected, .. } => {
                let total = ScanOption::all().len();
                *selected = if *selected == 0 { total - 1 } else { *selected - 1 };
            },
            ScannerState::ViewingResults { scroll, .. } => {
                if *scroll > 0 {
                    *scroll = *scroll - 1;
                }
            },
            _ => {},
        }
    }

    /// Moves the selection down, wrapping to the top; scrolls results down.
    pub fn next(&mut self)
        requires
            old(self).wf(),
        ensures
            final(self).wf(),
            final(self).state@ == after_next(old(self).state@),
    {
        match &mut self.state {
            ScannerState::SelectingScanType { selected } => {
                let total = ScanType::all().len();
                *selected = (*selected + 1) % total;
            },
            ScannerState::SelectingOptions { selected, .. } => {
                let total = ScanOption::all().len();
                *selected = (*selected + 1) % total;
            },
            ScannerState::ViewingResults { scroll, open_ports, .. } => {
                let last = if open_ports.len() > 0 { open_ports.len() - 1 } else { 0 };
                if *scroll < last {
                    *scroll = *scroll + 1;
                }
            },
            _ => {},
        }
    }
}

impl Scanner {
    /// Takes the selected scan type and asks for the target.
    pub fn confirm_scan_type(&mut self)
        requires
            old(self).wf(),
        ensures
            final(self).wf(),
            old(self).state@ matches ScannerModel::SelectingScanType { selected } ==> final(self).state@ == (ScannerModel::EnteringTarget {
                scan_type: scan_types()[selected as int],
                input: Seq::empty(),
            }),
            !(old(self).state@ is SelectingScanType) ==> final(self).state@ == old(self).state@,
    {
        if let ScannerState::SelectingScanType { selected } = self.state {
            let types = ScanType::all();
            let scan_type = types[selected];
            self.state = ScannerState::EnteringTarget { scan_type, input: String::new() };
        }
    }

    /// Types a character into the target field.
    pub fn handle_char(&mut self, c: char)
        requires
            old(self).wf(),
        ensures
            final(self).wf(),
            old(self).state@ matches ScannerModel::EnteringTarget { scan_type, input } ==> final(self).state@ == (ScannerModel::EnteringTarget { scan_type, input: input.push(c) }),
            !(old(self).state@ is EnteringTarget) ==> final(self).state@ == old(self).state@,
    {
        if let ScannerState::EnteringTarget { input, .. } = &mut self.state {
            push_char(input, c);
        }
    }

    /// Deletes the last character of the target field.
    pub fn handle_backspace(&mut self)
        requires
            old(self).wf(),
        ensures
            final(self).wf(),
            old(self).state@ matches ScannerModel::EnteringTarget { scan_type, input } ==> final(self).state@ == (ScannerModel::EnteringTarget {
                scan_type,
                input: if input.len() > 0 { input.drop_last() } else { input },
            }),
            !(old(self).state@ is EnteringTarget) ==> final(self).state@ == old(self).state@,
    {
        if let ScannerState::EnteringTarget { input, .. } = &mut self.state {
            pop_char(input);
        }
    }

    /// The target as it will be submitted: the field's text, trimmed. The
    /// caller checks whether it parses as an IP address before submitting.
    pub fn pending_target(&self) -> (r: Option<String>)
        ensures
            self.state@ matches ScannerModel::EnteringTarget { input, .. } ==> r matches Some(t)
                && t@ == trim(input),
            !(self.state@ is EnteringTarget) ==> r is None,
    {
        match &self.state {
            ScannerState::EnteringTarget { input, .. } => Some(trimmed(input.as_str())),
            _ => None,
        }
    }

    /// Submits the target. A rejected target ends the wizard with the reason;
    /// otherwise a custom range asks for its ports and the other scan types go
    /// to the options. `is_ip_literal` tells whether the trimmed target parses
    /// as an IPv4 or IPv6 address.
    pub fn advance_to_options(&mut self, is_ip_literal: bool)
        requires
            old(self).wf(),
        ensures
            final(self).wf(),
            final(self).state@ == after_target(old(self).state@, is_ip_literal),
    {
        let next = match &self.state {
            ScannerState::EnteringTarget { scan_type, input } => {
                let target = trimmed(input.as_str());
                match validate_target(target.as_str(), is_ip_literal) {
                    Err(e) => {
                        let message = e.message();
                        proof {
                            assert(!(e is Io));
                            assert(message@ == error_text(e));
                        }
                        ScannerState::Error { message }
                    },
                    Ok(()) => {
                        if *scan_type == ScanType::CustomRange {
                            ScannerState::EnteringPortRange { target, input: String::new() }
                        } else {
                            ScannerState::SelectingOptions {
                                scan_type: *scan_type,
                                target,
                                selected: 0,
                                service_detection: false,
                                save_to_file: false,
                                custom_ports: None,
                            }
                        }
                    },
                }
            },
            _ => {
                return;
            },
        };
        self.state = next;
    }

    /// Submits the port range: its ports go to the options, or the wizard ends
    /// with the reason the range was rejected.
    pub fn advance_from_port_range(&mut self)
        requires
            old(self).wf(),
        ensures
            final(self).wf(),
            old(self).state@ matches ScannerModel::EnteringPortRange { target, input }
                ==> port_range_submitted(target, input, final(self).state@),
            !(old(self).state@ is EnteringPortRange) ==> final(self).state@ == old(self).state@,
    {
        let next = match &self.state {
            ScannerState::EnteringPortRange { target, input } => {
                match parse_port_range(input.as_str()) {
                    Ok(ports) => ScannerState::SelectingOptions {
                        scan_type: ScanType::CustomRange,
                        target: target.clone(),
                        selected: 0,
                        service_detection: false,
                        save_to_file: false,
                        custom_ports: Some(ports),
                    },
                    Err(e) => {
                        let message = e.message();
                        ScannerState::Error { message }
                    },
                }
            },
            _ => {
                return;
            },
        };
        self.state = next;
    }

    /// Types a character into the port range field; only digits, commas,
    /// hyphens and spaces are taken.
    pub fn handle_port_range_char(&mut self, c: char)
        requires
            old(self).wf(),
        ensures
            final(self).wf(),
            old(self).state@ matches ScannerModel::EnteringPortRange { target, input } ==> final(self).state@ == (ScannerModel::EnteringPortRange {
                target,
                input: if port_range_char(c) { input.push(c) } else { input },
            }),
            !(old(self).state@ is EnteringPortRange) ==> final(self).state@ == old(self).state@,
    {
        if let ScannerState::EnteringPortRange { input, .. } = &mut self.state {
            if ('0' <= c && c <= '9') || c == ',' || c == '-' || c == ' ' {
                push_char(input, c);
            }
        }
    }

    /// Deletes the last character of the port range field.
    pub fn handle_port_range_backspace(&mut self)
        requires
            old(self).wf(),
        ensures
            final(self).wf(),
            old(self).state@ matches ScannerModel::EnteringPortRange { target, input } ==> final(self).state@ == (ScannerModel::EnteringPortRange {
                target,
                input: if input.len() > 0 { input.drop_last() } else { input },
            }),
            !(old(self).state@ is EnteringPortRange) ==> final(self).state@ == old(self).state@,
    {
        if let ScannerState::EnteringPortRange { input, .. } = &mut self.state {
            pop_char(input);
        }
    }

    /// Flips the selected option.
    pub fn toggle_option(&mut self)
        requires
            old(self).wf(),
        ensures
            final(self).wf(),
            final(self).state@ == after_toggle(old(self).state@),
    {
        if let ScannerState::SelectingOptions { selected, service_detection, save_to_file, .. } =
            &mut self.state {
            let options = ScanOption::all();
            let option = options[*selected];
            match option {
                ScanOption::ServiceDetection => *service_detection = !*service_detection,
                ScanOption::SaveToFile => *save_to_file = !*save_to_file,
            }
        }
    }

    /// Leaves the options for the review screen.
    pub fn advance_to_confirmation(&mut self)
        requires
            old(self).wf(),
        ensures
            final(self).wf(),
            final(self).state@ == after_options(old(self).state@),
    {
        let next = match &self.state {
            ScannerState::SelectingOptions {
                scan_type,
                target,
                service_detection,
                save_to_file,
                custom_ports,
                ..
            } => ScannerState::Confirming {
                scan_type: *scan_type,
                target: target.clone(),
                service_detection: *service_detection,
                save_to_file: *save_to_file,
                custom_ports: copy_ports(custom_ports),
            },
            _ => {
                return;
            },
        };
        self.state = next;
    }
}

/// The step a finished scan leads to. `found` is what the engine found, or
/// why it failed; `save_failure` is why saving the report failed, if it did.
pub open spec fn after_scan(
    target: Seq<char>,
    found: Result<Seq<PortInfoView>, ModeError>,
    save_failure: Option<ModeError>,
    shown: Seq<char>,
) -> ScannerModel {
    match found {
        Ok(open_ports) => match save_failure {
            Some(_) => ScannerModel::Error {
                message: "Scan completed but failed to save results: "@ + shown,
            },
            None => if open_ports.len() == 0 {
                ScannerModel::Success {
                    message: "Scan completed. No open ports found on "@ + target,
                }
            } else {
                ScannerModel::ViewingResults { target, open_ports, scroll: 0 }
            },
        },
        Err(_) => ScannerModel::Error { message: "Scan failed: "@ + shown },
    }
}

/// The error, if any, whose text a finished scan shows.
pub open spec fn scan_failure(
    found: Result<Seq<PortInfoView>, ModeError>,
    save_failure: Option<ModeError>,
) -> Option<ModeError> {
    match found {
        Ok(_) => save_failure,
        Err(e) => Some(e),
    }
}

pub open spec fn found_view(r: Result<Vec<PortInfo>, ModeError>) -> Result<
    Seq<PortInfoView>,
    ModeError,
> {
    match r {
        Ok(v) => Ok(infos_view(v@)),
        Err(e) => Err(e),
    }
}

impl Scanner {
    /// Starts the confirmed scan: the wizard shows progress from zero, and the
    /// returned session, over the ports to probe, is for the engine to run.
    pub fn execute_scan(&mut self) -> (r: Option<ScanSession>)
        requires
            old(self).wf(),
        ensures
            final(self).wf(),
            old(self).state@ is Confirming ==> (r matches Some(session) && scan_started(
                old(self).state@,
                final(self).state@,
                session,
            )),
            !(old(self).state@ is Confirming) ==> r is None && final(self).state@ == old(
                self,
            ).state@,
    {
        let (next, session) = match &self.state {
            ScannerState::Confirming {
                scan_type,
                target,
                service_detection,
                save_to_file,
                custom_ports,
            } => {
                let ports = match custom_ports {
                    Some(p) => {
                        let c = p.clone();
                        assert(c@ =~= p@);
                        c
                    },
                    None => scan_type.get_ports(),
                };
                let total = ports.len();
                let next = ScannerState::Scanning {
                    scan_type: *scan_type,
                    target: target.clone(),
                    progress: 0,
                    total,
                    service_detection: *service_detection,
                    save_to_file: *save_to_file,
                    custom_ports: copy_ports(custom_ports),
                };
                let session = ScanSession::new(
                    target.clone(),
                    ports,
                    *service_detection,
                    *save_to_file,
                );
                (next, session)
            },
            _ => {
                return None;
            },
        };
        self.state = next;
        Some(session)
    }

    /// Shows how many ports the running scan has probed.
    pub fn update_progress(&mut self, completed: usize)
        requires
            old(self).wf(),
        ensures
            final(self).wf(),
            progress_shown(old(self).state@, completed, final(self).state@),
    {
        if let ScannerState::Scanning { progress, .. } = &mut self.state {
            *progress = completed;
        }
    }

    /// Ends the running scan. `found` holds the open ports, or why the scan
    /// failed; `save_failure` is why saving the report failed, if it did. A
    /// failure ends the wizard with its message; no open ports ends it with a
    /// notice; otherwise the results are shown from the top.
    pub fn finish_scan(
        &mut self,
        found: Result<Vec<PortInfo>, ModeError>,
        save_failure: Option<ModeError>,
    )
        requires
            old(self).wf(),
        ensures
            final(self).wf(),
            scan_finished_step(old(self).state@, found, save_failure, final(self).state@),
    {
        let ghost m0 = self.state@;
        let target = match &self.state {
            ScannerState::Scanning { target, .. } => target.clone(),
            _ => {
                return;
            },
        };
        let ghost fv = found_view(found);
        let ghost sf = save_failure;
        assert(m0 matches ScannerModel::Scanning { target: t, .. } && t == target@);
        match found {
            Ok(open_ports) => {
                match save_failure {
                    Some(e) => {
                        let shown = e.message();
                        let message = join2(
                            "Scan completed but failed to save results: ",
                            shown.as_str(),
                        );
                        self.state = ScannerState::Error { message };
                        assert(self.state@ == after_scan(target@, fv, sf, shown@));
                    },
                    None => {
                        if open_ports.len() == 0 {
                            let message = join2(
                                "Scan completed. No open ports found on ",
                                target.as_str(),
                            );
                            self.state = ScannerState::Success { message };
                        } else {
                            self.state = ScannerState::ViewingResults {
                                target,
                                open_ports,
                                scroll: 0,
                            };
                        }
                        assert(self.state@ == after_scan(target@, fv, sf, Seq::empty()));
                        assert(scan_failure(fv, sf) is None);
                    },
                }
            },
            Err(e) => {
                let shown = e.message();
                let message = join2("Scan failed: ", shown.as_str());
                self.state = ScannerState::Error { message };
                assert(self.state@ == after_scan(target@, fv, sf, shown@));
            },
        }
    }
}

impl Scanner {
    /// Goes back one step. The port range step returns to the target with the
    /// target text kept; the options return to an empty field of the step
    /// before; the review returns to the options with their settings kept.
    pub fn go_back(&mut self)
        requires
            old(self).wf(),
        ensures
            final(self).wf(),
            final(self).state@ == after_go_back(old(self).state@),
    {
        let next = match &self.state {
            ScannerState::EnteringTarget { scan_type, .. } => {
                let idx: usize = match scan_type {
                    ScanType::QuickScan => 0,
                    ScanType::StandardScan => 1,
                    ScanType::FullScan => 2,
                    ScanType::CustomRange => 3,
                };
                ScannerState::SelectingScanType { selected: idx }
            },
            ScannerState::EnteringPortRange { target, .. } => ScannerState::EnteringTarget {
                scan_type: ScanType::CustomRange,
                input: target.clone(),
            },
            ScannerState::SelectingOptions { scan_type, target, .. } => {
                if *scan_type == ScanType::CustomRange {
                    ScannerState::EnteringPortRange { target: target.clone(), input: String::new() }
                } else {
                    ScannerState::EnteringTarget { scan_type: *scan_type, input: String::new() }
                }
            },
            ScannerState::Confirming {
                scan_type,
                target,
                service_detection,
                save_to_file,
                custom_ports,
            } => ScannerState::SelectingOptions {
                scan_type: *scan_type,
                target: target.clone(),
                selected: 0,
                service_detection: *service_detection,
                save_to_file: *save_to_file,
                custom_ports: copy_ports(custom_ports),
            },
            _ => {
                return;
            },
        };
        self.state = next;
    }

    /// Whether the wizard has ended, with success or with an error.
    pub fn is_done(&self) -> (r: bool)
        ensures
            r == (self.state@ is Success || self.state@ is Error),
    {
        match self.state {
            ScannerState::Success { .. } | ScannerState::Error { .. } => true,
            _ => false,
        }
    }

    /// The selected index on the steps that have a selection.
    pub fn get_selected(&self) -> (r: Option<usize>)
        ensures
            self.state@ matches ScannerModel::SelectingScanType { selected } ==> r == Some(
                selected,
            ),
            self.state@ matches ScannerModel::SelectingOptions { selected, .. } ==> r == Some(
                selected,
            ),
            !(self.state@ is SelectingScanType || self.state@ is SelectingOptions) ==> r is None,
    {
        match self.state {
            ScannerState::SelectingScanType { selected } => Some(selected),
            ScannerState::SelectingOptions { selected, .. } => Some(selected),
            _ => None,
        }
    }

    /// The text of the field being typed into; empty on other steps.
    pub fn get_input(&self) -> (r: String)
        ensures
            self.state@ matches ScannerModel::EnteringTarget { input, .. } ==> r@ == input,
            self.state@ matches ScannerModel::EnteringPortRange { input, .. } ==> r@ == input,
            !(self.state@ is EnteringTarget || self.state@ is EnteringPortRange) ==> r@.len() == 0,
    {
        match &self.state {
            ScannerState::EnteringTarget { input, .. } => input.clone(),
            ScannerState::EnteringPortRange { input, .. } => input.clone(),
            _ => String::new(),
        }
    }

    /// The prompt shown on the current step.
    pub fn get_prompt(&self) -> (r: String)
        ensures
            r@ == prompt_of(self.state@),
    {
        match &self.state {
            ScannerState::SelectingScanType { .. } => {
                "Select scan type (\u{2191}/\u{2193} to navigate, Enter to select, ESC to cancel):".to_owned()
            },
            ScannerState::EnteringTarget { scan_type, .. } => {
                join2(scan_type.name(), "\nEnter target IP address or hostname:")
            },
            ScannerState::EnteringPortRange { .. } => {
                "Enter port range (e.g., '80,443' or '1-1000' or '80,443,8000-9000'):".to_owned()
            },
            ScannerState::SelectingOptions { .. } => {
                "Configure scan options (\u{2191}/\u{2193} to navigate, Space to toggle, Enter to continue):".to_owned()
            },
            ScannerState::Confirming { .. } => "Review scan parameters:".to_owned(),
            ScannerState::Scanning { progress, total, .. } => {
                let p = decimal_text(*progress);
                let t = decimal_text(*total);
                let a = join3("Scanning... ", p.as_str(), "/");
                join3(a.as_str(), t.as_str(), " ports")
            },
            ScannerState::ViewingResults { target, open_ports, .. } => {
                let n = decimal_text(open_ports.len());
                let a = join3("Scan Results for ", target.as_str(), " (");
                join3(a.as_str(), n.as_str(), " open ports)")
            },
            ScannerState::Success { message } => message.clone(),
            ScannerState::Error { message } => join2("Error: ", message.as_str()),
        }
    }

    /// The rows of the review screen, while reviewing.
    pub fn get_confirmation_data(&self) -> (r: Option<Vec<(String, String)>>)
        ensures
            self.state@ matches ScannerModel::Confirming {
                scan_type,
                target,
                service_detection,
                save_to_file,
                custom_ports,
            } ==> r matches Some(rows) && rows_view(rows@) == confirmation_rows(
                scan_type,
                target,
                service_detection,
                save_to_file,
                custom_ports,
            ),
            !(self.state@ is Confirming) ==> r is None,
    {
        match &self.state {
            ScannerState::Confirming {
                scan_type,
                target,
                service_detection,
                save_to_file,
                custom_ports,
            } => {
                let port_count = match custom_ports {
                    Some(p) => p.len(),
                    None => scan_type.get_ports().len(),
                };
                let count = decimal_text(port_count);
                let rows = vec![
                    ("Scan Type".to_owned(), scan_type.name().to_owned()),
                    ("Target".to_owned(), target.clone()),
                    ("Ports".to_owned(), join2(count.as_str(), " ports")),
                    (
                        "Service Detection".to_owned(),
                        (if *service_detection { "Enabled" } else { "Disabled" }).to_owned(),
                    ),
                    (
                        "Save to File".to_owned(),
                        (if *save_to_file { "Yes" } else { "No" }).to_owned(),
                    ),
                ];
                assert(rows_view(rows@) =~= confirmation_rows(
                    *scan_type,
                    target@,
                    *service_detection,
                    *save_to_file,
                    ports_view(*custom_ports),
                ));
                Some(rows)
            },
            _ => None,
        }
    }

    /// The two option settings, on the options step.
    pub fn get_options_state(&self) -> (r: Option<(bool, bool)>)
        ensures
            self.state@ matches ScannerModel::SelectingOptions {
                service_detection,
                save_to_file,
                ..
            } ==> r == Some((service_detection, save_to_file)),
            !(self.state@ is SelectingOptions) ==> r is None,
    {
        match &self.state {
            ScannerState::SelectingOptions { service_detection, save_to_file, .. } => Some(
                (*service_detection, *save_to_file),
            ),
            _ => None,
        }
    }
}

} // verus!
