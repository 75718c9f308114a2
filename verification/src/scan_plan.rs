use crate::command::{Invocation, InvocationView};
use crate::events::event_views;
use crate::json::pretty_json;
use crate::mock::{mock_document_view, mock_event_views, mock_scan, MockScan};
use crate::scan::{select_mode, selected_mode, succeeded_view, success_text, ScanMode, ScanStatus};
use crate::scan_args::{scan_arg_list, scan_args, ScanRequest, ScanRequestView};
use crate::text::opt_text;
use vstd::prelude::*;
use vstd::string::*;

verus! {

/// The scanner script, relative to the root of the repository.
pub const SCANNER_SCRIPT: &'static str = "scripts/network-topology-mapper.py";

/// The directory of the output files, relative to the root of the repository.
pub const SCAN_OUTPUT_DIR: &'static str = "network-scans";

/// The name of the switch that selects the played scan.
pub const MOCK_SWITCH: &'static str = "INSPECTOR_SCAN_MOCK";

/// The name of the channel on which the events of a scan are sent.
pub const SCAN_LOG_CHANNEL: &'static str = "network-scan-log";

/// What is said where the scanner script is not in the repository.
pub const SCRIPT_MISSING: &'static str =
    "Network scanner script not found. Please ensure scripts/network-topology-mapper.py exists.";

/// How a scan is to be carried out: played, with all that the played scan
/// gives, or for real, with the scanner to start.
pub enum ScanPlan {
    Mock(MockScan),
    Real(Invocation),
}

/// The tool that tells the invoking account.
pub open spec fn identity_call() -> InvocationView {
    InvocationView { program: "whoami"@, args: Seq::empty() }
}

/// The tool that tells the invoking account, to be run before a real scan.
pub fn identity_command() -> (res: Invocation)
    ensures
        res@ == identity_call(),
{
    let res = Invocation { program: String::from_str("whoami"), args: Vec::new() };
    assert(res@.args =~= Seq::empty());
    res
}

/// The scanner with its arguments for a request.
pub open spec fn scanner_call(script: Seq<char>, output: Seq<char>, req: ScanRequestView)
    -> InvocationView {
    InvocationView { program: "python3"@, args: scan_arg_list(script, output, req) }
}

/// Decides how a scan is carried out, once, from the value of the switch.
///
/// With the switch at `1` the scan is played, whatever the request: no
/// scanner is named, three events go out, the result is a success that
/// names the output file and holds the document with its one device, and
/// the text to write to the file is that document written down.
/// Otherwise the plan is the scanner with the arguments of the request.
pub fn plan_scan(
    request: &ScanRequest,
    script_path: &str,
    output_file: &str,
    timestamp: &str,
    switch: &Option<String>,
) -> (res: ScanPlan)
    ensures
        match res {
            ScanPlan::Mock(played) => {
                &&& selected_mode(opt_text(*switch)) == ScanMode::Mock
                &&& event_views(played.events@) == mock_event_views()
                &&& played.result@ == succeeded_view(
                    output_file@,
                    Some(mock_document_view()),
                    timestamp@,
                )
                &&& played.result@.status == ScanStatus::Success
                &&& played.result@.message == success_text(1)
                &&& played.result@.well_formed()
                &&& played.result.scan_data.is_some()
                &&& opt_text(played.document_text) == pretty_json(
                    played.result.scan_data.unwrap(),
                )
            },
            ScanPlan::Real(scanner) => {
                &&& selected_mode(opt_text(*switch)) == ScanMode::Real
                &&& scanner@ == scanner_call(script_path@, output_file@, request@)
            },
        },
{
    match select_mode(switch) {
        ScanMode::Mock => ScanPlan::Mock(
            mock_scan(String::from_str(output_file), String::from_str(timestamp)),
        ),
        ScanMode::Real => ScanPlan::Real(
            Invocation {
                program: String::from_str("python3"),
                args: scan_args(script_path, output_file, request),
            },
        ),
    }
}

} // verus!
