use crate::events::StreamReader;
use crate::json::{
    document_view, entries_of, json_document, member, object_len, parse_document, value_entries,
    value_member, JsonView,
};
use crate::text::{
    blank, decimal, decimal_string, is_blank, joined, opt_text, same_text, texts, trimmed,
    trimmed_string,
};
use vstd::prelude::*;
use vstd::string::*;

verus! {

/// How a scan ended.
#[derive(Clone, Copy, Debug, PartialEq, Eq, Structural)]
pub enum ScanStatus {
    Success,
    Error,
}

/// The name under which a status is reported.
pub open spec fn scan_status_name(status: ScanStatus) -> Seq<char> {
    match status {
        ScanStatus::Success => "success"@,
        ScanStatus::Error => "error"@,
    }
}

impl ScanStatus {
    /// The name under which the status is reported.
    pub fn as_str(&self) -> (res: &'static str)
        ensures
            res@ == scan_status_name(*self),
    {
        match self {
            ScanStatus::Success => "success",
            ScanStatus::Error => "error",
        }
    }
}

/// What a scan reports: how it ended, a message for the user, and, after a
/// success, the output file and the document that was read from it.
#[derive(Clone, Debug, PartialEq)]
pub struct ScanResult {
    pub status: ScanStatus,
    pub message: String,
    pub output_file: Option<String>,
    pub scan_data: Option<serde_json::Value>,
    pub timestamp: String,
}

pub struct ScanResultView {
    pub status: ScanStatus,
    pub message: Seq<char>,
    pub output_file: Option<Seq<char>>,
    pub scan_data: Option<JsonView>,
    pub timestamp: Seq<char>,
}

impl View for ScanResult {
    type V = ScanResultView;

    open spec fn view(&self) -> ScanResultView {
        ScanResultView {
            status: self.status,
            message: self.message@,
            output_file: opt_text(self.output_file),
            scan_data: document_view(self.scan_data),
            timestamp: self.timestamp@,
        }
    }
}

impl ScanResultView {
    /// Output file and document come together, and only with a success.
    pub open spec fn well_formed(self) -> bool {
        &&& self.output_file.is_some() == self.scan_data.is_some()
        &&& self.status == ScanStatus::Error ==> self.output_file.is_none()
    }
}

/// Whether the scan runs for real or is only played.
#[derive(Clone, Copy, Debug, PartialEq, Eq, Structural)]
pub enum ScanMode {
    Real,
    Mock,
}

/// The mode that the switch selects: the played scan when it is set to `1`,
/// the real one when it is unset or set to anything else.
pub open spec fn selected_mode(switch: Option<Seq<char>>) -> ScanMode {
    if switch == Some("1"@) {
        ScanMode::Mock
    } else {
        ScanMode::Real
    }
}

/// Selects the mode from the value of the switch.
pub fn select_mode(switch: &Option<String>) -> (res: ScanMode)
    ensures
        res == selected_mode(opt_text(*switch)),
{
    match switch {
        Some(s) => {
            if same_text(s.as_str(), "1") {
                ScanMode::Mock
            } else {
                ScanMode::Real
            }
        },
        None => ScanMode::Real,
    }
}

/// The name of the output file of a scan: project and time stamp between a
/// fixed head and the extension.
pub open spec fn output_name(project_id: Seq<char>, timestamp: Seq<char>) -> Seq<char> {
    "network-scan-"@ + project_id + "-"@ + timestamp + ".json"@
}

/// Builds the name of the output file of a scan.
pub fn output_file_name(project_id: &str, timestamp: &str) -> (res: String)
    ensures
        res@ == output_name(project_id@, timestamp@),
{
    String::from_str("network-scan-").concat(project_id).concat("-").concat(timestamp).concat(
        ".json",
    )
}

/// The account that may scan.
pub open spec fn privileged_account() -> Seq<char> {
    "root"@
}

/// The message for a caller that is not the privileged account.
pub open spec fn privilege_message() -> Seq<char> {
    "Network scanning requires root privileges. Please run the app with sudo or use: sudo python3 scripts/network-topology-mapper.py"@
}

/// The result for a caller that is not the privileged account.
pub open spec fn privilege_required(timestamp: Seq<char>) -> ScanResultView {
    ScanResultView {
        status: ScanStatus::Error,
        message: privilege_message(),
        output_file: None,
        scan_data: None,
        timestamp,
    }
}

/// Tests the name of the invoking account, given as the identity tool wrote
/// it: `None` for the privileged account, and for any other the result that
/// tells the user to run the scan with privileges.
pub fn check_privilege(account_output: &str, timestamp: &str) -> (res: Option<ScanResult>)
    ensures
        res.is_none() <==> trimmed(account_output@) == privileged_account(),
        res.is_some() ==> res.unwrap()@ == privilege_required(timestamp@),
        res.is_some() ==> res.unwrap()@.well_formed(),
{
    let account = trimmed_string(account_output);
    if same_text(account.as_str(), "root") {
        None
    } else {
        Some(
            ScanResult {
                status: ScanStatus::Error,
                message: String::from_str(
                    "Network scanning requires root privileges. Please run the app with sudo or use: sudo python3 scripts/network-topology-mapper.py",
                ),
                output_file: None,
                scan_data: None,
                timestamp: String::from_str(timestamp),
            },
        )
    }
}

/// What is said of a scanner that failed: what it wrote to standard error,
/// or else what it wrote to standard output, each without the white space at
/// its ends, or else that it wrote nothing.
pub open spec fn failure_text(stdout: Seq<char>, stderr: Seq<char>) -> Seq<char> {
    if !blank(stderr) {
        trimmed(stderr)
    } else if !blank(stdout) {
        trimmed(stdout)
    } else {
        "Unknown error (no output from scanner)."@
    }
}

/// Picks what is said of a scanner that failed.
pub fn failure_details(stdout: &str, stderr: &str) -> (res: String)
    ensures
        res@ == failure_text(stdout@, stderr@),
{
    if !is_blank(stderr) {
        trimmed_string(stderr)
    } else if !is_blank(stdout) {
        trimmed_string(stdout)
    } else {
        String::from_str("Unknown error (no output from scanner).")
    }
}

/// The result of a scan whose scanner ended with a failure.
pub open spec fn failed_view(stdout: Seq<char>, stderr: Seq<char>, timestamp: Seq<char>)
    -> ScanResultView {
    ScanResultView {
        status: ScanStatus::Error,
        message: "Network scan failed: "@ + failure_text(stdout, stderr),
        output_file: None,
        scan_data: None,
        timestamp,
    }
}

/// Builds the result of a scan whose scanner ended with a failure.
pub fn scan_failed(stdout: &str, stderr: &str, timestamp: String) -> (res: ScanResult)
    ensures
        res@ == failed_view(stdout@, stderr@, timestamp@),
        res@.well_formed(),
{
    let details = failure_details(stdout, stderr);
    ScanResult {
        status: ScanStatus::Error,
        message: String::from_str("Network scan failed: ").concat(details.as_str()),
        output_file: None,
        scan_data: None,
        timestamp,
    }
}

/// The number of devices in a scan document: the number of entries of the
/// object under `devices`, and zero where there is no document, no such
/// member, or a member that is no object.
pub open spec fn devices_in(doc: Option<JsonView>) -> nat {
    match doc {
        Some(v) => match member(v, "devices"@) {
            Some(d) => match entries_of(d) {
                Some(entries) => entries.len(),
                None => 0,
            },
            None => 0,
        },
        None => 0,
    }
}

/// Counts the devices in a scan document.
pub fn device_count(doc: &Option<serde_json::Value>) -> (res: usize)
    ensures
        res == devices_in(document_view(*doc)),
{
    match doc {
        Some(v) => match value_member(v, "devices") {
            Some(d) => match value_entries(d) {
                Some(entries) => object_len(entries),
                None => 0,
            },
            None => 0,
        },
        None => 0,
    }
}

/// The message of a scan that found `count` devices.
pub open spec fn success_text(count: nat) -> Seq<char> {
    "Network scan completed. Found "@ + decimal(count) + " devices."@
}

/// The result of a scan whose scanner ended well: the document with the
/// output file it was read from, or neither where no document could be read;
/// either way a success, with the number of devices in its message.
pub open spec fn succeeded_view(
    output_file: Seq<char>,
    scan_data: Option<JsonView>,
    timestamp: Seq<char>,
) -> ScanResultView {
    ScanResultView {
        status: ScanStatus::Success,
        message: success_text(devices_in(scan_data)),
        output_file: if scan_data.is_some() {
            Some(output_file)
        } else {
            None
        },
        scan_data,
        timestamp,
    }
}

/// Builds the result of a scan whose scanner ended well.
pub fn scan_succeeded(
    output_file: String,
    scan_data: Option<serde_json::Value>,
    timestamp: String,
) -> (res: ScanResult)
    ensures
        res@ == succeeded_view(output_file@, document_view(scan_data), timestamp@),
        res.scan_data == scan_data,
        res@.well_formed(),
{
    let count = device_count(&scan_data);
    let message = String::from_str("Network scan completed. Found ").concat(
        decimal_string(count as u64).as_str(),
    ).concat(" devices.");
    let output_file = if scan_data.is_some() {
        Some(output_file)
    } else {
        None
    };
    ScanResult { status: ScanStatus::Success, message, output_file, scan_data, timestamp }
}

/// The document in the output file: what the text parses to, and none where
/// there was no file or the text is no JSON.
pub open spec fn read_document(document_text: Option<Seq<char>>) -> Option<JsonView> {
    match document_text {
        Some(text) => json_document(text),
        None => None,
    }
}

/// The result of a scan once the scanner has ended and both streams are
/// drained.
pub open spec fn finished_view(
    exit_ok: bool,
    stdout_lines: Seq<Seq<char>>,
    stderr_lines: Seq<Seq<char>>,
    output_file: Seq<char>,
    document_text: Option<Seq<char>>,
    timestamp: Seq<char>,
) -> ScanResultView {
    if exit_ok {
        succeeded_view(output_file, read_document(document_text), timestamp)
    } else {
        failed_view(joined(stdout_lines), joined(stderr_lines), timestamp)
    }
}

/// Composes the result of a scan from how the scanner ended, what the two
/// readers kept, and the text of the output file, absent where the scanner
/// wrote none. A failure reports what the scanner wrote. A success reports
/// the number of devices and, where the text parses, the document with its
/// file; a text that does not parse is no failure.
pub fn finish_scan(
    exit_ok: bool,
    stdout: &StreamReader,
    stderr: &StreamReader,
    output_file: String,
    document_text: &Option<String>,
    timestamp: String,
) -> (res: ScanResult)
    ensures
        res@ == finished_view(
            exit_ok,
            texts(stdout.lines@),
            texts(stderr.lines@),
            output_file@,
            opt_text(*document_text),
            timestamp@,
        ),
        res@.well_formed(),
{
    if exit_ok {
        let scan_data = match document_text {
            Some(text) => parse_document(text.as_str()),
            None => None,
        };
        scan_succeeded(output_file, scan_data, timestamp)
    } else {
        let out = stdout.collected();
        let err = stderr.collected();
        scan_failed(out.as_str(), err.as_str(), timestamp)
    }
}

} // verus!
