use crate::events::{event_views, LogEvent, LogEventView, LogLevel};
use crate::json::{
    array_value, json_view, json_views, member, no_entries, object_insert, object_new,
    object_value, pretty_json, pretty_text, text_value, unsigned_value, JsonView,
};
use crate::text::opt_text;
use crate::scan::{
    devices_in, scan_succeeded, succeeded_view, success_text, ScanResult, ScanStatus,
};
use vstd::prelude::*;
use vstd::string::*;

verus! {

/// The pause between two events of the played scan, in milliseconds.
pub const MOCK_EVENT_DELAY_MS: u64 = 200;

/// The address of the one device of the played scan.
pub open spec fn mock_device_ip() -> Seq<char> {
    "10.0.0.42"@
}

/// The hardware address of the one device of the played scan.
pub open spec fn mock_device_mac() -> Seq<char> {
    "AA:BB:CC:DD:EE:FF"@
}

/// The events of the played scan: the device is found, its scan starts, its
/// scan is complete.
pub open spec fn mock_event_views() -> Seq<LogEventView> {
    seq![
        LogEventView {
            level: LogLevel::Info,
            message: "Found: "@ + mock_device_ip() + " ("@ + mock_device_mac() + ")"@,
        },
        LogEventView { level: LogLevel::Info, message: "Scanning "@ + mock_device_ip() },
        LogEventView { level: LogLevel::Info, message: "Completed "@ + mock_device_ip() },
    ]
}

/// Builds the events of the played scan, in the order in which they are sent.
pub fn mock_events() -> (res: Vec<LogEvent>)
    ensures
        event_views(res@) == mock_event_views(),
{
    let mut events: Vec<LogEvent> = Vec::new();
    events.push(
        LogEvent {
            level: LogLevel::Info,
            message: String::from_str("Found: ").concat("10.0.0.42").concat(" (").concat(
                "AA:BB:CC:DD:EE:FF",
            ).concat(")"),
        },
    );
    events.push(
        LogEvent {
            level: LogLevel::Info,
            message: String::from_str("Scanning ").concat("10.0.0.42"),
        },
    );
    events.push(
        LogEvent {
            level: LogLevel::Info,
            message: String::from_str("Completed ").concat("10.0.0.42"),
        },
    );
    assert(event_views(events@) =~= mock_event_views());
    events
}

/// The one open port of the played device.
pub open spec fn mock_port() -> JsonView {
    JsonView::Object(
        no_entries().insert("port"@, JsonView::Unsigned(22)).insert(
            "protocol"@,
            JsonView::Text("tcp"@),
        ).insert("state"@, JsonView::Text("open"@)),
    )
}

/// The guess at the operating system of the played device.
pub open spec fn mock_os_detection() -> JsonView {
    JsonView::Object(
        no_entries().insert("name"@, JsonView::Text("Linux"@)).insert(
            "accuracy"@,
            JsonView::Text("95"@),
        ),
    )
}

/// The record of the played device.
pub open spec fn mock_device() -> JsonView {
    JsonView::Object(
        no_entries().insert("ip"@, JsonView::Text(mock_device_ip())).insert(
            "mac"@,
            JsonView::Text(mock_device_mac()),
        ).insert("device_type"@, JsonView::Text("router"@)).insert(
            "ports"@,
            JsonView::Array(seq![mock_port()]),
        ).insert("os_detection"@, mock_os_detection()),
    )
}

/// The devices of the played scan: the one device, under its address.
pub open spec fn mock_devices() -> Map<Seq<char>, JsonView> {
    no_entries().insert(mock_device_ip(), mock_device())
}

/// What the played scan says of the network.
pub open spec fn mock_metadata() -> JsonView {
    JsonView::Object(
        no_entries().insert(
            "network_info"@,
            JsonView::Object(
                no_entries().insert("network_cidr"@, JsonView::Text("10.0.0.0/24"@)).insert(
                    "gateway"@,
                    JsonView::Text("10.0.0.1"@),
                ),
            ),
        ),
    )
}

/// The document of the played scan.
pub open spec fn mock_document_view() -> JsonView {
    JsonView::Object(
        no_entries().insert("metadata"@, mock_metadata()).insert(
            "devices"@,
            JsonView::Object(mock_devices()),
        ),
    )
}

fn insert_text(m: &mut serde_json::Map<String, serde_json::Value>, key: &str, value: &str)
    ensures
        crate::json::object_view(*final(m)) == crate::json::object_view(*old(m)).insert(
            key@,
            JsonView::Text(value@),
        ),
{
    object_insert(m, String::from_str(key), text_value(String::from_str(value)));
}

fn mock_port_value() -> (res: serde_json::Value)
    ensures
        json_view(res) == mock_port(),
{
    let mut port = object_new();
    object_insert(&mut port, String::from_str("port"), unsigned_value(22));
    insert_text(&mut port, "protocol", "tcp");
    insert_text(&mut port, "state", "open");
    object_value(port)
}

fn mock_device_value() -> (res: serde_json::Value)
    ensures
        json_view(res) == mock_device(),
{
    let mut os = object_new();
    insert_text(&mut os, "name", "Linux");
    insert_text(&mut os, "accuracy", "95");
    let mut ports: Vec<serde_json::Value> = Vec::new();
    ports.push(mock_port_value());
    assert(json_views(ports@) =~= seq![mock_port()]);
    let mut device = object_new();
    insert_text(&mut device, "ip", "10.0.0.42");
    insert_text(&mut device, "mac", "AA:BB:CC:DD:EE:FF");
    insert_text(&mut device, "device_type", "router");
    object_insert(&mut device, String::from_str("ports"), array_value(ports));
    object_insert(&mut device, String::from_str("os_detection"), object_value(os));
    object_value(device)
}

/// Builds the document of the played scan: the network, and one device.
pub fn mock_document() -> (res: serde_json::Value)
    ensures
        json_view(res) == mock_document_view(),
{
    let mut info = object_new();
    insert_text(&mut info, "network_cidr", "10.0.0.0/24");
    insert_text(&mut info, "gateway", "10.0.0.1");
    let mut metadata = object_new();
    object_insert(&mut metadata, String::from_str("network_info"), object_value(info));
    let mut devices = object_new();
    object_insert(&mut devices, String::from_str("10.0.0.42"), mock_device_value());
    let mut document = object_new();
    object_insert(&mut document, String::from_str("metadata"), object_value(metadata));
    object_insert(&mut document, String::from_str("devices"), object_value(devices));
    object_value(document)
}

/// The document of the played scan holds exactly one device, and holds it
/// under the fixed address.
pub proof fn lemma_mock_document_has_one_device()
    ensures
        member(mock_document_view(), "devices"@) == Some(JsonView::Object(mock_devices())),
        forall|key: Seq<char>| mock_devices().contains_key(key) <==> key == mock_device_ip(),
        mock_devices()[mock_device_ip()] == mock_device(),
        devices_in(Some(mock_document_view())) == 1,
{
    assert(mock_devices().dom() =~= set![mock_device_ip()]);
}

/// What the played scan hands back: the events to send, the text to write to
/// the output file, which is the document of the result written down, and
/// the result.
pub struct MockScan {
    pub events: Vec<LogEvent>,
    pub document_text: Option<String>,
    pub result: ScanResult,
}

/// Plays a scan, for whatever request: three events, and a success that
/// names the output file and carries the document with its one device.
pub fn mock_scan(output_file: String, timestamp: String) -> (res: MockScan)
    ensures
        event_views(res.events@) == mock_event_views(),
        res.result@ == succeeded_view(output_file@, Some(mock_document_view()), timestamp@),
        res.result@.status == ScanStatus::Success,
        res.result@.message == success_text(1),
        res.result@.well_formed(),
        res.result.scan_data.is_some(),
        opt_text(res.document_text) == pretty_json(res.result.scan_data.unwrap()),
{
    proof {
        lemma_mock_document_has_one_device();
    }
    let document = mock_document();
    let document_text = pretty_text(&document);
    let result = scan_succeeded(output_file, Some(document), timestamp);
    MockScan { events: mock_events(), document_text, result }
}

} // verus!
