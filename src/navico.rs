//! Decoder for Navico (Simrad, B&G, Lowrance) binary UDP reports.
//!
//! A report carries no self-describing framing: its kind is inferred from its
//! length, its first byte and the direction it travelled, and its fields sit at
//! fixed offsets. Every read is bounds-checked; a byte past the end reads as 0.
use vstd::prelude::*;
use crate::text::{decimal, hex_list, hex_list_string, push_decimal};

verus! {

/// Buffers longer than this are spoke data.
pub const SPOKE_MIN_EXCLUSIVE: usize = 100;

/// Outgoing buffers shorter than this are control commands.
pub const COMMAND_MAX_EXCLUSIVE: usize = 20;

/// How many bytes of a spoke the hex preview shows.
pub const SPOKE_PREVIEW: usize = 16;

/// How many bytes of a report the hex preview shows.
pub const REPORT_PREVIEW: usize = 32;

/// First byte of a status report.
pub const STATUS_REPORT: u8 = 0x01;

/// First byte of a settings report.
pub const SETTINGS_REPORT: u8 = 0x02;

/// First byte of a firmware report.
pub const FIRMWARE_REPORT: u8 = 0x03;

/// First byte of a diagnostic report.
pub const DIAGNOSTIC_REPORT: u8 = 0x04;

/// First byte of a range report.
pub const RANGE_REPORT: u8 = 0x08;

/// Status report: power state (0 off, 1 standby, 2 warmup, 3 transmit).
pub const STATUS_OFFSET: usize = 2;

/// Settings report: gain value.
pub const GAIN_OFFSET: usize = 12;

/// Settings report: gain mode (1 is automatic).
pub const GAIN_AUTO_OFFSET: usize = 11;

/// Settings report: sea clutter value.
pub const SEA_OFFSET: usize = 17;

/// Settings report: sea clutter mode (manual, auto, calm, moderate, rough).
pub const SEA_AUTO_OFFSET: usize = 21;

/// Settings report: rain clutter value.
pub const RAIN_OFFSET: usize = 22;

/// Settings report: interference rejection.
pub const INTERFERENCE_OFFSET: usize = 5;

/// Range report: offset of the little-endian 32-bit range in decimeters.
pub const RANGE_OFFSET: usize = 4;

/// Which side originated a buffer.
#[derive(Clone, Copy, Debug, PartialEq, Eq, Structural)]
pub enum IoDirection {
    Send,
    Recv,
}

/// The kinds a buffer is classified into.
#[derive(Clone, Copy, Debug, PartialEq, Eq, Structural)]
pub enum MessageKind {
    Spoke,
    Status,
    Settings,
    Firmware,
    Diagnostic,
    Range,
    Command,
    Unknown,
}

/// The value of one decoded field.
#[derive(Debug, PartialEq, Eq)]
pub enum FieldValue {
    Unsigned(u64),
    Flag(bool),
    Text(String),
}

/// What a field value stands for.
pub enum FieldModel {
    Unsigned(nat),
    Flag(bool),
    Text(Seq<char>),
}

impl View for FieldValue {
    type V = FieldModel;

    open spec fn view(&self) -> FieldModel {
        match self {
            FieldValue::Unsigned(n) => FieldModel::Unsigned(*n as nat),
            FieldValue::Flag(b) => FieldModel::Flag(*b),
            FieldValue::Text(s) => FieldModel::Text(s@),
        }
    }
}

/// One named field of a decoded report.
#[derive(Debug, PartialEq, Eq)]
pub struct Field {
    pub key: String,
    pub value: FieldValue,
}

impl View for Field {
    type V = (Seq<char>, FieldModel);

    open spec fn view(&self) -> (Seq<char>, FieldModel) {
        (self.key@, self.value@)
    }
}

/// The outcome of decoding one buffer.
#[derive(Debug, PartialEq, Eq)]
pub enum DecodedMessage {
    /// The buffer was classified; `report_id` is its first byte.
    Classified {
        message_type: String,
        report_id: Option<u8>,
        fields: Vec<Field>,
        description: Option<String>,
    },
    /// Nothing could be said of the buffer.
    Unknown { reason: String, partial: Option<Vec<u8>> },
}

/// What a decoded message stands for.
pub enum MessageModel {
    Classified {
        message_type: Seq<char>,
        report_id: Option<u8>,
        fields: Seq<(Seq<char>, FieldModel)>,
        description: Option<Seq<char>>,
    },
    Unknown { reason: Seq<char>, partial: Option<Seq<u8>> },
}

pub open spec fn fields_view(fields: Seq<Field>) -> Seq<(Seq<char>, FieldModel)> {
    fields.map_values(|f: Field| f@)
}

impl View for DecodedMessage {
    type V = MessageModel;

    open spec fn view(&self) -> MessageModel {
        match self {
            DecodedMessage::Classified { message_type, report_id, fields, description } => {
                MessageModel::Classified {
                    message_type: message_type@,
                    report_id: *report_id,
                    fields: fields_view(fields@),
                    description: match description {
                        Some(d) => Some(d@),
                        None => None,
                    },
                }
            },
            DecodedMessage::Unknown { reason, partial } => MessageModel::Unknown {
                reason: reason@,
                partial: match partial {
                    Some(p) => Some(p@),
                    None => None,
                },
            },
        }
    }
}

/// The byte at `i`, or 0 past the end.
pub open spec fn byte_at(d: Seq<u8>, i: int) -> nat {
    if 0 <= i < d.len() {
        d[i] as nat
    } else {
        0
    }
}

/// The classification rules, first match wins.
pub open spec fn kind_of(d: Seq<u8>, direction: IoDirection) -> MessageKind {
    if d.len() > SPOKE_MIN_EXCLUSIVE {
        MessageKind::Spoke
    } else if d.len() > 0 && d[0] == STATUS_REPORT {
        MessageKind::Status
    } else if d.len() > 0 && d[0] == SETTINGS_REPORT {
        MessageKind::Settings
    } else if d.len() > 0 && d[0] == FIRMWARE_REPORT {
        MessageKind::Firmware
    } else if d.len() > 0 && d[0] == DIAGNOSTIC_REPORT {
        MessageKind::Diagnostic
    } else if d.len() > 0 && d[0] == RANGE_REPORT {
        MessageKind::Range
    } else if direction == IoDirection::Send && d.len() < COMMAND_MAX_EXCLUSIVE {
        MessageKind::Command
    } else {
        MessageKind::Unknown
    }
}

/// The name under which a kind is reported.
pub open spec fn kind_name(k: MessageKind) -> Seq<char> {
    match k {
        MessageKind::Spoke => "spoke"@,
        MessageKind::Status => "status"@,
        MessageKind::Settings => "settings"@,
        MessageKind::Firmware => "firmware"@,
        MessageKind::Diagnostic => "diagnostic"@,
        MessageKind::Range => "range"@,
        MessageKind::Command => "command"@,
        MessageKind::Unknown => "unknown"@,
    }
}

/// The first `n` bytes, or all of them when there are fewer.
pub open spec fn preview(d: Seq<u8>, n: nat) -> Seq<u8> {
    if d.len() <= n {
        d
    } else {
        d.subrange(0, n as int)
    }
}

/// A spoke's angle: its first two bytes little-endian, 0 below four bytes.
pub open spec fn spoke_angle(d: Seq<u8>) -> nat {
    if d.len() >= 4 {
        d[0] as nat + 256 * (d[1] as nat)
    } else {
        0
    }
}

/// A range report's raw range: four bytes little-endian, 0 below eight bytes.
pub open spec fn range_raw(d: Seq<u8>) -> nat {
    if d.len() >= 8 {
        d[4] as nat + 256 * (d[5] as nat) + 65536 * (d[6] as nat) + 16777216 * (d[7] as nat)
    } else {
        0
    }
}

pub open spec fn power_name(p: nat) -> Seq<char> {
    if p == 0 {
        "off"@
    } else if p == 1 {
        "standby"@
    } else if p == 2 {
        "warmup"@
    } else if p == 3 {
        "transmit"@
    } else {
        "unknown"@
    }
}

pub open spec fn gain_mode_name(g: nat) -> Seq<char> {
    if g == 1 {
        "Auto"@
    } else {
        "Manual"@
    }
}

pub open spec fn sea_mode_name(s: nat) -> Seq<char> {
    if s == 0 {
        "Manual"@
    } else if s == 1 {
        "Auto"@
    } else if s == 2 {
        "Calm"@
    } else if s == 3 {
        "Moderate"@
    } else if s == 4 {
        "Rough"@
    } else {
        "Unknown"@
    }
}

pub open spec fn unsigned(key: Seq<char>, n: nat) -> (Seq<char>, FieldModel) {
    (key, FieldModel::Unsigned(n))
}

pub open spec fn report_tail(d: Seq<u8>) -> Seq<(Seq<char>, FieldModel)> {
    seq![
        unsigned("length"@, d.len()),
        ("firstBytes"@, FieldModel::Text(hex_list(preview(d, REPORT_PREVIEW as nat)))),
    ]
}

/// The fields extracted from a buffer of the given kind, in order.
pub open spec fn fields_of(d: Seq<u8>, k: MessageKind) -> Seq<(Seq<char>, FieldModel)> {
    match k {
        MessageKind::Spoke => seq![
            unsigned("angle"@, spoke_angle(d)),
            unsigned("length"@, d.len()),
            ("firstBytes"@, FieldModel::Text(hex_list(preview(d, SPOKE_PREVIEW as nat)))),
        ],
        MessageKind::Status => seq![
            unsigned("power"@, byte_at(d, STATUS_OFFSET as int)),
            ("powerStr"@, FieldModel::Text(power_name(byte_at(d, STATUS_OFFSET as int)))),
        ] + report_tail(d),
        MessageKind::Settings => seq![
            unsigned("gain"@, byte_at(d, GAIN_OFFSET as int)),
            ("gainAuto"@, FieldModel::Flag(byte_at(d, GAIN_AUTO_OFFSET as int) == 1)),
            unsigned("sea"@, byte_at(d, SEA_OFFSET as int)),
            unsigned("seaAuto"@, byte_at(d, SEA_AUTO_OFFSET as int)),
            unsigned("rain"@, byte_at(d, RAIN_OFFSET as int)),
            unsigned("interference"@, byte_at(d, INTERFERENCE_OFFSET as int)),
        ] + report_tail(d),
        MessageKind::Range => seq![unsigned("rangeRaw"@, range_raw(d))] + report_tail(d),
        MessageKind::Command => seq![
            unsigned("length"@, d.len()),
            ("bytes"@, FieldModel::Text(hex_list(d))),
        ],
        _ => report_tail(d),
    }
}

/// The human-readable description of a buffer of the given kind.
pub open spec fn description_of(d: Seq<u8>, k: MessageKind) -> Option<Seq<char>> {
    match k {
        MessageKind::Spoke => Some("Spoke data (angle: "@ + decimal(spoke_angle(d)) + ")"@),
        MessageKind::Status => Some("Status: "@ + power_name(byte_at(d, STATUS_OFFSET as int))),
        MessageKind::Settings => Some(
            "Gain: "@ + decimal(byte_at(d, GAIN_OFFSET as int)) + " ("@ + gain_mode_name(
                byte_at(d, GAIN_AUTO_OFFSET as int),
            ) + "), Sea: "@ + decimal(byte_at(d, SEA_OFFSET as int)) + " ("@ + sea_mode_name(
                byte_at(d, SEA_AUTO_OFFSET as int),
            ) + "), Rain: "@ + decimal(byte_at(d, RAIN_OFFSET as int)),
        ),
        MessageKind::Range => Some("Range: "@ + decimal(range_raw(d)) + " dm"@),
        MessageKind::Command => Some("Control command"@),
        _ => None,
    }
}

/// What decoding a buffer yields.
pub open spec fn decoded(d: Seq<u8>, direction: IoDirection) -> MessageModel {
    if d.len() == 0 {
        MessageModel::Unknown { reason: "Empty data"@, partial: None }
    } else {
        MessageModel::Classified {
            message_type: kind_name(kind_of(d, direction)),
            report_id: Some(d[0]),
            fields: fields_of(d, kind_of(d, direction)),
            description: description_of(d, kind_of(d, direction)),
        }
    }
}

/// The byte at `i`, or 0 past the end.
fn read_byte(data: &[u8], i: usize) -> (r: u8)
    ensures
        r as nat == byte_at(data@, i as int),
{
    if i < data.len() {
        data[i]
    } else {
        0
    }
}

/// Classifies a buffer by its length, first byte and direction.
pub fn classify(data: &[u8], direction: IoDirection) -> (r: MessageKind)
    ensures
        r == kind_of(data@, direction),
{
    if data.len() > SPOKE_MIN_EXCLUSIVE {
        return MessageKind::Spoke;
    }
    if data.len() > 0 {
        let first = data[0];
        if first == STATUS_REPORT {
            return MessageKind::Status;
        } else if first == SETTINGS_REPORT {
            return MessageKind::Settings;
        } else if first == FIRMWARE_REPORT {
            return MessageKind::Firmware;
        } else if first == DIAGNOSTIC_REPORT {
            return MessageKind::Diagnostic;
        } else if first == RANGE_REPORT {
            return MessageKind::Range;
        }
    }
    if direction == IoDirection::Send && data.len() < COMMAND_MAX_EXCLUSIVE {
        MessageKind::Command
    } else {
        MessageKind::Unknown
    }
}

/// The name under which a kind is reported.
pub fn kind_label(k: MessageKind) -> (r: String)
    ensures
        r@ == kind_name(k),
{
    match k {
        MessageKind::Spoke => String::from_str("spoke"),
        MessageKind::Status => String::from_str("status"),
        MessageKind::Settings => String::from_str("settings"),
        MessageKind::Firmware => String::from_str("firmware"),
        MessageKind::Diagnostic => String::from_str("diagnostic"),
        MessageKind::Range => String::from_str("range"),
        MessageKind::Command => String::from_str("command"),
        MessageKind::Unknown => String::from_str("unknown"),
    }
}

/// The name of the kind that a buffer is classified into.
pub fn identify_navico_message(data: &[u8], direction: IoDirection) -> (r: String)
    ensures
        r@ == kind_name(kind_of(data@, direction)),
{
    kind_label(classify(data, direction))
}

fn power_label(p: u8) -> (r: &'static str)
    ensures
        r@ == power_name(p as nat),
{
    if p == 0 {
        "off"
    } else if p == 1 {
        "standby"
    } else if p == 2 {
        "warmup"
    } else if p == 3 {
        "transmit"
    } else {
        "unknown"
    }
}

fn gain_mode_label(g: u8) -> (r: &'static str)
    ensures
        r@ == gain_mode_name(g as nat),
{
    if g == 1 {
        "Auto"
    } else {
        "Manual"
    }
}

fn sea_mode_label(s: u8) -> (r: &'static str)
    ensures
        r@ == sea_mode_name(s as nat),
{
    if s == 0 {
        "Manual"
    } else if s == 1 {
        "Auto"
    } else if s == 2 {
        "Calm"
    } else if s == 3 {
        "Moderate"
    } else if s == 4 {
        "Rough"
    } else {
        "Unknown"
    }
}

fn unsigned_field(key: &str, n: u64) -> (r: Field)
    ensures
        r@ == unsigned(key@, n as nat),
{
    Field { key: String::from_str(key), value: FieldValue::Unsigned(n) }
}

fn text_field(key: &str, t: String) -> (r: Field)
    ensures
        r@ == (key@, FieldModel::Text(t@)),
{
    Field { key: String::from_str(key), value: FieldValue::Text(t) }
}

/// Hex preview of at most `n` leading bytes.
fn preview_text(data: &[u8], n: usize) -> (r: String)
    ensures
        r@ == hex_list(preview(data@, n as nat)),
{
    if data.len() <= n {
        proof {
            assert(data@.subrange(0, data@.len() as int) =~= data@);
        }
        hex_list_string(data, data.len())
    } else {
        hex_list_string(data, n)
    }
}

fn length_field(data: &[u8]) -> (r: Field)
    ensures
        r@ == unsigned("length"@, data@.len()),
{
    unsigned_field("length", data.len() as u64)
}

/// Extracts the description and the fields of a buffer of the given kind.
pub fn decode_navico_fields(data: &[u8], kind: MessageKind) -> (r: (Option<String>, Vec<Field>))
    ensures
        match r.0 {
            Some(s) => description_of(data@, kind) == Some(s@),
            None => description_of(data@, kind) is None,
        },
        fields_view(r.1@) == fields_of(data@, kind),
{
    match kind {
        MessageKind::Spoke => {
            let angle: u64 = if data.len() >= 4 {
                data[0] as u64 + 256 * (data[1] as u64)
            } else {
                0
            };
            let mut desc = String::from_str("Spoke data (angle: ");
            push_decimal(&mut desc, angle);
            desc.append(")");
            let fields = vec![
                unsigned_field("angle", angle),
                length_field(data),
                text_field("firstBytes", preview_text(data, SPOKE_PREVIEW)),
            ];
            assert(fields_view(fields@) =~= fields_of(data@, kind));
            (Some(desc), fields)
        },
        MessageKind::Status => {
            let power = read_byte(data, STATUS_OFFSET);
            let power_str = power_label(power);
            let mut desc = String::from_str("Status: ");
            desc.append(power_str);
            let fields = vec![
                unsigned_field("power", power as u64),
                text_field("powerStr", String::from_str(power_str)),
                length_field(data),
                text_field("firstBytes", preview_text(data, REPORT_PREVIEW)),
            ];
            assert(fields_view(fields@) =~= fields_of(data@, kind));
            (Some(desc), fields)
        },
        MessageKind::Settings => {
            let gain_auto = read_byte(data, GAIN_AUTO_OFFSET);
            let gain = read_byte(data, GAIN_OFFSET);
            let sea_auto = read_byte(data, SEA_AUTO_OFFSET);
            let sea = read_byte(data, SEA_OFFSET);
            let rain = read_byte(data, RAIN_OFFSET);
            let interference = read_byte(data, INTERFERENCE_OFFSET);
            let mut desc = String::from_str("Gain: ");
            push_decimal(&mut desc, gain as u64);
            desc.append(" (");
            desc.append(gain_mode_label(gain_auto));
            desc.append("), Sea: ");
            push_decimal(&mut desc, sea as u64);
            desc.append(" (");
            desc.append(sea_mode_label(sea_auto));
            desc.append("), Rain: ");
            push_decimal(&mut desc, rain as u64);
            let fields = vec![
                unsigned_field("gain", gain as u64),
                Field { key: String::from_str("gainAuto"), value: FieldValue::Flag(gain_auto == 1) },
                unsigned_field("sea", sea as u64),
                unsigned_field("seaAuto", sea_auto as u64),
                unsigned_field("rain", rain as u64),
                unsigned_field("interference", interference as u64),
                length_field(data),
                text_field("firstBytes", preview_text(data, REPORT_PREVIEW)),
            ];
            assert(fields_view(fields@) =~= fields_of(data@, kind));
            (Some(desc), fields)
        },
        MessageKind::Range => {
            let raw: u64 = if data.len() >= 8 {
                data[RANGE_OFFSET] as u64 + 256 * (data[RANGE_OFFSET + 1] as u64) + 65536 * (
                data[RANGE_OFFSET + 2] as u64) + 16777216 * (data[RANGE_OFFSET + 3] as u64)
            } else {
                0
            };
            let mut desc = String::from_str("Range: ");
            push_decimal(&mut desc, raw);
            desc.append(" dm");
            let fields = vec![
                unsigned_field("rangeRaw", raw),
                length_field(data),
                text_field("firstBytes", preview_text(data, REPORT_PREVIEW)),
            ];
            assert(fields_view(fields@) =~= fields_of(data@, kind));
            (Some(desc), fields)
        },
        MessageKind::Command => {
            let fields = vec![
                length_field(data),
                text_field("bytes", hex_list_string(data, data.len())),
            ];
            assert(data@.subrange(0, data@.len() as int) =~= data@);
            assert(fields_view(fields@) =~= fields_of(data@, kind));
            (Some(String::from_str("Control command")), fields)
        },
        _ => {
            let fields = vec![
                length_field(data),
                text_field("firstBytes", preview_text(data, REPORT_PREVIEW)),
            ];
            assert(fields_view(fields@) =~= fields_of(data@, kind));
            (None, fields)
        },
    }
}

/// Decoder for the Navico family of radars.
pub struct NavicoDecoder;

impl NavicoDecoder {
    /// Classifies a buffer and extracts its fields; an empty buffer is unknown.
    pub fn decode(&self, data: &[u8], direction: IoDirection) -> (r: DecodedMessage)
        ensures
            r@ == decoded(data@, direction),
    {
        if data.len() == 0 {
            return DecodedMessage::Unknown { reason: String::from_str("Empty data"), partial: None };
        }
        let kind = classify(data, direction);
        let (description, fields) = decode_navico_fields(data, kind);
        DecodedMessage::Classified {
            message_type: kind_label(kind),
            report_id: Some(data[0]),
            fields,
            description,
        }
    }

    /// The brand this decoder handles.
    pub fn brand(&self) -> (r: &'static str)
        ensures
            r@ == "navico"@,
    {
        "navico"
    }
}

/// A decoder for one vendor's protocol, known by its brand.
pub trait ProtocolDecoder {
    fn decode(&self, data: &[u8], direction: IoDirection) -> DecodedMessage;

    fn brand(&self) -> &'static str;
}

impl ProtocolDecoder for NavicoDecoder {
    fn decode(&self, data: &[u8], direction: IoDirection) -> DecodedMessage {
        NavicoDecoder::decode(self, data, direction)
    }

    fn brand(&self) -> &'static str {
        NavicoDecoder::brand(self)
    }
}

/// An empty buffer decodes to an unknown message.
pub proof fn empty_is_unknown(direction: IoDirection)
    ensures
        decoded(Seq::empty(), direction) is Unknown,
{
}

/// Decoding depends on the buffer and the direction alone: two decodings of
/// the same buffer give the same message.
pub proof fn decoding_is_pure(
    data: Seq<u8>,
    direction: IoDirection,
    first: DecodedMessage,
    second: DecodedMessage,
)
    requires
        first@ == decoded(data, direction),
        second@ == decoded(data, direction),
    ensures
        first@ == second@,
{
}

/// A short buffer whose first byte is the status report's and whose third
/// byte is 3 is a status report with the power state `transmit`.
pub proof fn status_transmit(data: Seq<u8>, direction: IoDirection)
    requires
        3 <= data.len() <= SPOKE_MIN_EXCLUSIVE,
        data[0] == STATUS_REPORT,
        data[STATUS_OFFSET as int] == 3,
    ensures
        decoded(data, direction) matches MessageModel::Classified { message_type, fields, .. } && {
            &&& message_type == "status"@
            &&& fields[0] == unsigned("power"@, 3)
            &&& fields[1] == ("powerStr"@, FieldModel::Text("transmit"@))
        },
{
}

/// A settings report of 32 bytes reports the bytes at the settings offsets
/// as its gain, gain mode, sea, sea mode, rain and interference fields.
pub proof fn settings_read_offsets(data: Seq<u8>, direction: IoDirection)
    requires
        data.len() == REPORT_PREVIEW,
        data[0] == SETTINGS_REPORT,
    ensures
        decoded(data, direction) matches MessageModel::Classified { message_type, fields, .. } && {
            &&& message_type == "settings"@
            &&& fields[0] == unsigned("gain"@, data[GAIN_OFFSET as int] as nat)
            &&& fields[1] == ("gainAuto"@, FieldModel::Flag(data[GAIN_AUTO_OFFSET as int] == 1))
            &&& fields[2] == unsigned("sea"@, data[SEA_OFFSET as int] as nat)
            &&& fields[3] == unsigned("seaAuto"@, data[SEA_AUTO_OFFSET as int] as nat)
            &&& fields[4] == unsigned("rain"@, data[RAIN_OFFSET as int] as nat)
            &&& fields[5] == unsigned("interference"@, data[INTERFERENCE_OFFSET as int] as nat)
        },
{
}

} // verus!
