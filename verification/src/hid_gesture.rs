//! Logitech HID++ 2.0 protocol logic: report framing and parsing, feature
//! responses, the choice of the gesture button to divert, and the state
//! machine that turns diverted-button reports into gesture events.
//!
//! The device I/O itself (opening interfaces, reading and writing reports,
//! the reconnect loop) runs outside the library; it hands raw reports in and
//! writes the frames built here.

use vstd::prelude::*;
use crate::text::{
    ascii_lower, ascii_lower_chars, chars_eq, chars_of, extend_str, hex4, join_chars, join_with, push_hex4,
    string_of,
};

verus! {

// ── Protocol constants ──────────────────────────────────────────────────────

pub const LOGITECH_VID: u16 = 0x046D;
pub const SHORT_REPORT_ID: u8 = 0x10;
pub const LONG_REPORT_ID: u8 = 0x11;
pub const SHORT_LEN: usize = 7;
pub const LONG_LEN: usize = 20;
/// Device index for direct Bluetooth / BLE connections.
pub const BT_DEV_IDX: u8 = 0xFF;
/// Software id carried in the low nibble of byte 3 of every request.
pub const MY_SW: u8 = 0x0A;

pub const FEAT_IROOT: u16 = 0x0000;
pub const FEAT_REPROG_V4: u16 = 0x1B04;
pub const FEAT_ADJ_DPI: u16 = 0x2201;
pub const FEAT_SMART_SHIFT: u16 = 0x2110;
pub const FEAT_UNIFIED_BATT: u16 = 0x1004;
pub const FEAT_BATTERY_STATUS: u16 = 0x1000;

pub const SMART_SHIFT_FREESPIN: u8 = 0x01;
pub const SMART_SHIFT_RATCHET: u8 = 0x02;

/// Vendor usage page under which every HID++ collection sits.
pub const HIDPP_USAGE_PAGE: u16 = 0xFF00;

/// The Smart Shift control, which doubles as the mode-shift button.
pub const MODE_SHIFT_CID: u16 = 0x00C4;
pub const GESTURE_CID_PRIMARY: u16 = 0x00C3;
pub const GESTURE_CID_VIRTUAL: u16 = 0x00D7;

/// Reporting flags: diverted | persist | raw XY | force raw XY.
pub const DIVERT_RAWXY_FLAGS: u8 = 0x33;
/// Reporting flags: diverted | persist.
pub const DIVERT_FLAGS: u8 = 0x03;

/// Most controls read from one REPROG_V4 listing.
pub const MAX_CONTROLS: u8 = 32;

pub open spec fn spec_default_gesture_cids() -> Seq<u16> {
    seq![GESTURE_CID_PRIMARY, GESTURE_CID_VIRTUAL]
}

/// Gesture CIDs tried in priority order when nothing better is known.
pub fn default_gesture_cids() -> (r: Vec<u16>)
    ensures
        r@ == spec_default_gesture_cids(),
{
    vec![GESTURE_CID_PRIMARY, GESTURE_CID_VIRTUAL]
}

pub open spec fn spec_wireless_receiver_pids() -> Seq<u16> {
    seq![0xC52Bu16, 0xC53D, 0xC539, 0xC534, 0xC52D, 0xC545, 0xC547, 0xC548]
}

/// Product ids of Bolt / Unifying / Nano wireless receivers.
pub fn wireless_receiver_pids() -> (r: Vec<u16>)
    ensures
        r@ == spec_wireless_receiver_pids(),
{
    vec![0xC52Bu16, 0xC53D, 0xC539, 0xC534, 0xC52D, 0xC545, 0xC547, 0xC548]
}

pub open spec fn spec_device_index_candidates() -> Seq<u8> {
    seq![0xFFu8, 1, 2, 3, 4, 5, 6]
}

/// Device indices probed in order: direct Bluetooth first, then the six
/// receiver slots.
pub fn device_index_candidates() -> (r: Vec<u8>)
    ensures
        r@ == spec_device_index_candidates(),
{
    vec![0xFFu8, 1, 2, 3, 4, 5, 6]
}

// ── Error names ─────────────────────────────────────────────────────────────

pub open spec fn error_name(code: u8) -> Seq<char> {
    if code == 0x01 { "UNKNOWN"@ }
    else if code == 0x02 { "INVALID_ARGUMENT"@ }
    else if code == 0x03 { "OUT_OF_RANGE"@ }
    else if code == 0x04 { "HARDWARE_ERROR"@ }
    else if code == 0x05 { "LOGITECH_ERROR"@ }
    else if code == 0x06 { "INVALID_FEATURE_INDEX"@ }
    else if code == 0x07 { "INVALID_FUNCTION"@ }
    else if code == 0x08 { "BUSY"@ }
    else if code == 0x09 { "UNSUPPORTED"@ }
    else { "?"@ }
}

/// Name of a HID++ 2.0 error code, `"?"` for codes outside the table.
pub fn hidpp_error_name(code: u8) -> (r: &'static str)
    ensures
        r@ == error_name(code),
{
    match code {
        0x01 => "UNKNOWN",
        0x02 => "INVALID_ARGUMENT",
        0x03 => "OUT_OF_RANGE",
        0x04 => "HARDWARE_ERROR",
        0x05 => "LOGITECH_ERROR",
        0x06 => "INVALID_FEATURE_INDEX",
        0x07 => "INVALID_FUNCTION",
        0x08 => "BUSY",
        0x09 => "UNSUPPORTED",
        _ => "?",
    }
}

// ── Flag formatting ─────────────────────────────────────────────────────────

/// The names of the bits of `v` that are set, in table order.
pub open spec fn set_flag_names(bits: Seq<(u16, &'static str)>, v: u16) -> Seq<Seq<char>>
    decreases bits.len(),
{
    if bits.len() == 0 {
        Seq::empty()
    } else {
        let init = set_flag_names(bits.drop_last(), v);
        if v & bits.last().0 != 0 {
            init.push(bits.last().1@)
        } else {
            init
        }
    }
}

/// The set bit names joined by commas, or `"none"`.
pub open spec fn flags_text(bits: Seq<(u16, &'static str)>, v: u16) -> Seq<char> {
    let names = set_flag_names(bits, v);
    if names.len() == 0 {
        "none"@
    } else {
        join_with(names, ","@)
    }
}

pub open spec fn key_flag_table() -> Seq<(u16, &'static str)> {
    seq![
        (0x0001u16, "mse"),
        (0x0002u16, "fn"),
        (0x0004u16, "nonstandard"),
        (0x0008u16, "fn_sensitive"),
        (0x0010u16, "reprogrammable"),
        (0x0020u16, "divertable"),
        (0x0040u16, "persist_divertable"),
        (0x0080u16, "virtual"),
        (0x0100u16, "raw_xy"),
        (0x0200u16, "force_raw_xy"),
        (0x0400u16, "analytics"),
        (0x0800u16, "raw_wheel"),
    ]
}

pub open spec fn mapping_flag_table() -> Seq<(u16, &'static str)> {
    seq![
        (0x0001u16, "diverted"),
        (0x0004u16, "persist_diverted"),
        (0x0010u16, "raw_xy_diverted"),
        (0x0040u16, "force_raw_xy_diverted"),
        (0x0100u16, "analytics_reporting"),
        (0x0400u16, "raw_wheel"),
    ]
}

fn key_flag_bits() -> (r: Vec<(u16, &'static str)>)
    ensures
        r@ == key_flag_table(),
{
    vec![
        (0x0001u16, "mse"),
        (0x0002u16, "fn"),
        (0x0004u16, "nonstandard"),
        (0x0008u16, "fn_sensitive"),
        (0x0010u16, "reprogrammable"),
        (0x0020u16, "divertable"),
        (0x0040u16, "persist_divertable"),
        (0x0080u16, "virtual"),
        (0x0100u16, "raw_xy"),
        (0x0200u16, "force_raw_xy"),
        (0x0400u16, "analytics"),
        (0x0800u16, "raw_wheel"),
    ]
}

fn mapping_flag_bits() -> (r: Vec<(u16, &'static str)>)
    ensures
        r@ == mapping_flag_table(),
{
    vec![
        (0x0001u16, "diverted"),
        (0x0004u16, "persist_diverted"),
        (0x0010u16, "raw_xy_diverted"),
        (0x0040u16, "force_raw_xy_diverted"),
        (0x0100u16, "analytics_reporting"),
        (0x0400u16, "raw_wheel"),
    ]
}

fn flags_to_text(bits: &Vec<(u16, &'static str)>, v: u16) -> (r: String)
    ensures
        r@ == flags_text(bits@, v),
{
    let mut names: Vec<Vec<char>> = Vec::new();
    let mut i: usize = 0;
    while i < bits.len()
        invariant
            i <= bits.len(),
            names@.map_values(|p: Vec<char>| p@) == set_flag_names(bits@.take(i as int), v),
        decreases bits.len() - i,
    {
        assert(bits@.take(i + 1).drop_last() =~= bits@.take(i as int));
        let (b, name) = bits[i];
        if v & b != 0 {
            let c = chars_of(name);
            names.push(c);
            assert(names@.map_values(|p: Vec<char>| p@) =~= set_flag_names(bits@.take(i as int), v).push(name@));
        }
        i += 1;
    }
    assert(bits@.take(bits.len() as int) =~= bits@);
    if names.len() == 0 {
        let c = chars_of("none");
        string_of(&c)
    } else {
        let sep = chars_of(",");
        let joined = join_chars(&names, &sep);
        string_of(&joined)
    }
}

/// Names of the REPROG_V4 key flags set in `v`, comma separated.
pub fn format_key_flags(v: u16) -> (r: String)
    ensures
        r@ == flags_text(key_flag_table(), v),
{
    let bits = key_flag_bits();
    flags_to_text(&bits, v)
}

/// Names of the REPROG_V4 reporting flags set in `v`, comma separated.
pub fn format_mapping_flags(v: u16) -> (r: String)
    ensures
        r@ == flags_text(mapping_flag_table(), v),
{
    let bits = mapping_flag_bits();
    flags_to_text(&bits, v)
}

pub open spec fn cid_text(cid: u16) -> Seq<char> {
    let base = "0x"@ + hex4(cid);
    if cid == 0x00C3 {
        base + " (Mouse Gesture Button)"@
    } else if cid == 0x00C4 {
        base + " (Smart Shift)"@
    } else if cid == 0x00D7 {
        base + " (Virtual Gesture Button)"@
    } else {
        base
    }
}

/// `0xNNNN` with a name for the well-known controls.
pub fn format_cid(cid: u16) -> (r: String)
    ensures
        r@ == cid_text(cid),
{
    let mut out = chars_of("0x");
    push_hex4(&mut out, cid);
    if cid == 0x00C3 {
        extend_str(&mut out, " (Mouse Gesture Button)");
    } else if cid == 0x00C4 {
        extend_str(&mut out, " (Smart Shift)");
    } else if cid == 0x00D7 {
        extend_str(&mut out, " (Virtual Gesture Button)");
    }
    string_of(&out)
}

// ── Report parsing ──────────────────────────────────────────────────────────

/// Fields of one incoming HID++ report.
pub struct HidppMsg {
    pub dev_idx: u8,
    pub feat_idx: u8,
    pub func: u8,
    pub sw: u8,
    /// Bytes after the four-byte header.
    pub params: Vec<u8>,
}

/// The mathematical content of a report.
pub struct HidppMsgView {
    pub dev_idx: u8,
    pub feat_idx: u8,
    pub func: u8,
    pub sw: u8,
    pub params: Seq<u8>,
}

impl View for HidppMsg {
    type V = HidppMsgView;

    open spec fn view(&self) -> HidppMsgView {
        HidppMsgView {
            dev_idx: self.dev_idx,
            feat_idx: self.feat_idx,
            func: self.func,
            sw: self.sw,
            params: self.params@,
        }
    }
}

/// Where the header starts: byte 0 is a report id on platforms that keep it.
pub open spec fn header_offset(raw: Seq<u8>) -> int {
    if raw[0] == SHORT_REPORT_ID || raw[0] == LONG_REPORT_ID { 1 } else { 0 }
}

pub open spec fn spec_parse_report(raw: Seq<u8>) -> Option<HidppMsgView> {
    if raw.len() < 4 {
        None
    } else {
        let off = header_offset(raw);
        let fsw = raw[off + 2];
        Some(HidppMsgView {
            dev_idx: raw[off],
            feat_idx: raw[off + 1],
            func: fsw / 16,
            sw: fsw % 16,
            params: raw.subrange(off + 3, raw.len() as int),
        })
    }
}

/// Parses a raw read buffer.  The report-id byte is optional: some
/// back-ends strip it, so it is recognised by value.
pub fn parse_report(raw: &[u8]) -> (r: Option<HidppMsg>)
    ensures
        match r {
            Some(m) => spec_parse_report(raw@) == Some(m@),
            None => spec_parse_report(raw@) is None,
        },
{
    if raw.len() < 4 {
        return None;
    }
    let off: usize = if raw[0] == SHORT_REPORT_ID || raw[0] == LONG_REPORT_ID { 1 } else { 0 };
    let fsw = raw[off + 2];
    let mut params: Vec<u8> = Vec::new();
    let mut i = off + 3;
    while i < raw.len()
        invariant
            off + 3 <= i <= raw.len(),
            params@ == raw@.subrange(off + 3, i as int),
        decreases raw.len() - i,
    {
        params.push(raw[i]);
        assert(raw@.subrange(off + 3, i + 1) =~= raw@.subrange(off + 3, i as int).push(raw@[i as int]));
        i += 1;
    }
    let m = HidppMsg { dev_idx: raw[off], feat_idx: raw[off + 1], func: fsw / 16, sw: fsw % 16, params };
    proof {
        assert(m@ == spec_parse_report(raw@).unwrap());
    }
    Some(m)
}

/// The signed 16-bit value with high byte `hi` and low byte `lo`.
pub open spec fn s16_value(hi: u8, lo: u8) -> int {
    if hi < 128 {
        hi * 256 + lo
    } else {
        hi * 256 + lo - 65536
    }
}

/// Decodes a big-endian two's-complement 16-bit value.
pub fn decode_s16(hi: u8, lo: u8) -> (r: i16)
    ensures
        r as int == s16_value(hi, lo),
{
    let v: u32 = (hi as u32) * 256 + (lo as u32);
    if v >= 32768 {
        (v as i32 - 65536) as i16
    } else {
        v as i16
    }
}

/// The unsigned 16-bit value with high byte `hi` and low byte `lo`.
pub open spec fn u16_value(hi: u8, lo: u8) -> u16 {
    (hi * 256 + lo) as u16
}

fn make_u16(hi: u8, lo: u8) -> (r: u16)
    ensures
        r == u16_value(hi, lo),
{
    (hi as u16) * 256 + (lo as u16)
}

// ── Request frames ──────────────────────────────────────────────────────────

/// Byte 3 of a request: function in the high nibble, software id in the low.
pub open spec fn func_sw_byte(func: u8) -> u8 {
    ((func % 16) * 16 + MY_SW) as u8
}

/// Byte `k` of a request frame of `len` bytes.
pub open spec fn request_byte(report_id: u8, dev_idx: u8, feat: u8, func: u8, params: Seq<u8>, k: int) -> u8 {
    if k == 0 {
        report_id
    } else if k == 1 {
        dev_idx
    } else if k == 2 {
        feat
    } else if k == 3 {
        func_sw_byte(func)
    } else if k - 4 < params.len() {
        params[k - 4]
    } else {
        0
    }
}

/// A request frame reads back as what it was built from: the device
/// index, the feature, the function's low four bits, this program's
/// software id, and the parameters as the frame holds them (cut to the
/// frame, zero-padded).
pub proof fn lemma_request_parses_back(frame: Seq<u8>, long: bool, dev_idx: u8, feat: u8, func: u8, params: Seq<u8>)
    requires
        frame.len() == (if long { LONG_LEN } else { SHORT_LEN }),
        forall|k: int| 0 <= k < frame.len() ==> #[trigger] frame[k] == request_byte(
            if long { LONG_REPORT_ID } else { SHORT_REPORT_ID }, dev_idx, feat, func, params, k),
    ensures
        spec_parse_report(frame) matches Some(m) && m.dev_idx == dev_idx && m.feat_idx == feat
            && m.func == func % 16 && m.sw == MY_SW && m.params.len() == frame.len() - 4
            && forall|i: int| 0 <= i < m.params.len() ==> #[trigger] m.params[i] == (if i < params.len() { params[i] } else { 0u8 }),
{
    assert(frame[0] == if long { LONG_REPORT_ID } else { SHORT_REPORT_ID });
    assert(frame[1] == dev_idx && frame[2] == feat);
    assert(frame[3] == func_sw_byte(func));
    let f = func % 16;
    assert((f * 16 + MY_SW) as u8 == f * 16 + 10 && (f * 16 + 10) / 16 == f && (f * 16 + 10) % 16 == 10) by (nonlinear_arith)
        requires f == func % 16, MY_SW == 10;
    let m = spec_parse_report(frame).unwrap();
    assert forall|i: int| 0 <= i < m.params.len() implies #[trigger] m.params[i] == (if i < params.len() { params[i] } else { 0u8 }) by {
        assert(m.params[i] == frame[i + 4]);
    }
}

/// A request frame: long (report 0x11, 20 bytes) or short (report 0x10,
/// 7 bytes).  Parameters that do not fit are cut off; unused bytes are zero.
pub fn build_request(long: bool, dev_idx: u8, feat: u8, func: u8, params: &[u8]) -> (r: Vec<u8>)
    ensures
        r@.len() == (if long { LONG_LEN } else { SHORT_LEN }),
        forall|k: int| 0 <= k < r@.len() ==> #[trigger] r@[k] == request_byte(
            if long { LONG_REPORT_ID } else { SHORT_REPORT_ID }, dev_idx, feat, func, params@, k),
{
    let len: usize = if long { LONG_LEN } else { SHORT_LEN };
    let report_id: u8 = if long { LONG_REPORT_ID } else { SHORT_REPORT_ID };
    let mut buf: Vec<u8> = Vec::new();
    let mut k: usize = 0;
    while k < len
        invariant
            len == (if long { LONG_LEN } else { SHORT_LEN }),
            report_id == (if long { LONG_REPORT_ID } else { SHORT_REPORT_ID }),
            k <= len,
            buf@.len() == k,
            forall|j: int| 0 <= j < k ==> #[trigger] buf@[j] == request_byte(report_id, dev_idx, feat, func, params@, j),
        decreases len - k,
    {
        let b: u8 = if k == 0 {
            report_id
        } else if k == 1 {
            dev_idx
        } else if k == 2 {
            feat
        } else if k == 3 {
            (func % 16) * 16 + MY_SW
        } else if k - 4 < params.len() {
            params[k - 4]
        } else {
            0
        };
        buf.push(b);
        k += 1;
    }
    buf
}

/// Parameters asking IRoot for the index of a feature.
pub fn feature_query_params(feature_id: u16) -> (r: Vec<u8>)
    ensures
        r@ == seq![(feature_id / 256) as u8, (feature_id % 256) as u8, 0u8],
{
    vec![(feature_id / 256) as u8, (feature_id % 256) as u8, 0u8]
}

/// Parameters naming one control.
pub fn cid_params(cid: u16) -> (r: Vec<u8>)
    ensures
        r@ == seq![(cid / 256) as u8, (cid % 256) as u8],
{
    vec![(cid / 256) as u8, (cid % 256) as u8]
}

/// Parameters for setCidReporting.
pub fn set_cid_reporting_params(cid: u16, flags: u8) -> (r: Vec<u8>)
    ensures
        r@ == seq![(cid / 256) as u8, (cid % 256) as u8, flags, 0u8, 0u8],
{
    vec![(cid / 256) as u8, (cid % 256) as u8, flags, 0u8, 0u8]
}

/// Parameters for setSensorDpi on sensor 0.
pub fn set_dpi_params(dpi: u16) -> (r: Vec<u8>)
    ensures
        r@ == seq![0u8, (dpi / 256) as u8, (dpi % 256) as u8],
{
    vec![0u8, (dpi / 256) as u8, (dpi % 256) as u8]
}

/// Flags that give a diverted control back to the device.
pub fn undivert_flags(rawxy_enabled: bool) -> (r: u8)
    ensures
        r == (if rawxy_enabled { 0x22u8 } else { 0x02u8 }),
{
    if rawxy_enabled { 0x22 } else { 0x02 }
}

// ── Responses ───────────────────────────────────────────────────────────────

/// How an incoming report relates to a pending request.
pub enum ResponseCheck {
    /// A HID++ error report (feature index 0xFF) with its error code.
    HidppError(u8),
    /// The answer to the pending request.
    Matches,
    /// Some other report.
    Unrelated,
}

/// The function number after `func`, modulo 16.
pub open spec fn next_func(func: u8) -> u8 {
    (((func as int) + 1) % 256 % 16) as u8
}

pub open spec fn spec_check_response(m: HidppMsgView, feat: u8, func: u8) -> ResponseCheck {
    if m.feat_idx == 0xFF {
        ResponseCheck::HidppError(if m.params.len() > 1 { m.params[1] } else { 0 })
    } else if m.feat_idx == feat && m.sw == MY_SW && (m.func == func || m.func == next_func(func)) {
        ResponseCheck::Matches
    } else {
        ResponseCheck::Unrelated
    }
}

/// Classifies a report received while waiting for the answer to a request
/// on feature index `feat`, function `func`.
pub fn check_response(msg: &HidppMsg, feat: u8, func: u8) -> (r: ResponseCheck)
    ensures
        r == spec_check_response(msg@, feat, func),
{
    if msg.feat_idx == 0xFF {
        let code = if msg.params.len() > 1 { msg.params[1] } else { 0 };
        return ResponseCheck::HidppError(code);
    }
    let next: u8 = if func == 255 { 0 } else { (func + 1) % 16 };
    if msg.feat_idx == feat && msg.sw == MY_SW && (msg.func == func || msg.func == next) {
        ResponseCheck::Matches
    } else {
        ResponseCheck::Unrelated
    }
}

/// The feature index in an IRoot answer; index 0 means "absent".
pub fn feature_index_from_response(params: &[u8]) -> (r: Option<u8>)
    ensures
        r == (if params@.len() > 0 && params@[0] != 0 { Some(params@[0]) } else { None::<u8> }),
{
    if params.len() > 0 && params[0] != 0 {
        Some(params[0])
    } else {
        None
    }
}

/// Number of controls to read from a REPROG_V4 count answer, capped.
pub fn control_count(params: &[u8]) -> (r: u8)
    ensures
        r == (if params@.len() > 0 { if params@[0] < MAX_CONTROLS { params@[0] } else { MAX_CONTROLS } } else { 0u8 }),
        r <= MAX_CONTROLS,
{
    let raw = if params.len() > 0 { params[0] } else { 0 };
    if raw < MAX_CONTROLS { raw } else { MAX_CONTROLS }
}

/// Resolution reported back by setSensorDpi, or the requested value when
/// the answer is short.
pub fn dpi_from_set_response(params: &[u8], requested: u16) -> (r: u16)
    ensures
        r == (if params@.len() >= 3 { u16_value(params@[1], params@[2]) } else { requested }),
{
    if params.len() >= 3 { make_u16(params[1], params[2]) } else { requested }
}

/// Resolution in a getSensorDpi answer.
pub fn dpi_from_get_response(params: &[u8]) -> (r: Option<u16>)
    ensures
        r == (if params@.len() >= 3 { Some(u16_value(params@[1], params@[2])) } else { None::<u16> }),
{
    if params.len() >= 3 { Some(make_u16(params[1], params[2])) } else { None }
}

/// Battery percentage in a battery answer; levels above 100 are ignored.
pub fn battery_level(params: &[u8]) -> (r: Option<u8>)
    ensures
        r == (if params@.len() > 0 && params@[0] <= 100 { Some(params@[0]) } else { None::<u8> }),
{
    if params.len() > 0 && params[0] <= 100 { Some(params[0]) } else { None }
}

/// Function that reads the battery: 1 for UNIFIED_BATT, 0 for BATTERY_STATUS.
pub fn battery_function(unified: bool) -> (r: u8)
    ensures
        r == (if unified { 1u8 } else { 0u8 }),
{
    if unified { 1 } else { 0 }
}

/// Mode in a getRatchetControlMode answer.
pub fn smart_shift_from_response(params: &[u8]) -> (r: SmartShiftMode)
    ensures
        r == (if params@.len() > 0 && params@[0] == SMART_SHIFT_FREESPIN { SmartShiftMode::FreeSpin } else { SmartShiftMode::Ratchet }),
{
    if params.len() > 0 && params[0] == SMART_SHIFT_FREESPIN {
        SmartShiftMode::FreeSpin
    } else {
        SmartShiftMode::Ratchet
    }
}

// ── Device info ─────────────────────────────────────────────────────────────

/// Metadata about one candidate Logitech HID interface.
pub struct HidDeviceInfo {
    pub vendor_id: u16,
    pub product_id: u16,
    pub usage_page: u16,
    pub usage: u16,
    pub path: Vec<u8>,
    pub product_string: String,
}

/// An interface is a HID++ candidate when it is Logitech's and sits on a
/// vendor usage page.
pub fn is_hidpp_interface(vendor_id: u16, usage_page: u16) -> (r: bool)
    ensures
        r == (vendor_id == LOGITECH_VID && usage_page >= HIDPP_USAGE_PAGE),
{
    vendor_id == LOGITECH_VID && usage_page >= HIDPP_USAGE_PAGE
}

pub open spec fn connected_name(product_id: u16, product: Seq<char>) -> Seq<char> {
    if product.len() == 0 {
        "Logitech (0x"@ + hex4(product_id) + ")"@
    } else {
        product
    }
}

/// Name reported when a device connects: the product string, or the
/// product id when the device gives none.
pub fn connected_display_name(product_id: u16, product_string: &str) -> (r: String)
    ensures
        r@ == connected_name(product_id, product_string@),
{
    let p = chars_of(product_string);
    if p.len() == 0 {
        let mut out = chars_of("Logitech (0x");
        push_hex4(&mut out, product_id);
        extend_str(&mut out, ")");
        string_of(&out)
    } else {
        string_of(&p)
    }
}

// ── Backend and Smart Shift ─────────────────────────────────────────────────

/// Which HID back-end to open devices with.
#[derive(Clone, Copy, PartialEq, Eq, Structural, Debug)]
pub enum HidBackend {
    Auto,
    Hidapi,
    /// Native IOKit back-end (receives HID++ reports on BLE devices).
    IOKit,
}

impl Default for HidBackend {
    fn default() -> (r: Self)
        ensures
            r == HidBackend::Auto,
    {
        HidBackend::Auto
    }
}

/// Scroll-wheel mode.
#[derive(Clone, Copy, PartialEq, Eq, Structural, Debug)]
pub enum SmartShiftMode {
    Ratchet,
    FreeSpin,
}

impl SmartShiftMode {
    /// Parses `"ratchet"` or `"freespin"`, ignoring ASCII case.
    pub fn from_str(s: &str) -> (r: Option<SmartShiftMode>)
        ensures
            r == (if ascii_lower(s@) == "ratchet"@ {
                Some(SmartShiftMode::Ratchet)
            } else if ascii_lower(s@) == "freespin"@ {
                Some(SmartShiftMode::FreeSpin)
            } else {
                None::<SmartShiftMode>
            }),
    {
        let c = chars_of(s);
        let l = ascii_lower_chars(&c);
        let ratchet = chars_of("ratchet");
        let freespin = chars_of("freespin");
        if chars_eq(&l, &ratchet) {
            Some(SmartShiftMode::Ratchet)
        } else if chars_eq(&l, &freespin) {
            Some(SmartShiftMode::FreeSpin)
        } else {
            None
        }
    }

    pub open spec fn spec_byte(self) -> u8 {
        match self {
            SmartShiftMode::FreeSpin => SMART_SHIFT_FREESPIN,
            SmartShiftMode::Ratchet => SMART_SHIFT_RATCHET,
        }
    }

    /// The byte setRatchetControlMode takes for this mode.
    pub fn as_byte(self) -> (r: u8)
        ensures
            r == self.spec_byte(),
    {
        match self {
            SmartShiftMode::FreeSpin => SMART_SHIFT_FREESPIN,
            SmartShiftMode::Ratchet => SMART_SHIFT_RATCHET,
        }
    }
}

/// Parameters for setRatchetControlMode.
pub fn set_smart_shift_params(mode: SmartShiftMode) -> (r: Vec<u8>)
    ensures
        r@ == seq![mode.spec_byte(), 0u8, 0u8],
{
    vec![mode.as_byte(), 0u8, 0u8]
}

// ── Controls discovered through REPROG_V4 ───────────────────────────────────

/// One control listed by REPROG_CONTROLS_V4.
#[derive(Clone, Copy, PartialEq, Eq, Structural, Debug)]
pub struct ControlInfo {
    pub index: u8,
    pub cid: u16,
    pub task: u16,
    pub key_flags: u16,
    pub pos: u8,
    pub group: u8,
    pub gmask: u8,
    pub mapping_flags: u16,
}

impl ControlInfo {
    pub open spec fn spec_raw_xy_capable(self) -> bool {
        self.key_flags & 0x0100 != 0 || self.key_flags & 0x0200 != 0
            || self.mapping_flags & 0x0010 != 0 || self.mapping_flags & 0x0040 != 0
    }

    pub open spec fn spec_is_divertable(self) -> bool {
        self.key_flags & 0x0020 != 0
    }

    /// The control can report raw XY motion (by key or by reporting flags).
    pub fn raw_xy_capable(&self) -> (r: bool)
        ensures
            r == self.spec_raw_xy_capable(),
    {
        self.key_flags & 0x0100 != 0 || self.key_flags & 0x0200 != 0
            || self.mapping_flags & 0x0010 != 0 || self.mapping_flags & 0x0040 != 0
    }

    /// The control can be diverted to software.
    pub fn is_divertable(&self) -> (r: bool)
        ensures
            r == self.spec_is_divertable(),
    {
        self.key_flags & 0x0020 != 0
    }
}

/// The control described by a getCidInfo answer for `index`, with
/// reporting flags not yet known (zero); `None` for a short answer.
pub open spec fn spec_control_info(index: u8, p: Seq<u8>) -> Option<ControlInfo> {
    if p.len() < 9 {
        None
    } else {
        Some(ControlInfo {
            index,
            cid: u16_value(p[0], p[1]),
            task: u16_value(p[2], p[3]),
            key_flags: u16_value(p[8], p[4]),
            pos: p[5],
            group: p[6],
            gmask: p[7],
            mapping_flags: 0,
        })
    }
}

/// Reporting flags in a getCidReporting answer: the low byte at offset 2,
/// the high byte at offset 5 when the answer has one.
pub open spec fn spec_mapping_flags(p: Seq<u8>) -> Option<u16> {
    if p.len() < 5 {
        None
    } else if p.len() >= 6 {
        Some(u16_value(p[5], p[2]))
    } else {
        Some(p[2] as u16)
    }
}

/// A getCidInfo answer, with reporting flags not yet known (zero).
pub fn parse_control_info(index: u8, p: &[u8]) -> (r: Option<ControlInfo>)
    ensures
        r == spec_control_info(index, p@),
        p@.len() < 9 ==> r is None,
        p@.len() >= 9 ==> r == Some(ControlInfo {
            index,
            cid: u16_value(p@[0], p@[1]),
            task: u16_value(p@[2], p@[3]),
            key_flags: u16_value(p@[8], p@[4]),
            pos: p@[5],
            group: p@[6],
            gmask: p@[7],
            mapping_flags: 0,
        }),
{
    if p.len() < 9 {
        return None;
    }
    Some(ControlInfo {
        index,
        cid: make_u16(p[0], p[1]),
        task: make_u16(p[2], p[3]),
        key_flags: make_u16(p[8], p[4]),
        pos: p[5],
        group: p[6],
        gmask: p[7],
        mapping_flags: 0,
    })
}

/// Reporting flags in a getCidReporting answer.
pub fn parse_mapping_flags(p: &[u8]) -> (r: Option<u16>)
    ensures
        r == spec_mapping_flags(p@),
        p@.len() < 5 ==> r is None,
        p@.len() == 5 ==> r == Some(p@[2] as u16),
        p@.len() >= 6 ==> r == Some(u16_value(p@[5], p@[2])),
{
    if p.len() < 5 {
        None
    } else if p.len() >= 6 {
        Some(make_u16(p[5], p[2]))
    } else {
        Some(p[2] as u16)
    }
}

pub open spec fn cid_present(controls: Seq<ControlInfo>, cid: u16) -> bool {
    exists|i: int| 0 <= i < controls.len() && #[trigger] controls[i].cid == cid
}

/// A control worth diverting for gestures: raw-XY capable, divertable, and
/// virtual or one of the named gesture buttons.
pub open spec fn gesture_capable(c: ControlInfo) -> bool {
    &&& c.spec_raw_xy_capable()
    &&& (c.key_flags & 0x0080 != 0 || c.cid == GESTURE_CID_PRIMARY || c.cid == GESTURE_CID_VIRTUAL)
    &&& c.spec_is_divertable()
}

pub open spec fn add_cid(ordered: Seq<u16>, controls: Seq<ControlInfo>, cid: u16) -> Seq<u16> {
    if cid_present(controls, cid) && !ordered.contains(cid) {
        ordered.push(cid)
    } else {
        ordered
    }
}

/// The ordered candidates after looking at the first `n` controls.
pub open spec fn candidates_upto(controls: Seq<ControlInfo>, n: int) -> Seq<u16>
    decreases n,
{
    if n <= 0 {
        add_cid(add_cid(Seq::empty(), controls, GESTURE_CID_PRIMARY), controls, GESTURE_CID_VIRTUAL)
    } else {
        let o = candidates_upto(controls, n - 1);
        if gesture_capable(controls[n - 1]) {
            add_cid(o, controls, controls[n - 1].cid)
        } else {
            o
        }
    }
}

pub open spec fn gesture_candidates(controls: Seq<ControlInfo>) -> Seq<u16> {
    let o = candidates_upto(controls, controls.len() as int);
    if o.len() == 0 {
        spec_default_gesture_cids()
    } else {
        o
    }
}

proof fn lemma_candidates_distinct(controls: Seq<ControlInfo>, n: int)
    ensures
        candidates_upto(controls, n).no_duplicates(),
    decreases n,
{
    if n > 0 {
        lemma_candidates_distinct(controls, n - 1);
    } else {
        let e = Seq::<u16>::empty();
        let a = add_cid(e, controls, GESTURE_CID_PRIMARY);
        assert(a.no_duplicates());
    }
}

fn cid_present_exec(controls: &[ControlInfo], cid: u16) -> (r: bool)
    ensures
        r == cid_present(controls@, cid),
{
    let mut i: usize = 0;
    while i < controls.len()
        invariant
            i <= controls.len(),
            forall|j: int| 0 <= j < i ==> #[trigger] controls@[j].cid != cid,
        decreases controls.len() - i,
    {
        if controls[i].cid == cid {
            return true;
        }
        i += 1;
    }
    false
}

fn vec_contains_u16(v: &Vec<u16>, x: u16) -> (r: bool)
    ensures
        r == v@.contains(x),
{
    let mut i: usize = 0;
    while i < v.len()
        invariant
            i <= v.len(),
            forall|j: int| 0 <= j < i ==> v@[j] != x,
        decreases v.len() - i,
    {
        if v[i] == x {
            return true;
        }
        i += 1;
    }
    false
}

fn add_cid_exec(ordered: &mut Vec<u16>, controls: &[ControlInfo], cid: u16)
    ensures
        final(ordered)@ == add_cid(old(ordered)@, controls@, cid),
{
    if cid_present_exec(controls, cid) && !vec_contains_u16(ordered, cid) {
        ordered.push(cid);
    }
}

/// Orders the gesture CIDs to try: the preferred defaults that the device
/// has, then every other gesture-capable control; the defaults when none
/// qualifies.  The result is never empty and names no CID twice.
pub fn choose_gesture_candidates(controls: &[ControlInfo]) -> (r: Vec<u16>)
    ensures
        r@ == gesture_candidates(controls@),
        r@.len() > 0,
        r@.no_duplicates(),
{
    let mut ordered: Vec<u16> = Vec::new();
    add_cid_exec(&mut ordered, controls, GESTURE_CID_PRIMARY);
    add_cid_exec(&mut ordered, controls, GESTURE_CID_VIRTUAL);
    let mut i: usize = 0;
    while i < controls.len()
        invariant
            i <= controls.len(),
            ordered@ == candidates_upto(controls@, i as int),
        decreases controls.len() - i,
    {
        let c = controls[i];
        let qualifies = c.raw_xy_capable()
            && (c.key_flags & 0x0080 != 0 || c.cid == GESTURE_CID_PRIMARY || c.cid == GESTURE_CID_VIRTUAL)
            && c.is_divertable();
        if qualifies {
            add_cid_exec(&mut ordered, controls, c.cid);
        }
        i += 1;
    }
    proof {
        lemma_candidates_distinct(controls@, controls@.len() as int);
    }
    if ordered.len() == 0 {
        let d = default_gesture_cids();
        proof {
            assert(d@.no_duplicates());
        }
        d
    } else {
        ordered
    }
}

// ── Diverted-button state machine ───────────────────────────────────────────

/// An event produced by a diverted-control report.
#[derive(Clone, Copy, PartialEq, Eq, Structural, Debug)]
pub enum HidEvent {
    GestureDown,
    GestureUp,
    /// Raw XY motion while the gesture button is held.
    GestureMove(i16, i16),
    ModeShiftDown,
    ModeShiftUp,
}

/// What the listener knows between reports.
#[derive(Clone, Copy, PartialEq, Eq, Structural, Debug)]
pub struct ReportState {
    /// Index of REPROG_V4 on the connected device.
    pub feat_idx: Option<u8>,
    /// The diverted gesture control.
    pub gesture_cid: u16,
    /// Raw XY reporting is on for the gesture control.
    pub rawxy_enabled: bool,
    /// The gesture button is down.
    pub held: bool,
    /// The mode-shift button is down.
    pub mode_shift_held: bool,
    /// The control used as mode-shift button, if any.
    pub mode_shift_cid: Option<u16>,
}

/// The control ids listed as pressed in a diverted-buttons report: big-endian
/// pairs, up to the first zero.
pub open spec fn active_cids(p: Seq<u8>) -> Seq<u16>
    decreases p.len(),
{
    if p.len() < 2 {
        Seq::empty()
    } else {
        let c = u16_value(p[0], p[1]);
        if c == 0 {
            Seq::empty()
        } else {
            seq![c] + active_cids(p.subrange(2, p.len() as int))
        }
    }
}

/// Edge detection for one button: new pressed flag and the event, if any.
pub open spec fn button_edge(was: bool, now: bool, down: HidEvent, up: HidEvent) -> (bool, Seq<HidEvent>) {
    if now && !was {
        (true, seq![down])
    } else if !now && was {
        (false, seq![up])
    } else {
        (was, Seq::empty())
    }
}

pub open spec fn spec_on_report(s: ReportState, raw: Seq<u8>) -> (ReportState, Seq<HidEvent>) {
    match spec_parse_report(raw) {
        None => (s, Seq::empty()),
        Some(m) => {
            if s.feat_idx != Some(m.feat_idx) {
                (s, Seq::empty())
            } else if m.func == 1 {
                if !s.rawxy_enabled || !s.held || m.params.len() < 4 {
                    (s, Seq::empty())
                } else {
                    let dx = s16_value(m.params[0], m.params[1]);
                    let dy = s16_value(m.params[2], m.params[3]);
                    if dx != 0 || dy != 0 {
                        (s, seq![HidEvent::GestureMove(dx as i16, dy as i16)])
                    } else {
                        (s, Seq::empty())
                    }
                }
            } else if m.func == 0 {
                let act = active_cids(m.params);
                let g = button_edge(s.held, act.contains(s.gesture_cid), HidEvent::GestureDown, HidEvent::GestureUp);
                let ms = match s.mode_shift_cid {
                    Some(c) => button_edge(s.mode_shift_held, act.contains(c), HidEvent::ModeShiftDown, HidEvent::ModeShiftUp),
                    None => (s.mode_shift_held, Seq::empty()),
                };
                (ReportState { held: g.0, mode_shift_held: ms.0, ..s }, g.1 + ms.1)
            } else {
                (s, Seq::empty())
            }
        },
    }
}

fn active_cids_exec(p: &Vec<u8>) -> (r: Vec<u16>)
    ensures
        r@ == active_cids(p@),
{
    let mut found: Vec<u16> = Vec::new();
    let mut i: usize = 0;
    assert(p@.subrange(0, p@.len() as int) =~= p@);
    assert(Seq::<u16>::empty() + active_cids(p@) =~= active_cids(p@));
    while p.len() - i >= 2
        invariant
            i <= p.len(),
            active_cids(p@) == found@ + active_cids(p@.subrange(i as int, p@.len() as int)),
        decreases p.len() - i,
    {
        let c = make_u16(p[i], p[i + 1]);
        proof {
            let rest = p@.subrange(i as int, p@.len() as int);
            assert(rest[0] == p@[i as int] && rest[1] == p@[i + 1]);
            assert(rest.subrange(2, rest.len() as int) =~= p@.subrange(i + 2, p@.len() as int));
        }
        if c == 0 {
            assert(found@ + Seq::<u16>::empty() =~= found@);
            return found;
        }
        proof {
            assert(found@.push(c) + active_cids(p@.subrange(i + 2, p@.len() as int))
                =~= found@ + (seq![c] + active_cids(p@.subrange(i + 2, p@.len() as int))));
        }
        found.push(c);
        i += 2;
    }
    proof {
        let rest = p@.subrange(i as int, p@.len() as int);
        assert(rest.len() < 2);
        assert(found@ + Seq::<u16>::empty() =~= found@);
    }
    found
}

impl ReportState {
    /// State right after a device has been opened: nothing known yet.
    pub fn new() -> (r: ReportState)
        ensures
            r == (ReportState {
                feat_idx: None,
                gesture_cid: GESTURE_CID_PRIMARY,
                rawxy_enabled: false,
                held: false,
                mode_shift_held: false,
                mode_shift_cid: Some(MODE_SHIFT_CID),
            }),
    {
        ReportState {
            feat_idx: None,
            gesture_cid: GESTURE_CID_PRIMARY,
            rawxy_enabled: false,
            held: false,
            mode_shift_held: false,
            mode_shift_cid: Some(MODE_SHIFT_CID),
        }
    }

    /// Handles one raw report: RawXY motion while the gesture button is
    /// held, and press / release edges of the gesture and mode-shift
    /// buttons.  Reports for other features leave the state as it is.
    pub fn on_report(&mut self, raw: &[u8]) -> (events: Vec<HidEvent>)
        ensures
            (*final(self), events@) == spec_on_report(*old(self), raw@),
    {
        let mut events: Vec<HidEvent> = Vec::new();
        let msg = match parse_report(raw) {
            Some(m) => m,
            None => return events,
        };
        if self.feat_idx != Some(msg.feat_idx) {
            assert(events@ =~= Seq::<HidEvent>::empty());
            return events;
        }
        if msg.func == 1 {
            if !self.rawxy_enabled || !self.held || msg.params.len() < 4 {
                return events;
            }
            let dx = decode_s16(msg.params[0], msg.params[1]);
            let dy = decode_s16(msg.params[2], msg.params[3]);
            if dx != 0 || dy != 0 {
                events.push(HidEvent::GestureMove(dx, dy));
                assert(events@ =~= seq![HidEvent::GestureMove(dx, dy)]);
            }
            return events;
        }
        if msg.func == 0 {
            let ghost old_s = *self;
            let act = active_cids_exec(&msg.params);
            let gesture_now = vec_contains_u16(&act, self.gesture_cid);
            if gesture_now && !self.held {
                self.held = true;
                events.push(HidEvent::GestureDown);
            } else if !gesture_now && self.held {
                self.held = false;
                events.push(HidEvent::GestureUp);
            }
            let ghost g_events = events@;
            match self.mode_shift_cid {
                Some(c) => {
                    let ms_now = vec_contains_u16(&act, c);
                    if ms_now && !self.mode_shift_held {
                        self.mode_shift_held = true;
                        events.push(HidEvent::ModeShiftDown);
                    } else if !ms_now && self.mode_shift_held {
                        self.mode_shift_held = false;
                        events.push(HidEvent::ModeShiftUp);
                    }
                },
                None => {},
            }
            proof {
                let expected = spec_on_report(old_s, raw@);
                assert(*self == expected.0);
                assert(events@ =~= expected.1);
            }
            return events;
        }
        events
    }
}

/// After a diverted-buttons report for the gesture feature, the gesture
/// button counts as held exactly when the report lists its control; a
/// press event comes only on the edge from released to held, a release
/// event only on the edge back, and the other fields never change.
pub proof fn lemma_button_report_tracks_held(s: ReportState, raw: Seq<u8>)
    requires
        spec_parse_report(raw) matches Some(m) && s.feat_idx == Some(m.feat_idx) && m.func == 0,
    ensures
        ({
            let (t, ev) = spec_on_report(s, raw);
            let m = spec_parse_report(raw).unwrap();
            &&& t.held == active_cids(m.params).contains(s.gesture_cid)
            &&& ev.contains(HidEvent::GestureDown) <==> (!s.held && t.held)
            &&& ev.contains(HidEvent::GestureUp) <==> (s.held && !t.held)
            &&& t.feat_idx == s.feat_idx && t.gesture_cid == s.gesture_cid
            &&& t.rawxy_enabled == s.rawxy_enabled && t.mode_shift_cid == s.mode_shift_cid
        }),
{
    let (t, ev) = spec_on_report(s, raw);
    let m = spec_parse_report(raw).unwrap();
    let act = active_cids(m.params);
    let g = button_edge(s.held, act.contains(s.gesture_cid), HidEvent::GestureDown, HidEvent::GestureUp);
    let ms = match s.mode_shift_cid {
        Some(c) => button_edge(s.mode_shift_held, act.contains(c), HidEvent::ModeShiftDown, HidEvent::ModeShiftUp),
        None => (s.mode_shift_held, Seq::<HidEvent>::empty()),
    };
    assert(ev == g.1 + ms.1);
    assert(!ms.1.contains(HidEvent::GestureDown) && !ms.1.contains(HidEvent::GestureUp)) by {
        if ms.1.len() > 0 {
            assert(ms.1.len() == 1);
        }
    }
    if g.1.len() > 0 {
        assert(ev[0] == g.1[0]);
    }
    assert(ev.contains(HidEvent::GestureDown) ==> g.1.contains(HidEvent::GestureDown)) by {
        if ev.contains(HidEvent::GestureDown) {
            let k = choose|k: int| 0 <= k < ev.len() && ev[k] == HidEvent::GestureDown;
            if k >= g.1.len() {
                assert(ms.1[k - g.1.len()] == HidEvent::GestureDown);
            }
        }
    }
    assert(ev.contains(HidEvent::GestureUp) ==> g.1.contains(HidEvent::GestureUp)) by {
        if ev.contains(HidEvent::GestureUp) {
            let k = choose|k: int| 0 <= k < ev.len() && ev[k] == HidEvent::GestureUp;
            if k >= g.1.len() {
                assert(ms.1[k - g.1.len()] == HidEvent::GestureUp);
            }
        }
    }
}

/// A report for any feature other than the diverted one changes nothing
/// and produces no event.
pub proof fn lemma_foreign_report_ignored(s: ReportState, raw: Seq<u8>)
    requires
        spec_parse_report(raw) matches Some(m) && s.feat_idx != Some(m.feat_idx),
    ensures
        spec_on_report(s, raw) == (s, Seq::<HidEvent>::empty()),
{
}

/// Motion is reported only while the gesture button is held with raw XY
/// reporting on, and only when it is not zero.
pub proof fn lemma_motion_only_while_held(s: ReportState, raw: Seq<u8>, dx: i16, dy: i16)
    requires
        spec_on_report(s, raw).1.contains(HidEvent::GestureMove(dx, dy)),
    ensures
        s.held,
        s.rawxy_enabled,
        dx != 0 || dy != 0,
{
    let ev = spec_on_report(s, raw).1;
    let k = choose|k: int| 0 <= k < ev.len() && ev[k] == HidEvent::GestureMove(dx, dy);
    match spec_parse_report(raw) {
        None => {},
        Some(m) => {
            if s.feat_idx == Some(m.feat_idx) && m.func == 0 {
                let act = active_cids(m.params);
                let g = button_edge(s.held, act.contains(s.gesture_cid), HidEvent::GestureDown, HidEvent::GestureUp);
                let ms = match s.mode_shift_cid {
                    Some(c) => button_edge(s.mode_shift_held, act.contains(c), HidEvent::ModeShiftDown, HidEvent::ModeShiftUp),
                    None => (s.mode_shift_held, Seq::<HidEvent>::empty()),
                };
                if k < g.1.len() {
                    assert(g.1[k] == ev[k]);
                } else {
                    assert(ms.1[k - g.1.len()] == ev[k]);
                }
            }
        },
    }
}

/// The two's-complement value of the 16-bit big-endian pair `hi, lo`.
pub open spec fn be_signed16(hi: u8, lo: u8) -> int {
    let v = hi as int * 256 + lo as int;
    if v >= 0x8000 { v - 0x1_0000 } else { v }
}

/// A raw XY report (function 1) of the diverted feature, read while the
/// gesture button is held with raw XY reporting on, gives exactly one
/// motion event: `dx` from parameter bytes 0 and 1, `dy` from bytes 2 and
/// 3, each a big-endian signed 16-bit value (x to the right, y down) - or
/// nothing when both are zero; the state is unchanged.  The header is
/// read after the report id, when there is one.
pub proof fn lemma_rawxy_report_moves(s: ReportState, raw: Seq<u8>)
    requires
        raw.len() >= 8,
        raw[0] == SHORT_REPORT_ID || raw[0] == LONG_REPORT_ID,
        s.feat_idx == Some(raw[2]),
        raw[3] / 16 == 1,
        s.held,
        s.rawxy_enabled,
    ensures
        spec_on_report(s, raw).0 == s,
        (be_signed16(raw[4], raw[5]) != 0 || be_signed16(raw[6], raw[7]) != 0) ==> spec_on_report(
            s,
            raw,
        ).1 == seq![
            HidEvent::GestureMove(be_signed16(raw[4], raw[5]) as i16, be_signed16(raw[6], raw[7]) as i16),
        ],
        (be_signed16(raw[4], raw[5]) == 0 && be_signed16(raw[6], raw[7]) == 0) ==> spec_on_report(
            s,
            raw,
        ).1.len() == 0,
{
    let m = spec_parse_report(raw).unwrap();
    assert(m.params[0] == raw[4] && m.params[1] == raw[5] && m.params[2] == raw[6] && m.params[3]
        == raw[7]);
}

/// A diverted-buttons report (function 1 is motion, function 0 buttons)
/// of the diverted feature, read byte by byte: when its first control id
/// (parameter bytes 0 and 1, big-endian) is the gesture control, the
/// gesture button is down afterwards, and a press is reported if it was
/// up; when the report lists no control at all (a zero first id), the
/// button is up afterwards, and a release is reported if it was down.
pub proof fn lemma_button_report_bytes(s: ReportState, raw: Seq<u8>)
    requires
        raw.len() >= 6,
        raw[0] == SHORT_REPORT_ID || raw[0] == LONG_REPORT_ID,
        s.feat_idx == Some(raw[2]),
        raw[3] / 16 == 0,
    ensures
        (raw[4] as int * 256 + raw[5] as int == s.gesture_cid && s.gesture_cid != 0) ==> {
            &&& spec_on_report(s, raw).0.held
            &&& (!s.held ==> spec_on_report(s, raw).1.contains(HidEvent::GestureDown))
            &&& !spec_on_report(s, raw).1.contains(HidEvent::GestureUp)
        },
        (raw[4] == 0 && raw[5] == 0) ==> {
            &&& !spec_on_report(s, raw).0.held
            &&& (s.held ==> spec_on_report(s, raw).1.contains(HidEvent::GestureUp))
            &&& !spec_on_report(s, raw).1.contains(HidEvent::GestureDown)
        },
{
    let m = spec_parse_report(raw).unwrap();
    assert(m.params[0] == raw[4] && m.params[1] == raw[5]);
    lemma_button_report_tracks_held(s, raw);
    let act = active_cids(m.params);
    if raw[4] as int * 256 + raw[5] as int == s.gesture_cid && s.gesture_cid != 0 {
        assert(u16_value(m.params[0], m.params[1]) == s.gesture_cid);
        assert(act[0] == s.gesture_cid);
        assert(act.contains(s.gesture_cid));
    }
    if raw[4] == 0 && raw[5] == 0 {
        assert(u16_value(m.params[0], m.params[1]) == 0);
        assert(act.len() == 0);
    }
}

/// Raw XY motion is not reported while the button is up or raw XY
/// reporting is off.
pub proof fn lemma_rawxy_needs_held_button(s: ReportState, raw: Seq<u8>)
    requires
        !s.held || !s.rawxy_enabled,
        spec_parse_report(raw) matches Some(m) && m.func == 1,
    ensures
        spec_on_report(s, raw) == (s, Seq::<HidEvent>::empty()),
{
}

// ── Walking the controls of REPROG_V4 ───────────────────────────────────────

/// After this many getCidInfo reads in a row without an answer, the walk
/// over the controls stops.
pub const MAX_READ_FAILURES: u8 = 3;

/// Reporting flags of a control: those of the getCidReporting answer, zero
/// when there was none or it was short.
pub open spec fn reporting_flags_or_zero(mapping: Option<Seq<u8>>) -> u16 {
    match mapping {
        Some(m) => match spec_mapping_flags(m) {
            Some(f) => f,
            None => 0,
        },
        None => 0,
    }
}

/// The walk over the controls a device lists: which index is read next,
/// how many reads in a row went unanswered, and the controls read so far.
pub struct ControlDiscovery {
    /// Number of controls to read: the device's count, at most MAX_CONTROLS.
    pub count: u8,
    /// Index of the next getCidInfo read.
    pub next: u8,
    /// Unanswered reads since the last answered one.
    pub failures: u8,
    /// Controls read so far, by increasing index.
    pub controls: Vec<ControlInfo>,
}

impl ControlDiscovery {
    pub open spec fn wf(&self) -> bool {
        &&& self.count <= MAX_CONTROLS
        &&& self.next <= self.count
        &&& self.failures <= MAX_READ_FAILURES
        &&& forall|k: int| 0 <= k < self.controls@.len() ==> #[trigger] self.controls@[k].index < self.next
        &&& forall|a: int, b: int|
            0 <= a < b < self.controls@.len() ==> #[trigger] self.controls@[a].index
                < #[trigger] self.controls@[b].index
    }

    /// The walk is over: every index was read, or too many reads in a row
    /// went unanswered.
    pub open spec fn is_finished(&self) -> bool {
        self.failures >= MAX_READ_FAILURES || self.next >= self.count
    }

    /// A walk over the `raw_count` controls the device reports, capped at
    /// MAX_CONTROLS.
    pub fn new(raw_count: u8) -> (r: Self)
        ensures
            r.wf(),
            r.count == (if raw_count < MAX_CONTROLS { raw_count } else { MAX_CONTROLS }),
            r.next == 0,
            r.failures == 0,
            r.controls@ == Seq::<ControlInfo>::empty(),
    {
        let count = if raw_count < MAX_CONTROLS { raw_count } else { MAX_CONTROLS };
        ControlDiscovery { count, next: 0, failures: 0, controls: Vec::new() }
    }

    /// The index to read next; `None` once the walk is over.
    pub fn next_index(&self) -> (r: Option<u8>)
        ensures
            r == (if self.is_finished() { None } else { Some(self.next) }),
    {
        if self.failures >= MAX_READ_FAILURES || self.next >= self.count {
            None
        } else {
            Some(self.next)
        }
    }

    /// Records the read of index `next`: `key` is the getCidInfo answer,
    /// `mapping` the getCidReporting answer for its control.  An unanswered
    /// read counts as a failure; an answer resets the count, and adds the
    /// control unless the answer is short.
    pub fn on_control_read(&mut self, key: Option<&[u8]>, mapping: Option<&[u8]>)
        requires
            old(self).wf(),
            !old(self).is_finished(),
        ensures
            final(self).wf(),
            final(self).count == old(self).count,
            final(self).next == old(self).next + 1,
            match key {
                None => final(self).failures == old(self).failures + 1
                    && final(self).controls@ == old(self).controls@,
                Some(p) => final(self).failures == 0 && final(self).controls@ == match spec_control_info(old(self).next, p@) {
                    Some(c) => old(self).controls@.push(ControlInfo {
                        mapping_flags: reporting_flags_or_zero(match mapping {
                            Some(m) => Some(m@),
                            None => None::<Seq<u8>>,
                        }),
                        ..c
                    }),
                    None => old(self).controls@,
                },
            },
    {
        let index = self.next;
        match key {
            None => {
                self.failures = self.failures + 1;
            },
            Some(p) => {
                self.failures = 0;
                match parse_control_info(index, p) {
                    Some(c) => {
                        let flags = match mapping {
                            Some(m) => match parse_mapping_flags(m) {
                                Some(f) => f,
                                None => 0,
                            },
                            None => 0,
                        };
                        let ghost before = self.controls@;
                        self.controls.push(ControlInfo { mapping_flags: flags, ..c });
                        proof {
                            assert(self.controls@[before.len() as int].index == index);
                            assert forall|a: int, b: int|
                                0 <= a < b < self.controls@.len() implies #[trigger] self.controls@[a].index
                                    < #[trigger] self.controls@[b].index by {
                                if b == before.len() {
                                    assert(before[a].index < index);
                                } else {
                                    assert(before[a] == self.controls@[a] && before[b] == self.controls@[b]);
                                }
                            }
                            assert forall|k: int| 0 <= k < self.controls@.len() implies #[trigger] self.controls@[k].index
                                < index + 1 by {
                                if k < before.len() {
                                    assert(before[k] == self.controls@[k]);
                                }
                            }
                        }
                    },
                    None => {},
                }
            },
        }
        self.next = index + 1;
    }
}

// ── Diverting the gesture control ───────────────────────────────────────────

/// What diverting the gesture control came to.
#[derive(Clone, Copy, PartialEq, Eq, Structural, Debug)]
pub struct DivertOutcome {
    pub gesture_cid: u16,
    pub rawxy_enabled: bool,
    pub diverted: bool,
}

/// The outcome when no candidate could be diverted: the primary gesture
/// control, without raw XY.
pub fn divert_failed() -> (r: DivertOutcome)
    ensures
        r == (DivertOutcome { gesture_cid: GESTURE_CID_PRIMARY, rawxy_enabled: false, diverted: false }),
{
    DivertOutcome { gesture_cid: GESTURE_CID_PRIMARY, rawxy_enabled: false, diverted: false }
}

/// The setCidReporting attempts for the gesture candidates, in order: each
/// candidate with raw XY first, then divert-only, until one is accepted.
pub struct DivertSequence {
    pub candidates: Vec<u16>,
    /// The candidate being tried.
    pub pos: usize,
    /// The raw-XY attempt for that candidate was refused.
    pub fallback: bool,
}

impl DivertSequence {
    pub open spec fn wf(&self) -> bool {
        &&& self.pos <= self.candidates@.len()
        &&& self.fallback ==> self.pos < self.candidates@.len()
    }

    /// The attempts for `candidates`, starting with the first.
    pub fn new(candidates: Vec<u16>) -> (r: Self)
        ensures
            r.wf(),
            r.candidates@ == candidates@,
            r.pos == 0,
            !r.fallback,
    {
        DivertSequence { candidates, pos: 0, fallback: false }
    }

    /// The control and flags of the next setCidReporting request; `None`
    /// once every candidate was refused both ways.
    pub fn next_request(&self) -> (r: Option<(u16, u8)>)
        requires
            self.wf(),
        ensures
            r == (if self.pos < self.candidates@.len() {
                Some((self.candidates@[self.pos as int], if self.fallback { DIVERT_FLAGS } else { DIVERT_RAWXY_FLAGS }))
            } else {
                None
            }),
    {
        if self.pos < self.candidates.len() {
            let flags = if self.fallback { DIVERT_FLAGS } else { DIVERT_RAWXY_FLAGS };
            Some((self.candidates[self.pos], flags))
        } else {
            None
        }
    }

    /// Records the device's answer to the request `next_request` gave: an
    /// accepted request ends the sequence with that control diverted (raw XY
    /// on when it was the first attempt); a refused one moves to the next
    /// attempt.
    pub fn on_result(&mut self, accepted: bool) -> (r: Option<DivertOutcome>)
        requires
            old(self).wf(),
            old(self).pos < old(self).candidates@.len(),
        ensures
            final(self).wf(),
            final(self).candidates@ == old(self).candidates@,
            accepted ==> r == Some(DivertOutcome {
                gesture_cid: old(self).candidates@[old(self).pos as int],
                rawxy_enabled: !old(self).fallback,
                diverted: true,
            }) && final(self).pos == old(self).pos && final(self).fallback == old(self).fallback,
            !accepted ==> r is None && (if old(self).fallback {
                final(self).pos == old(self).pos + 1 && !final(self).fallback
            } else {
                final(self).pos == old(self).pos && final(self).fallback
            }),
    {
        if accepted {
            return Some(DivertOutcome { gesture_cid: self.candidates[self.pos], rawxy_enabled: !self.fallback, diverted: true });
        }
        if self.fallback {
            assert(self.pos < self.candidates.len());
            self.pos = self.pos + 1;
            self.fallback = false;
        } else {
            self.fallback = true;
        }
        None
    }
}

// ── Feature state of the device being set up ────────────────────────────────

/// Feature indices found on the device and the gesture control in use.
pub struct FeatureState {
    pub feat_idx: Option<u8>,
    pub dpi_idx: Option<u8>,
    pub smart_shift_idx: Option<u8>,
    pub battery_idx: Option<u8>,
    pub battery_is_unified: bool,
    pub gesture_cid: u16,
    pub gesture_candidates: Vec<u16>,
    pub rawxy_enabled: bool,
}

impl FeatureState {
    /// Nothing found: no feature index, the default gesture controls.
    pub open spec fn is_reset(&self) -> bool {
        &&& self.feat_idx is None
        &&& self.dpi_idx is None
        &&& self.smart_shift_idx is None
        &&& self.battery_idx is None
        &&& !self.battery_is_unified
        &&& self.gesture_cid == GESTURE_CID_PRIMARY
        &&& self.gesture_candidates@ == spec_default_gesture_cids()
        &&& !self.rawxy_enabled
    }

    pub fn new() -> (r: Self)
        ensures
            r.is_reset(),
    {
        FeatureState {
            feat_idx: None,
            dpi_idx: None,
            smart_shift_idx: None,
            battery_idx: None,
            battery_is_unified: false,
            gesture_cid: GESTURE_CID_PRIMARY,
            gesture_candidates: default_gesture_cids(),
            rawxy_enabled: false,
        }
    }

    /// Forgets everything found, before another device is tried.
    pub fn reset(&mut self)
        ensures
            final(self).is_reset(),
    {
        self.feat_idx = None;
        self.dpi_idx = None;
        self.smart_shift_idx = None;
        self.battery_idx = None;
        self.battery_is_unified = false;
        self.gesture_cid = GESTURE_CID_PRIMARY;
        self.gesture_candidates = default_gesture_cids();
        self.rawxy_enabled = false;
    }

    /// Records the battery feature: UNIFIED_BATT when the device has it,
    /// else BATTERY_STATUS; nothing changes when it has neither.
    pub fn set_battery(&mut self, unified: Option<u8>, status: Option<u8>)
        ensures
            final(self).feat_idx == old(self).feat_idx,
            final(self).dpi_idx == old(self).dpi_idx,
            final(self).smart_shift_idx == old(self).smart_shift_idx,
            final(self).gesture_cid == old(self).gesture_cid,
            final(self).gesture_candidates@ == old(self).gesture_candidates@,
            final(self).rawxy_enabled == old(self).rawxy_enabled,
            unified is Some ==> final(self).battery_idx == unified && final(self).battery_is_unified,
            unified is None && status is Some ==> final(self).battery_idx == status && !final(self).battery_is_unified,
            unified is None && status is None ==> final(self).battery_idx == old(self).battery_idx
                && final(self).battery_is_unified == old(self).battery_is_unified,
    {
        match unified {
            Some(i) => {
                self.battery_idx = Some(i);
                self.battery_is_unified = true;
            },
            None => match status {
                Some(i) => {
                    self.battery_idx = Some(i);
                    self.battery_is_unified = false;
                },
                None => {},
            },
        }
    }

    /// Takes the gesture control and raw-XY mode that diverting settled on.
    pub fn apply_divert(&mut self, o: DivertOutcome)
        ensures
            final(self).gesture_cid == o.gesture_cid,
            final(self).rawxy_enabled == o.rawxy_enabled,
            final(self).feat_idx == old(self).feat_idx,
            final(self).dpi_idx == old(self).dpi_idx,
            final(self).smart_shift_idx == old(self).smart_shift_idx,
            final(self).battery_idx == old(self).battery_idx,
            final(self).battery_is_unified == old(self).battery_is_unified,
            final(self).gesture_candidates@ == old(self).gesture_candidates@,
    {
        self.gesture_cid = o.gesture_cid;
        self.rawxy_enabled = o.rawxy_enabled;
    }
}

// ── The listening loop ──────────────────────────────────────────────────────

/// What one read of the listening loop leads to.
#[derive(Clone, Copy, PartialEq, Eq, Structural, Debug)]
pub enum ReadOutcome {
    /// Nothing arrived before the timeout: keep listening.
    Idle,
    /// A report to handle.
    Report,
    /// A zero-length read: the device went away.
    Disconnected,
}

/// A read that returned `len` bytes (`None`: nothing before the timeout).
pub fn classify_read(len: Option<usize>) -> (r: ReadOutcome)
    ensures
        r == (match len {
            None => ReadOutcome::Idle,
            Some(n) => if n == 0 { ReadOutcome::Disconnected } else { ReadOutcome::Report },
        }),
{
    match len {
        None => ReadOutcome::Idle,
        Some(n) => if n == 0 { ReadOutcome::Disconnected } else { ReadOutcome::Report },
    }
}

/// The "no compatible device" notice is logged once per run of failed
/// connection attempts.
pub struct RetryNotice {
    pub logged: bool,
}

impl RetryNotice {
    pub fn new() -> (r: Self)
        ensures
            !r.logged,
    {
        RetryNotice { logged: false }
    }

    /// Records a connection attempt; the result says whether to log the
    /// notice now.
    pub fn on_attempt(&mut self, connected: bool) -> (log: bool)
        ensures
            log == (!connected && !old(self).logged),
            final(self).logged == !connected,
    {
        if connected {
            self.logged = false;
            false
        } else {
            let log = !self.logged;
            self.logged = true;
            log
        }
    }
}

// ── Connection strategies ───────────────────────────────────────────────────

/// A way of opening the device.
#[derive(Clone, Copy, PartialEq, Eq, Structural, Debug)]
pub enum ConnectStrategy {
    /// hidapi for writes and the native reader for reads (macOS).
    Hybrid,
    /// The native IOKit back-end alone (macOS).
    Native,
    /// hidapi alone.
    Hidapi,
}

pub open spec fn spec_connect_order(backend: HidBackend, macos: bool) -> Seq<ConnectStrategy> {
    if !macos {
        seq![ConnectStrategy::Hidapi]
    } else {
        match backend {
            HidBackend::Auto => seq![ConnectStrategy::Hybrid, ConnectStrategy::Native, ConnectStrategy::Hidapi],
            HidBackend::IOKit => seq![ConnectStrategy::Native],
            HidBackend::Hidapi => seq![ConnectStrategy::Hidapi],
        }
    }
}

/// The strategies tried in order until one connects: on macOS the
/// automatic choice tries the hybrid, then the native back-end, then
/// hidapi; a requested IOKit back-end is not replaced by hidapi; elsewhere
/// only hidapi exists.
pub fn connect_order(backend: HidBackend, macos: bool) -> (r: Vec<ConnectStrategy>)
    ensures
        r@ == spec_connect_order(backend, macos),
{
    if !macos {
        return vec![ConnectStrategy::Hidapi];
    }
    match backend {
        HidBackend::Auto => vec![ConnectStrategy::Hybrid, ConnectStrategy::Native, ConnectStrategy::Hidapi],
        HidBackend::IOKit => vec![ConnectStrategy::Native],
        HidBackend::Hidapi => vec![ConnectStrategy::Hidapi],
    }
}

} // verus!
