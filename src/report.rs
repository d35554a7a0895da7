use vstd::prelude::*;

verus! {

/// Command code of the "get config data" request, echoed in its reply.
pub const CMD_GET_CONFIG_DATA: u8 = 130;

/// Code of an unsolicited status report.
pub const CMD_STATUS_FA: u8 = 0xFA;

/// Reports shorter than this carry no battery status.
pub const MIN_REPORT_LEN: usize = 9;

/// Index of the status byte: bit 7 is the charging flag, bits 0-6 the level.
pub const STATUS_OFFSET: usize = 8;

/// One battery reading: a level in percent and whether the device charges.
#[derive(Clone, Copy, Debug, PartialEq, Eq, Structural)]
pub struct BatteryState {
    pub percent: u8,
    pub charging: bool,
}

/// A reading is well formed when its level lies in 0..=100.
pub open spec fn valid_reading(b: BatteryState) -> bool {
    b.percent <= 100
}

/// The level that a status byte encodes: its low seven bits, saturated at 100.
pub open spec fn status_percent(raw: u8) -> u8 {
    let low = raw & 0x7f;
    if low > 100 { 100 } else { low }
}

/// The charging flag that a status byte encodes: its high bit.
pub open spec fn status_charging(raw: u8) -> bool {
    raw & 0x80 != 0
}

/// Whether a leading byte is one of the two codes that carry a status byte.
pub open spec fn is_status_code(code: u8) -> bool {
    code == CMD_GET_CONFIG_DATA || code == CMD_STATUS_FA
}

/// The reading that a report carries, if any.
pub open spec fn parse_report(r: Seq<u8>) -> Option<BatteryState> {
    if r.len() < MIN_REPORT_LEN || !is_status_code(r[0]) {
        None
    } else {
        let raw = r[STATUS_OFFSET as int];
        Some(BatteryState { percent: status_percent(raw), charging: status_charging(raw) })
    }
}

/// Reads the battery status out of a raw HID report; `None` for a report
/// that is too short or that starts with another code.
pub fn parse_battery(report: &[u8]) -> (r: Option<BatteryState>)
    ensures
        r == parse_report(report@),
        r matches Some(b) ==> valid_reading(b),
{
    if report.len() < MIN_REPORT_LEN {
        return None;
    }
    let cmd = report[0];
    if cmd != CMD_GET_CONFIG_DATA && cmd != CMD_STATUS_FA {
        return None;
    }
    let raw = report[STATUS_OFFSET];
    let charging = (raw & 0x80) != 0;
    let mut percent = raw & 0x7F;
    if percent > 100 {
        percent = 100;
    }
    Some(BatteryState { percent, charging })
}

/// A report shorter than the minimum length never yields a reading.
pub proof fn lemma_short_report_ignored(r: Seq<u8>)
    requires
        r.len() < MIN_REPORT_LEN,
    ensures
        parse_report(r) is None,
{
}

/// A report of full length whose leading byte is neither status code never
/// yields a reading.
pub proof fn lemma_foreign_code_ignored(r: Seq<u8>)
    requires
        r.len() >= MIN_REPORT_LEN,
        r[0] != CMD_GET_CONFIG_DATA,
        r[0] != CMD_STATUS_FA,
    ensures
        parse_report(r) is None,
{
}

} // verus!
