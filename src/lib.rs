//! Battery monitoring for a wireless mouse reached over USB HID: the report
//! parser, the device allowlist, the polling supervisor's state machine and
//! the status-indicator bitmap, each with its contract.

pub mod device;
pub mod icon;
pub mod report;
pub mod supervisor;
pub mod tooltip;

pub use report::{parse_battery, BatteryState, CMD_GET_CONFIG_DATA, CMD_STATUS_FA, MIN_REPORT_LEN, STATUS_OFFSET};
pub use icon::{argb_to_rgba, render_battery_icon_argb, ICON_SIZE};
pub use supervisor::{poll_interval, record_reading, Action, Event, Phase, Supervisor, BACKOFF_MS, FAST_POLL_MS, NORMAL_POLL_MS, QUIET_AFTER_MS, READ_TIMEOUT_MS};
pub use device::{candidate_order, get_config_request, is_supported_identity, PID_USB, PID_WIRELESS, VID};
pub use tooltip::{battery_tooltip, TOOLTIP_PREFIX, WAITING_TOOLTIP};
