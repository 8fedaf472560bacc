//! Numeric flags and sentinel codes of the native API.

use vstd::prelude::*;

verus! {

/// Base value for user-defined error codes.
pub const ERROR_USER_DEFINED_BASE: u32 = 0x10000000;

/// Range-check the variable during scale conversion.
pub const CT_SCALE_RANGE_CHECK: u32 = 0x00000001;

/// Clamp the variable at its limits during scale conversion.
pub const CT_SCALE_CLAMP_LIMIT: u32 = 0x00000002;

/// Apply a noise factor on the limits during scale conversion.
pub const CT_SCALE_NOISE_FACTOR: u32 = 0x00000004;

/// Do not scale the variable.
pub const CT_FMT_NO_SCALE: u32 = 0x00000001;

/// Do not apply the format.
pub const CT_FMT_NO_FORMAT: u32 = 0x00000002;

/// Get the last value of the data.
pub const CT_FMT_LAST: u32 = 0x00000004;

/// Range-check the variable during formatting.
pub const CT_FMT_RANGE_CHECK: u32 = 0x00000008;

/// Scroll to the next record.
pub const CT_FIND_SCROLL_NEXT: u32 = 0x00000001;

/// Scroll to the previous record.
pub const CT_FIND_SCROLL_PREV: u32 = 0x00000002;

/// Scroll to the first record.
pub const CT_FIND_SCROLL_FIRST: u32 = 0x00000003;

/// Scroll to the last record.
pub const CT_FIND_SCROLL_LAST: u32 = 0x00000004;

/// Scroll to an absolute record.
pub const CT_FIND_SCROLL_ABSOLUTE: u32 = 0x00000005;

/// Scroll to a relative record.
pub const CT_FIND_SCROLL_RELATIVE: u32 = 0x00000006;

/// Open the connection with encryption.
pub const CT_OPEN_CRYPT: u32 = 0x00000001;

/// Reconnect automatically on failure.
pub const CT_OPEN_RECONNECT: u32 = 0x00000002;

/// Open the connection read-only.
pub const CT_OPEN_READ_ONLY: u32 = 0x00000004;

/// Open the connection in batch mode.
pub const CT_OPEN_BATCH: u32 = 0x00000008;

/// Create the list in event mode.
pub const CT_LIST_EVENT: u32 = 0x00000001;

/// Create the list in lightweight mode.
pub const CT_LIST_LIGHTWEIGHT_MODE: u32 = 0x00000002;

/// Report events for newly added tags.
pub const CT_LIST_EVENT_NEW: u32 = 0x00000001;

/// Report events for status changes.
pub const CT_LIST_EVENT_STATUS: u32 = 0x00000002;

/// Read the value item of a list entry.
pub const CT_LIST_VALUE: u32 = 0x00000001;

/// Read the timestamp item of a list entry.
pub const CT_LIST_TIMESTAMP: u32 = 0x00000002;

/// Read the value timestamp item of a list entry.
pub const CT_LIST_VALUE_TIMESTAMP: u32 = 0x00000003;

/// Read the quality timestamp item of a list entry.
pub const CT_LIST_QUALITY_TIMESTAMP: u32 = 0x00000004;

/// Read the general quality item of a list entry.
pub const CT_LIST_QUALITY_GENERAL: u32 = 0x00000005;

/// Read the quality substatus item of a list entry.
pub const CT_LIST_QUALITY_SUBSTATUS: u32 = 0x00000006;

/// Read the quality limit item of a list entry.
pub const CT_LIST_QUALITY_LIMIT: u32 = 0x00000007;

/// Read the extended quality substatus item of a list entry.
pub const CT_LIST_QUALITY_EXTENDED_SUBSTATUS: u32 = 0x00000008;

/// Read the quality data-source error item of a list entry.
pub const CT_LIST_QUALITY_DATASOURCE_ERROR: u32 = 0x00000009;

/// Read the quality override item of a list entry.
pub const CT_LIST_QUALITY_OVERRIDE: u32 = 0x0000000A;

/// Read the quality control-mode item of a list entry.
pub const CT_LIST_QUALITY_CONTROL_MODE: u32 = 0x0000000B;

/// Length of a property-name buffer.
pub const PROPERTY_NAME_LEN: u32 = 256;

} // verus!
