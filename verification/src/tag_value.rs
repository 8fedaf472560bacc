//! Value metadata records and the native type-code enumeration.

use vstd::prelude::*;

verus! {

/// Metadata returned beside a tag's value: timestamps and quality fields,
/// prefixed by the record length the native layer expects.
#[derive(Clone, Copy, Debug)]
pub struct CtTagValueItems {
    /// Record length announced to the native layer.
    pub length: u32,
    /// Timestamp of the read.
    pub timestamp: u64,
    /// Timestamp of the last value change.
    pub value_timestamp: u64,
    /// Timestamp of the last quality change.
    pub quality_timestamp: u64,
    /// General quality of the value.
    pub quality_general: u8,
    /// Quality substatus.
    pub quality_substatus: u8,
    /// Quality limit.
    pub quality_limit: u8,
    /// Extended quality substatus.
    pub quality_extended_substatus: u8,
    /// Data-source error code behind the quality.
    pub quality_datasource_error: u32,
    /// Whether the value is overridden.
    pub boverride: bool,
    /// Whether the point is in control mode.
    pub control_mode: bool,
}

impl CtTagValueItems {
    /// The record length announced to the native layer.
    pub fn length(&self) -> (r: u32)
        ensures
            r == self.length,
    {
        self.length
    }
}

impl Default for CtTagValueItems {
    /// A zeroed record announcing the native record length.
    fn default() -> (r: Self)
        ensures
            r.length == 38,
            r.timestamp == 0,
            r.value_timestamp == 0,
            r.quality_timestamp == 0,
            r.quality_general == 0,
            r.quality_substatus == 0,
            r.quality_limit == 0,
            r.quality_extended_substatus == 0,
            r.quality_datasource_error == 0,
            !r.boverride,
            !r.control_mode,
    {
        Self {
            length: 38,
            timestamp: 0,
            value_timestamp: 0,
            quality_timestamp: 0,
            quality_general: 0,
            quality_substatus: 0,
            quality_limit: 0,
            quality_extended_substatus: 0,
            quality_datasource_error: 0,
            boverride: false,
            control_mode: false,
        }
    }
}

/// Data-type codes of the native property interface.
#[derive(Clone, Copy, Debug)]
#[allow(non_camel_case_types)]
pub enum DBTYPEENUM {
    /// No value.
    DBTYPE_EMPTY,
    /// Null value.
    DBTYPE_NULL,
    /// Signed 16-bit integer.
    DBTYPE_I2,
    /// Signed 32-bit integer.
    DBTYPE_I4,
    /// 32-bit real.
    DBTYPE_R4,
    /// 64-bit real.
    DBTYPE_R8,
    /// Currency value.
    DBTYPE_CY,
    /// Date value.
    DBTYPE_DATE,
    /// String reference.
    DBTYPE_BSTR,
    /// Dispatch-interface pointer.
    DBTYPE_IDISPATCH,
    /// Error code.
    DBTYPE_ERROR,
    /// Boolean value.
    DBTYPE_BOOL,
    /// Variant value.
    DBTYPE_VARIANT,
    /// Unknown-interface pointer.
    DBTYPE_IUNKNOWN,
    /// Decimal value.
    DBTYPE_DECIMAL,
    /// Unsigned 8-bit integer.
    DBTYPE_UI1,
    /// Array marker.
    DBTYPE_ARRAY,
    /// By-reference marker.
    DBTYPE_BYREF,
    /// Signed 8-bit integer.
    DBTYPE_I1,
    /// Unsigned 16-bit integer.
    DBTYPE_UI2,
    /// Unsigned 32-bit integer.
    DBTYPE_UI4,
    /// Signed 64-bit integer.
    DBTYPE_I8,
    /// Unsigned 64-bit integer.
    DBTYPE_UI8,
    /// Globally unique identifier.
    DBTYPE_GUID,
    /// Vector marker.
    DBTYPE_VECTOR,
    /// Reserved marker.
    DBTYPE_RESERVED,
    /// Raw bytes.
    DBTYPE_BYTES,
    /// Zero-terminated character string.
    DBTYPE_STR,
    /// Zero-terminated wide-character string.
    DBTYPE_WSTR,
    /// Numeric value.
    DBTYPE_NUMERIC,
    /// User-defined type.
    DBTYPE_UDT,
    /// Date part.
    DBTYPE_DBDATE,
    /// Time part.
    DBTYPE_DBTIME,
    /// Date and time.
    DBTYPE_DBTIMESTAMP,
}

impl DBTYPEENUM {
    /// The numeric code of this type, as the native interface defines it.
    pub open spec fn spec_code(&self) -> u32 {
        match self {
            DBTYPEENUM::DBTYPE_EMPTY => 0,
            DBTYPEENUM::DBTYPE_NULL => 1,
            DBTYPEENUM::DBTYPE_I2 => 2,
            DBTYPEENUM::DBTYPE_I4 => 3,
            DBTYPEENUM::DBTYPE_R4 => 4,
            DBTYPEENUM::DBTYPE_R8 => 5,
            DBTYPEENUM::DBTYPE_CY => 6,
            DBTYPEENUM::DBTYPE_DATE => 7,
            DBTYPEENUM::DBTYPE_BSTR => 8,
            DBTYPEENUM::DBTYPE_IDISPATCH => 9,
            DBTYPEENUM::DBTYPE_ERROR => 10,
            DBTYPEENUM::DBTYPE_BOOL => 11,
            DBTYPEENUM::DBTYPE_VARIANT => 12,
            DBTYPEENUM::DBTYPE_IUNKNOWN => 13,
            DBTYPEENUM::DBTYPE_DECIMAL => 14,
            DBTYPEENUM::DBTYPE_UI1 => 17,
            DBTYPEENUM::DBTYPE_ARRAY => 0x2000,
            DBTYPEENUM::DBTYPE_BYREF => 0x4000,
            DBTYPEENUM::DBTYPE_I1 => 16,
            DBTYPEENUM::DBTYPE_UI2 => 18,
            DBTYPEENUM::DBTYPE_UI4 => 19,
            DBTYPEENUM::DBTYPE_I8 => 20,
            DBTYPEENUM::DBTYPE_UI8 => 21,
            DBTYPEENUM::DBTYPE_GUID => 72,
            DBTYPEENUM::DBTYPE_VECTOR => 0x1000,
            DBTYPEENUM::DBTYPE_RESERVED => 0x8000,
            DBTYPEENUM::DBTYPE_BYTES => 128,
            DBTYPEENUM::DBTYPE_STR => 129,
            DBTYPEENUM::DBTYPE_WSTR => 130,
            DBTYPEENUM::DBTYPE_NUMERIC => 131,
            DBTYPEENUM::DBTYPE_UDT => 132,
            DBTYPEENUM::DBTYPE_DBDATE => 133,
            DBTYPEENUM::DBTYPE_DBTIME => 134,
            DBTYPEENUM::DBTYPE_DBTIMESTAMP => 135,
        }
    }

    /// The numeric code of this type, as the native interface defines it.
    pub fn code(&self) -> (r: u32)
        ensures
            r == self.spec_code(),
    {
        match self {
            DBTYPEENUM::DBTYPE_EMPTY => 0,
            DBTYPEENUM::DBTYPE_NULL => 1,
            DBTYPEENUM::DBTYPE_I2 => 2,
            DBTYPEENUM::DBTYPE_I4 => 3,
            DBTYPEENUM::DBTYPE_R4 => 4,
            DBTYPEENUM::DBTYPE_R8 => 5,
            DBTYPEENUM::DBTYPE_CY => 6,
            DBTYPEENUM::DBTYPE_DATE => 7,
            DBTYPEENUM::DBTYPE_BSTR => 8,
            DBTYPEENUM::DBTYPE_IDISPATCH => 9,
            DBTYPEENUM::DBTYPE_ERROR => 10,
            DBTYPEENUM::DBTYPE_BOOL => 11,
            DBTYPEENUM::DBTYPE_VARIANT => 12,
            DBTYPEENUM::DBTYPE_IUNKNOWN => 13,
            DBTYPEENUM::DBTYPE_DECIMAL => 14,
            DBTYPEENUM::DBTYPE_UI1 => 17,
            DBTYPEENUM::DBTYPE_ARRAY => 0x2000,
            DBTYPEENUM::DBTYPE_BYREF => 0x4000,
            DBTYPEENUM::DBTYPE_I1 => 16,
            DBTYPEENUM::DBTYPE_UI2 => 18,
            DBTYPEENUM::DBTYPE_UI4 => 19,
            DBTYPEENUM::DBTYPE_I8 => 20,
            DBTYPEENUM::DBTYPE_UI8 => 21,
            DBTYPEENUM::DBTYPE_GUID => 72,
            DBTYPEENUM::DBTYPE_VECTOR => 0x1000,
            DBTYPEENUM::DBTYPE_RESERVED => 0x8000,
            DBTYPEENUM::DBTYPE_BYTES => 128,
            DBTYPEENUM::DBTYPE_STR => 129,
            DBTYPEENUM::DBTYPE_WSTR => 130,
            DBTYPEENUM::DBTYPE_NUMERIC => 131,
            DBTYPEENUM::DBTYPE_UDT => 132,
            DBTYPEENUM::DBTYPE_DBDATE => 133,
            DBTYPEENUM::DBTYPE_DBTIME => 134,
            DBTYPEENUM::DBTYPE_DBTIMESTAMP => 135,
        }
    }
}

} // verus!
