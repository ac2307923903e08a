//! The single-line-chart payload: one signed delta, and the optional stored
//! filter that can block deltas outside a configured range.

use vstd::prelude::*;
use crate::json::JsonValue;
use crate::json::JsonView;

verus! {

/// A decoded single-line-chart payload.
#[derive(Debug)]
pub struct SingleLineChart {
    pub value: i16,
}

/// A chart's stored delta filter: when enabled, deltas above `max_value` or
/// below `min_value` are dropped.
#[derive(Debug, Clone, Copy)]
pub struct SingleLineChartFilter {
    pub enabled: bool,
    pub max_value: Option<i64>,
    pub min_value: Option<i64>,
}

/// Whether a filter blocks a delta: only when enabled, and only when the
/// delta lies above the configured maximum or below the configured minimum.
pub open spec fn spec_should_block(filter: SingleLineChartFilter, value: int) -> bool {
    filter.enabled && ((match filter.max_value {
        Some(m) => value > m,
        None => false,
    }) || (match filter.min_value {
        Some(m) => value < m,
        None => false,
    }))
}

impl SingleLineChartFilter {
    /// Whether this filter blocks the payload's delta.
    pub fn should_block(&self, data: &SingleLineChart) -> (r: bool)
        ensures
            r == spec_should_block(*self, data.value as int),
    {
        if self.enabled {
            if let Some(max_value) = self.max_value {
                if (data.value as i64) > max_value {
                    return true;
                }
            }
            if let Some(min_value) = self.min_value {
                if (data.value as i64) < min_value {
                    return true;
                }
            }
        }
        false
    }
}

/// The delta a single-line-chart payload decodes to: the integer under
/// `value`, which must fit a signed 16-bit value; nothing otherwise.
pub open spec fn spec_decode_single_line_chart(v: JsonView) -> Option<i16> {
    match v.get("value"@) {
        Some(JsonView::Int(n)) => if i16::MIN <= n <= i16::MAX {
            Some(n as i16)
        } else {
            None
        },
        _ => None,
    }
}

/// Decodes a single-line-chart payload.
pub fn decode_single_line_chart(v: &JsonValue) -> (r: Option<SingleLineChart>)
    ensures
        match r {
            Some(p) => spec_decode_single_line_chart(v@) == Some(p.value),
            None => spec_decode_single_line_chart(v@) is None,
        },
{
    match v.get("value") {
        Some(field) => match field {
            JsonValue::Int(n) => {
                let n = *n;
                if i16::MIN as i64 <= n && n <= i16::MAX as i64 {
                    Some(SingleLineChart { value: n as i16 })
                } else {
                    None
                }
            },
            _ => None,
        },
        None => None,
    }
}

/// What an optional whole-number field decodes to: the outer `None` is a
/// decode failure, the inner option is the field's presence. A missing field
/// and an explicit null both decode to an absent value.
pub open spec fn spec_decode_opt_i64(v: JsonView, key: Seq<char>) -> Option<Option<i64>> {
    match v.get(key) {
        None => Some(None),
        Some(JsonView::Null) => Some(None),
        Some(JsonView::Int(n)) => if i64::MIN <= n <= i64::MAX {
            Some(Some(n as i64))
        } else {
            None
        },
        Some(_) => None,
    }
}

/// What a filter document decodes to: `enabled` must be a boolean and the
/// two bounds, when present, whole numbers; nothing otherwise.
pub open spec fn spec_decode_filter(v: JsonView) -> Option<SingleLineChartFilter> {
    match (v.get("enabled"@), spec_decode_opt_i64(v, "maxValue"@), spec_decode_opt_i64(
        v,
        "minValue"@,
    )) {
        (Some(JsonView::Bool(b)), Some(max_value), Some(min_value)) => Some(
            SingleLineChartFilter { enabled: b, max_value, min_value },
        ),
        _ => None,
    }
}

/// Decodes an optional whole-number field of a filter document.
fn decode_opt_i64(v: &JsonValue, key: &str) -> (r: Option<Option<i64>>)
    ensures
        r == spec_decode_opt_i64(v@, key@),
{
    match v.get(key) {
        None => Some(None),
        Some(field) => match field {
            JsonValue::Null => Some(None),
            JsonValue::Int(n) => Some(Some(*n)),
            _ => None,
        },
    }
}

/// Decodes a chart's stored filter document.
pub fn decode_filter(v: &JsonValue) -> (r: Option<SingleLineChartFilter>)
    ensures
        r == spec_decode_filter(v@),
{
    let enabled = match v.get("enabled") {
        Some(field) => match field {
            JsonValue::Bool(b) => Some(*b),
            _ => None,
        },
        None => None,
    };
    match (enabled, decode_opt_i64(v, "maxValue"), decode_opt_i64(v, "minValue")) {
        (Some(enabled), Some(max_value), Some(min_value)) => Some(
            SingleLineChartFilter { enabled, max_value, min_value },
        ),
        _ => None,
    }
}

} // verus!
