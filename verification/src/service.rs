//! Service records: the store keys that locate them and the decoding of
//! their hash fields, including the JSON-encoded chart-id list.

use vstd::prelude::*;
use vstd::string::StrSliceExecFns;
use vstd::string::StringExecFns;
use crate::strutil::append_lowered;
use crate::strutil::append_u64;
use crate::strutil::is_dec_digit;
use crate::strutil::lower_seq;
use crate::strutil::pairs_get;
use crate::strutil::pairs_view;
use crate::strutil::parse_u16;
use crate::strutil::spec_dec_nat;
use crate::strutil::spec_parse_u64;
use crate::strutil::spec_pairs_get;
use crate::strutil::str_eq;

verus! {

/// One reporting service of a tenant.
#[derive(Debug, Clone)]
pub struct Service {
    pub id: u32,
    pub name: String,
    pub owner: String,
    pub software_id: u16,
    /// Whether this is a global pseudo-service, fed only by internal
    /// forwarding.
    pub global: bool,
    /// The ids of the charts this service reports into, in stored order.
    pub charts: Vec<u64>,
}

/// The shape of a service record.
#[verifier::ext_equal]
pub struct ServiceView {
    pub id: u32,
    pub name: Seq<char>,
    pub owner: Seq<char>,
    pub software_id: u16,
    pub global: bool,
    pub charts: Seq<u64>,
}

impl View for Service {
    type V = ServiceView;

    open spec fn view(&self) -> ServiceView {
        ServiceView {
            id: self.id,
            name: self.name@,
            owner: self.owner@,
            software_id: self.software_id,
            global: self.global,
            charts: self.charts@,
        }
    }
}

/// The configuration hash key of a service.
pub open spec fn spec_service_key(id: u32) -> Seq<char> {
    "plugins:"@ + spec_dec_nat(id as nat)
}

/// Builds the configuration hash key of a service.
pub fn service_key(id: u32) -> (r: String)
    ensures
        r@ == spec_service_key(id),
{
    let mut s = String::from_str("plugins:");
    append_u64(&mut s, id as u64);
    proof {
        assert(s@ =~= spec_service_key(id));
    }
    s
}

/// The secondary index key that maps a tenant url and a lowercased service
/// name to the service's id.
pub open spec fn spec_service_name_index_key(software_url: Seq<char>, name: Seq<char>) -> Seq<
    char,
> {
    "plugins.index.id.url+name:"@ + software_url + "."@ + lower_seq(name)
}

/// Builds the url-and-name secondary index key of a service.
pub fn service_name_index_key(software_url: &str, name: &str) -> (r: String)
    ensures
        r@ == spec_service_name_index_key(software_url@, name@),
{
    let mut s = String::from_str("plugins.index.id.url+name:");
    s.append(software_url);
    s.append(".");
    append_lowered(&mut s, name);
    proof {
        assert(s@ =~= spec_service_name_index_key(software_url@, name@));
    }
    s
}

/// Whether a character is JSON whitespace.
pub open spec fn spec_json_ws(c: char) -> bool {
    c == ' ' || c == '\t' || c == '\n' || c == '\r'
}

/// One step of reading a stored chart-id list, one character at a time.
///
/// The list is a JSON-style array of decimal numbers: optional whitespace,
/// `[`, comma-separated runs of digits (each fitting an unsigned 64-bit
/// value), `]`, optional whitespace. The walk states are: 0 before the
/// opening bracket, 1 expecting the first number or an immediate close, 2
/// inside a digit run (with `cur` its value so far), 3 between a number and
/// the following comma or close, 4 expecting a number after a comma, and 5
/// after the closing bracket.
pub open spec fn spec_id_list_run(
    s: Seq<char>,
    i: int,
    state: int,
    cur: int,
    acc: Seq<u64>,
) -> Option<Seq<u64>>
    decreases s.len() - i,
{
    if i < 0 || i >= s.len() {
        if state == 5 {
            Some(acc)
        } else {
            None
        }
    } else {
        let c = s[i];
        let d = c as u32 - 48;
        if state == 0 {
            if spec_json_ws(c) {
                spec_id_list_run(s, i + 1, 0, cur, acc)
            } else if c == '[' {
                spec_id_list_run(s, i + 1, 1, cur, acc)
            } else {
                None
            }
        } else if state == 1 {
            if spec_json_ws(c) {
                spec_id_list_run(s, i + 1, 1, cur, acc)
            } else if is_dec_digit(c) {
                spec_id_list_run(s, i + 1, 2, d as int, acc)
            } else if c == ']' {
                spec_id_list_run(s, i + 1, 5, cur, acc)
            } else {
                None
            }
        } else if state == 2 {
            if is_dec_digit(c) {
                if cur * 10 + d <= u64::MAX {
                    spec_id_list_run(s, i + 1, 2, cur * 10 + d, acc)
                } else {
                    None
                }
            } else if spec_json_ws(c) {
                spec_id_list_run(s, i + 1, 3, 0, acc.push(cur as u64))
            } else if c == ',' {
                spec_id_list_run(s, i + 1, 4, 0, acc.push(cur as u64))
            } else if c == ']' {
                spec_id_list_run(s, i + 1, 5, 0, acc.push(cur as u64))
            } else {
                None
            }
        } else if state == 3 {
            if spec_json_ws(c) {
                spec_id_list_run(s, i + 1, 3, cur, acc)
            } else if c == ',' {
                spec_id_list_run(s, i + 1, 4, cur, acc)
            } else if c == ']' {
                spec_id_list_run(s, i + 1, 5, cur, acc)
            } else {
                None
            }
        } else if state == 4 {
            if spec_json_ws(c) {
                spec_id_list_run(s, i + 1, 4, cur, acc)
            } else if is_dec_digit(c) {
                spec_id_list_run(s, i + 1, 2, d as int, acc)
            } else {
                None
            }
        } else if state == 5 {
            if spec_json_ws(c) {
                spec_id_list_run(s, i + 1, 5, cur, acc)
            } else {
                None
            }
        } else {
            None
        }
    }
}

/// What a stored chart-id list decodes to, or nothing when the text is not
/// such a list.
pub open spec fn spec_parse_chart_ids(s: Seq<char>) -> Option<Seq<u64>> {
    spec_id_list_run(s, 0, 0, 0, Seq::empty())
}

/// Whether a character is JSON whitespace.
fn json_ws(c: char) -> (r: bool)
    ensures
        r == spec_json_ws(c),
{
    c == ' ' || c == '\t' || c == '\n' || c == '\r'
}

/// Decodes a stored chart-id list.
pub fn parse_chart_ids(s: &str) -> (r: Option<Vec<u64>>)
    ensures
        match r {
            Some(ids) => spec_parse_chart_ids(s@) == Some(ids@),
            None => spec_parse_chart_ids(s@) is None,
        },
{
    let len = s.unicode_len();
    let mut state: u8 = 0;
    let mut cur: u64 = 0;
    let mut acc: Vec<u64> = Vec::new();
    let mut i: usize = 0;
    while i < len
        invariant
            0 <= i <= len,
            len == s@.len(),
            0 <= state <= 5,
            spec_parse_chart_ids(s@) == spec_id_list_run(
                s@,
                i as int,
                state as int,
                cur as int,
                acc@,
            ),
        decreases len - i,
    {
        let c = s.get_char(i);
        let code = c as u32;
        let digit = 48 <= code && code <= 57;
        if state == 0 {
            if json_ws(c) {
            } else if c == '[' {
                state = 1;
            } else {
                return None;
            }
        } else if state == 1 {
            if json_ws(c) {
            } else if digit {
                state = 2;
                cur = (code - 48) as u64;
            } else if c == ']' {
                state = 5;
            } else {
                return None;
            }
        } else if state == 2 {
            if digit {
                let d = (code - 48) as u64;
                let next = match cur.checked_mul(10) {
                    Some(t) => t.checked_add(d),
                    None => None,
                };
                match next {
                    Some(v) => {
                        cur = v;
                    },
                    None => {
                        return None;
                    },
                }
            } else if json_ws(c) {
                acc.push(cur);
                cur = 0;
                state = 3;
            } else if c == ',' {
                acc.push(cur);
                cur = 0;
                state = 4;
            } else if c == ']' {
                acc.push(cur);
                cur = 0;
                state = 5;
            } else {
                return None;
            }
        } else if state == 3 {
            if json_ws(c) {
            } else if c == ',' {
                state = 4;
            } else if c == ']' {
                state = 5;
            } else {
                return None;
            }
        } else if state == 4 {
            if json_ws(c) {
            } else if digit {
                state = 2;
                cur = (code - 48) as u64;
            } else {
                return None;
            }
        } else {
            if json_ws(c) {
            } else {
                return None;
            }
        }
        i = i + 1;
    }
    if state == 5 {
        Some(acc)
    } else {
        None
    }
}

/// What a service's hash fields decode to: `name`, `owner`, a numeric
/// `software`, the `global` flag (any value other than a missing field or
/// `0` counts as set), and the chart-id list under `charts`. A record
/// missing a required field, or holding one that does not decode, resolves
/// to nothing.
pub open spec fn spec_service_from_hash(id: u32, h: Seq<(Seq<char>, Seq<char>)>) -> Option<
    ServiceView,
> {
    match (
        spec_pairs_get(h, "name"@),
        spec_pairs_get(h, "owner"@),
        spec_pairs_get(h, "software"@),
        spec_pairs_get(h, "charts"@),
    ) {
        (Some(name), Some(owner), Some(software), Some(charts_text)) => match (
            spec_parse_u64(software),
            spec_parse_chart_ids(charts_text),
        ) {
            (Some(software_id), Some(charts)) => if software_id <= u16::MAX {
                Some(
                    ServiceView {
                        id,
                        name,
                        owner,
                        software_id: software_id as u16,
                        global: match spec_pairs_get(h, "global"@) {
                            Some(flag) => flag != "0"@,
                            None => false,
                        },
                        charts,
                    },
                )
            } else {
                None
            },
            _ => None,
        },
        _ => None,
    }
}

/// Decodes a service's hash fields.
pub fn service_from_hash(id: u32, fields: &Vec<(String, String)>) -> (r: Option<Service>)
    ensures
        match r {
            Some(service) => spec_service_from_hash(id, pairs_view(fields@)) == Some(service@),
            None => spec_service_from_hash(id, pairs_view(fields@)) is None,
        },
{
    let name = match pairs_get(fields, "name") {
        Some(v) => v.clone(),
        None => {
            return None;
        },
    };
    let owner = match pairs_get(fields, "owner") {
        Some(v) => v.clone(),
        None => {
            return None;
        },
    };
    let software_id = match pairs_get(fields, "software") {
        Some(v) => match parse_u16(v.as_str()) {
            Some(n) => n,
            None => {
                return None;
            },
        },
        None => {
            return None;
        },
    };
    let charts = match pairs_get(fields, "charts") {
        Some(v) => match parse_chart_ids(v.as_str()) {
            Some(ids) => ids,
            None => {
                return None;
            },
        },
        None => {
            return None;
        },
    };
    let global = match pairs_get(fields, "global") {
        Some(v) => !str_eq(v.as_str(), "0"),
        None => false,
    };
    Some(Service { id, name, owner, software_id, global, charts })
}

} // verus!
