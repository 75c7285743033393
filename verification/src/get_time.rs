//! A tool that reports the current time as a Unix timestamp.
//!
//! The clock reading itself comes from the system and nothing can be
//! promised of it; everything that follows the reading — the rendered
//! report — is verified as a function of the seconds read.

use crate::json::{parse_json_or_empty, spec_parse_or_empty};
use crate::messages::{Tool, ToolView};
use crate::registry::ToolExecutor;
use crate::strings::{decimal_digits, u64_to_string};
use vstd::prelude::*;
use vstd::string::*;

verus! {

/// Reports the current date and time.
pub struct GetTimeTool;

/// Relies on `std::time::SystemTime::now` and
/// `duration_since(UNIX_EPOCH)`: the clock's whole seconds since the
/// Unix epoch, `None` where the clock reads earlier than the epoch.  A
/// clock reading depends on the machine and the moment, so no clause is
/// stated of the result.
#[verifier::external_body]
fn now_unix_seconds() -> Option<u64> {
    std::time::SystemTime::now().duration_since(std::time::UNIX_EPOCH).ok().map(|d| d.as_secs())
}

/// The input schema the tool advertises: an object with no properties.
pub open spec fn spec_time_schema() -> serde_json::Value {
    spec_parse_or_empty("{\"type\":\"object\",\"properties\":{},\"required\":[]}"@)
}

/// The report the tool returns for a clock reading of `secs` seconds.
pub open spec fn spec_time_report(secs: u64) -> Seq<char> {
    "Current Unix timestamp: "@ + decimal_digits(secs as nat) + " seconds since epoch"@
}

/// Render the report for a clock reading of `secs` seconds.
pub fn time_report(secs: u64) -> (r: String)
    ensures
        r@ == spec_time_report(secs),
{
    let mut s = String::from_str("Current Unix timestamp: ");
    let digits = u64_to_string(secs);
    s.append(digits.as_str());
    s.append(" seconds since epoch");
    proof {
        assert(s@ =~= spec_time_report(secs));
    }
    s
}

impl GetTimeTool {
    /// Create the tool.
    pub fn new() -> (t: GetTimeTool) {
        GetTimeTool
    }
}

impl Default for GetTimeTool {
    /// The default value is the tool itself.
    fn default() -> (t: Self)
        ensures
            t == GetTimeTool,
    {
        GetTimeTool::new()
    }
}

impl ToolExecutor for GetTimeTool {
    open spec fn spec_name(&self) -> Seq<char> {
        "get_current_time"@
    }

    /// Any input is accepted and ignored.  Success is the timestamp
    /// report of some clock reading; failure is exactly the pre-epoch
    /// message.
    open spec fn admits(&self, input: serde_json::Value, r: Result<Seq<char>, Seq<char>>) -> bool {
        match r {
            Ok(s) => exists|t: u64| s == spec_time_report(t),
            Err(m) => m == "system clock reads earlier than the Unix epoch"@,
        }
    }

    open spec fn spec_definition(&self) -> ToolView {
        ToolView {
            name: "get_current_time"@,
            description: "Get the current date and time. Use this when the user asks about the current time or date."@,
            input_schema: spec_time_schema(),
        }
    }

    fn name(&self) -> (r: String) {
        String::from_str("get_current_time")
    }

    fn definition(&self) -> (r: Tool) {
        let schema = parse_json_or_empty("{\"type\":\"object\",\"properties\":{},\"required\":[]}");
        Tool::new(
            "get_current_time",
            "Get the current date and time. Use this when the user asks about the current time or date.",
            schema,
        )
    }

    fn execute(&self, input: serde_json::Value) -> (r: Result<String, String>) {
        match now_unix_seconds() {
            Some(secs) => {
                let report = time_report(secs);
                proof {
                    assert(report@ == spec_time_report(secs));
                }
                Ok(report)
            },
            None => Err(String::from_str("system clock reads earlier than the Unix epoch")),
        }
    }
}

} // verus!
