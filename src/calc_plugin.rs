//! The calculator plugin: evaluates the query as an arithmetic expression.
use vstd::prelude::*;
use crate::plugin::{
    check_interface_version, common_interface_version, identifies, is_plain_row, plain_row,
    version_mismatch_message, Plugin, PluginResult,
};
use crate::row::{PuszRow, PuszRowIdentifier};

verus! {

/// Why evaluating `expr` fails, or `None` where it has a value. Whether an
/// expression parses and names only known functions and constants depends
/// on its text alone; the value itself is floating point and is not named.
pub uninterp spec fn evaluation_error(expr: Seq<char>) -> Option<Seq<char>>;

/// Relies on meval::eval_str: evaluates an arithmetic expression; the value
/// is rendered with `to_string`, a failure with its `Debug` form.
#[verifier::external_body]
fn evaluate(expr: &str) -> (r: Result<String, String>)
    ensures
        r is Err <==> evaluation_error(expr@) is Some,
        r matches Err(e) ==> evaluation_error(expr@) == Some(e@),
{
    match meval::eval_str(expr) {
        Ok(v) => Ok(v.to_string()),
        Err(e) => Err(format!("{:?}", e)),
    }
}

/// The name under which the calculator answers.
pub const CALC_PLUGIN_NAME: &'static str = "calc";

pub open spec fn calc_plugin_name() -> Seq<char> {
    seq!['c', 'a', 'l', 'c']
}

#[derive(Debug)]
pub struct CalcPlugin {}

impl CalcPlugin {
    /// The calculator, where the host speaks the same interface version.
    pub fn load(plugin_interface_version: &str) -> (r: Result<CalcPlugin, String>)
        ensures
            r is Ok <==> plugin_interface_version@ == common_interface_version(),
            r matches Err(m) ==> m@ == version_mismatch_message(
                common_interface_version(),
                plugin_interface_version@,
            ),
    {
        match check_interface_version(plugin_interface_version) {
            Ok(()) => Ok(CalcPlugin {}),
            Err(m) => Err(m),
        }
    }

    /// The name under which the calculator answers.
    pub fn plugin_name() -> (r: &'static str)
        ensures
            r@ == calc_plugin_name(),
    {
        proof {
            reveal_strlit("calc");
            assert(CALC_PLUGIN_NAME@ =~= calc_plugin_name());
        }
        CALC_PLUGIN_NAME
    }

    /// One plain row with the value of `query`, or the evaluation's error.
    pub fn answer(&self, query: &str) -> (r: PluginResult)
        ensures
            match evaluation_error(query@) {
                None => r matches PluginResult::Rows(rows) && rows@.len() == 1 && is_plain_row(
                    rows@[0],
                    rows@[0].main_entry.content@,
                ) && identifies(
                    rows@[0].identifier,
                    calc_plugin_name(),
                    rows@[0].main_entry.content@,
                ),
                Some(e) => r matches PluginResult::Error(m) && m@ == e,
            },
    {
        proof {
            reveal_strlit("calc");
            assert(CALC_PLUGIN_NAME@ =~= calc_plugin_name());
        }
        match evaluate(query) {
            Ok(value) => {
                let id = PuszRowIdentifier::new(CALC_PLUGIN_NAME, value.clone());
                let mut rows: Vec<PuszRow> = Vec::new();
                rows.push(plain_row(value, id));
                PluginResult::Rows(rows)
            },
            Err(e) => PluginResult::Error(e),
        }
    }
}

impl Plugin for CalcPlugin {
    fn query(&mut self, query: &str) -> PluginResult {
        self.answer(query)
    }

    fn name(&self) -> &'static str {
        CalcPlugin::plugin_name()
    }
}

} // verus!
