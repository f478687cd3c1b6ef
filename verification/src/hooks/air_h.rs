//! AirH — airplane mode: `Settings.Global.AIRPLANE_MODE_ON` always reads as off.

use vstd::prelude::*;

use crate::config::TelephonyConfig;
use crate::hooks::pair_strings;
use crate::property_map::{when_flag, Writes};

verus! {

/// The properties AirH sets.
pub open spec fn air_props(c: TelephonyConfig) -> Writes {
    when_flag(c.hide_airplane_mode, "persist.sys.airplane_mode_on"@)
}

/// The properties to set for AirH: the airplane mode flag forced to `0` when
/// airplane mode is to be hidden.
pub fn build_property_map(config: &TelephonyConfig) -> (props: Vec<(String, String)>)
    ensures
        pair_strings(props@) == air_props(*config),
{
    let mut props: Vec<(String, String)> = Vec::new();
    if config.hide_airplane_mode {
        props.push(("persist.sys.airplane_mode_on".to_owned(), "0".to_owned()));
    }
    assert(pair_strings(props@) =~= air_props(*config));
    props
}

} // verus!
