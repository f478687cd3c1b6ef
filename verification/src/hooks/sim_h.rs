//! SimH — `TelephonyManager.getSimSerialNumber()`: the SIM serial number is
//! served from system properties.

use vstd::prelude::*;

use crate::config::TelephonyConfig;
use crate::hooks::{pair_strings, push_when_some};
use crate::property_map::{when_some, Writes};

verus! {

/// The properties SimH sets.
pub open spec fn sim_props(c: TelephonyConfig) -> Writes {
    when_some(c.sim_serial, seq!["persist.radio.iccid"@])
}

/// The properties SimH sets, in order.
pub fn build_property_map(config: &TelephonyConfig) -> (props: Vec<(String, String)>)
    ensures
        pair_strings(props@) == sim_props(*config),
{
    let mut props: Vec<(String, String)> = Vec::new();
    let ghost e = pair_strings(props@);
    push_when_some(&mut props, &config.sim_serial, &["persist.radio.iccid"]);
    proof {
        assert(e =~= Seq::<(Seq<char>, Seq<char>)>::empty());
        assert(seq!["persist.radio.iccid"].map_values(|k: &str| k@) =~= seq!["persist.radio.iccid"@]);
        assert(e + sim_props(*config) =~= sim_props(*config));
    }
    props
}

} // verus!
