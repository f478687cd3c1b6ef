//! LocH — `android.location.Country`: country code and ISO.

use vstd::prelude::*;

use crate::config::TelephonyConfig;
use crate::hooks::{pair_strings, push_when_some};
use crate::property_map::{when_some, Writes};

verus! {

/// The properties this class reads, with the configured values.
pub open spec fn loc_props(c: TelephonyConfig) -> Writes {
    when_some(c.sim_country_iso, seq!["gsm.operator.iso-country"@, "gsm.sim.operator.iso-country"@])
}

/// The properties to set for this class, in order.
pub fn build_property_map(config: &TelephonyConfig) -> (props: Vec<(String, String)>)
    ensures
        pair_strings(props@) == loc_props(*config),
{
    let mut props: Vec<(String, String)> = Vec::new();
    let ghost mut acc = Seq::<(Seq<char>, Seq<char>)>::empty();
    assert(pair_strings(props@) =~= acc);
    push_when_some(&mut props, &config.sim_country_iso, &["gsm.operator.iso-country", "gsm.sim.operator.iso-country"]);
    proof {
        assert(seq!["gsm.operator.iso-country", "gsm.sim.operator.iso-country"].map_values(|k: &str| k@) =~= seq!["gsm.operator.iso-country"@, "gsm.sim.operator.iso-country"@]);
        acc = acc + when_some(config.sim_country_iso, seq!["gsm.operator.iso-country"@, "gsm.sim.operator.iso-country"@]);
    }
    assert(acc =~= loc_props(*config));
    props
}

} // verus!
