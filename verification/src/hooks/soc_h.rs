//! SocH — `android.sysprop.SocProperties`: SoC manufacturer and model.

use vstd::prelude::*;

use crate::config::TelephonyConfig;
use crate::hooks::{pair_strings, push_when_some};
use crate::property_map::{when_some, Writes};

verus! {

/// The properties this class reads, with the configured values.
pub open spec fn soc_props(c: TelephonyConfig) -> Writes {
    when_some(c.soc_manufacturer, seq!["ro.soc.manufacturer"@])
        + when_some(c.soc_model, seq!["ro.soc.model"@])
}

/// The properties to set for this class, in order.
pub fn build_property_map(config: &TelephonyConfig) -> (props: Vec<(String, String)>)
    ensures
        pair_strings(props@) == soc_props(*config),
{
    let mut props: Vec<(String, String)> = Vec::new();
    let ghost mut acc = Seq::<(Seq<char>, Seq<char>)>::empty();
    assert(pair_strings(props@) =~= acc);
    push_when_some(&mut props, &config.soc_manufacturer, &["ro.soc.manufacturer"]);
    proof {
        assert(seq!["ro.soc.manufacturer"].map_values(|k: &str| k@) =~= seq!["ro.soc.manufacturer"@]);
        acc = acc + when_some(config.soc_manufacturer, seq!["ro.soc.manufacturer"@]);
    }
    push_when_some(&mut props, &config.soc_model, &["ro.soc.model"]);
    proof {
        assert(seq!["ro.soc.model"].map_values(|k: &str| k@) =~= seq!["ro.soc.model"@]);
        acc = acc + when_some(config.soc_model, seq!["ro.soc.model"@]);
    }
    assert(acc =~= soc_props(*config));
    props
}

} // verus!
