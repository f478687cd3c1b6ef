//! SubH — `SubscriptionInfo`: subscription getters follow the selected SIM settings.

use vstd::prelude::*;

use crate::config::TelephonyConfig;
use crate::hooks::{pair_strings, push_when_some};
use crate::property_map::{when_some, Writes};

verus! {

/// The properties this class reads, with the configured values.
pub open spec fn sub_props(c: TelephonyConfig) -> Writes {
    when_some(c.iccid, seq!["persist.radio.iccid"@])
        + when_some(c.mcc, seq!["gsm.sim.operator.mcc"@])
        + when_some(c.mnc, seq!["gsm.sim.operator.mnc"@])
        + when_some(c.operator_name, seq!["gsm.sim.operator.alpha"@])
}

/// The properties to set for this class, in order.
pub fn build_property_map(config: &TelephonyConfig) -> (props: Vec<(String, String)>)
    ensures
        pair_strings(props@) == sub_props(*config),
{
    let mut props: Vec<(String, String)> = Vec::new();
    let ghost mut acc = Seq::<(Seq<char>, Seq<char>)>::empty();
    assert(pair_strings(props@) =~= acc);
    push_when_some(&mut props, &config.iccid, &["persist.radio.iccid"]);
    proof {
        assert(seq!["persist.radio.iccid"].map_values(|k: &str| k@) =~= seq!["persist.radio.iccid"@]);
        acc = acc + when_some(config.iccid, seq!["persist.radio.iccid"@]);
    }
    push_when_some(&mut props, &config.mcc, &["gsm.sim.operator.mcc"]);
    proof {
        assert(seq!["gsm.sim.operator.mcc"].map_values(|k: &str| k@) =~= seq!["gsm.sim.operator.mcc"@]);
        acc = acc + when_some(config.mcc, seq!["gsm.sim.operator.mcc"@]);
    }
    push_when_some(&mut props, &config.mnc, &["gsm.sim.operator.mnc"]);
    proof {
        assert(seq!["gsm.sim.operator.mnc"].map_values(|k: &str| k@) =~= seq!["gsm.sim.operator.mnc"@]);
        acc = acc + when_some(config.mnc, seq!["gsm.sim.operator.mnc"@]);
    }
    push_when_some(&mut props, &config.operator_name, &["gsm.sim.operator.alpha"]);
    proof {
        assert(seq!["gsm.sim.operator.alpha"].map_values(|k: &str| k@) =~= seq!["gsm.sim.operator.alpha"@]);
        acc = acc + when_some(config.operator_name, seq!["gsm.sim.operator.alpha"@]);
    }
    assert(acc =~= sub_props(*config));
    props
}

} // verus!
