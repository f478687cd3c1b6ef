//! TenH — `android.timezone.TelephonyNetwork`: country ISO code, MCC and MNC.

use vstd::prelude::*;

use crate::config::TelephonyConfig;
use crate::hooks::{pair_strings, push_when_some};
use crate::property_map::{when_some, Writes};

verus! {

/// The properties this class reads, with the configured values.
pub open spec fn ten_props(c: TelephonyConfig) -> Writes {
    when_some(c.sim_country_iso, seq!["gsm.operator.iso-country"@])
        + when_some(c.mcc, seq!["gsm.operator.mcc"@])
        + when_some(c.mnc, seq!["gsm.operator.mnc"@])
}

/// The properties to set for this class, in order.
pub fn build_property_map(config: &TelephonyConfig) -> (props: Vec<(String, String)>)
    ensures
        pair_strings(props@) == ten_props(*config),
{
    let mut props: Vec<(String, String)> = Vec::new();
    let ghost mut acc = Seq::<(Seq<char>, Seq<char>)>::empty();
    assert(pair_strings(props@) =~= acc);
    push_when_some(&mut props, &config.sim_country_iso, &["gsm.operator.iso-country"]);
    proof {
        assert(seq!["gsm.operator.iso-country"].map_values(|k: &str| k@) =~= seq!["gsm.operator.iso-country"@]);
        acc = acc + when_some(config.sim_country_iso, seq!["gsm.operator.iso-country"@]);
    }
    push_when_some(&mut props, &config.mcc, &["gsm.operator.mcc"]);
    proof {
        assert(seq!["gsm.operator.mcc"].map_values(|k: &str| k@) =~= seq!["gsm.operator.mcc"@]);
        acc = acc + when_some(config.mcc, seq!["gsm.operator.mcc"@]);
    }
    push_when_some(&mut props, &config.mnc, &["gsm.operator.mnc"]);
    proof {
        assert(seq!["gsm.operator.mnc"].map_values(|k: &str| k@) =~= seq!["gsm.operator.mnc"@]);
        acc = acc + when_some(config.mnc, seq!["gsm.operator.mnc"@]);
    }
    assert(acc =~= ten_props(*config));
    props
}

} // verus!
