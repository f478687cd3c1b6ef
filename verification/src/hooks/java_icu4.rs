//! JavaIcu4 — locale and timezone classes (`java.util.Locale`, `TelephonyNetwork`, `CountryTimeZones`).

use vstd::prelude::*;

use crate::config::TelephonyConfig;
use crate::hooks::{pair_strings, push_when_some};
use crate::property_map::{when_some, Writes};

verus! {

/// The properties this class reads, with the configured values.
pub open spec fn icu_props(c: TelephonyConfig) -> Writes {
    when_some(c.sim_country_iso, seq!["gsm.operator.iso-country"@, "ro.product.locale.region"@])
        + when_some(c.mcc, seq!["gsm.operator.mcc"@])
        + when_some(c.mnc, seq!["gsm.operator.mnc"@])
        + when_some(c.timezone, seq!["persist.sys.timezone"@])
}

/// The properties to set for this class, in order.
pub fn build_property_map(config: &TelephonyConfig) -> (props: Vec<(String, String)>)
    ensures
        pair_strings(props@) == icu_props(*config),
{
    let mut props: Vec<(String, String)> = Vec::new();
    let ghost mut acc = Seq::<(Seq<char>, Seq<char>)>::empty();
    assert(pair_strings(props@) =~= acc);
    push_when_some(&mut props, &config.sim_country_iso, &["gsm.operator.iso-country", "ro.product.locale.region"]);
    proof {
        assert(seq!["gsm.operator.iso-country", "ro.product.locale.region"].map_values(|k: &str| k@) =~= seq!["gsm.operator.iso-country"@, "ro.product.locale.region"@]);
        acc = acc + when_some(config.sim_country_iso, seq!["gsm.operator.iso-country"@, "ro.product.locale.region"@]);
    }
    push_when_some(&mut props, &config.mcc, &["gsm.operator.mcc"]);
    proof {
        assert(seq!["gsm.operator.mcc"].map_values(|k: &str| k@) =~= seq!["gsm.operator.mcc"@]);
        acc = acc + when_some(config.mcc, seq!["gsm.operator.mcc"@]);
    }
    push_when_some(&mut props, &config.mnc, &["gsm.operator.mnc"]);
    proof {
        assert(seq!["gsm.operator.mnc"].map_values(|k: &str| k@) =~= seq!["gsm.operator.mnc"@]);
        acc = acc + when_some(config.mnc, seq!["gsm.operator.mnc"@]);
    }
    push_when_some(&mut props, &config.timezone, &["persist.sys.timezone"]);
    proof {
        assert(seq!["persist.sys.timezone"].map_values(|k: &str| k@) =~= seq!["persist.sys.timezone"@]);
        acc = acc + when_some(config.timezone, seq!["persist.sys.timezone"@]);
    }
    assert(acc =~= icu_props(*config));
    props
}

} // verus!
