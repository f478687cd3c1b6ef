//! TmznH — `TelephonyTimeZoneSuggestion$Builder`: timezone properties.

use vstd::prelude::*;

use crate::config::TelephonyConfig;
use crate::hooks::{pair_strings, push_when_some};
use crate::property_map::{when_some, Writes};

verus! {

/// The properties this class reads, with the configured values.
pub open spec fn tmzn_props(c: TelephonyConfig) -> Writes {
    when_some(c.timezone, seq!["persist.sys.timezone"@])
}

/// The properties to set for this class, in order.
pub fn build_property_map(config: &TelephonyConfig) -> (props: Vec<(String, String)>)
    ensures
        pair_strings(props@) == tmzn_props(*config),
{
    let mut props: Vec<(String, String)> = Vec::new();
    let ghost mut acc = Seq::<(Seq<char>, Seq<char>)>::empty();
    assert(pair_strings(props@) =~= acc);
    push_when_some(&mut props, &config.timezone, &["persist.sys.timezone"]);
    proof {
        assert(seq!["persist.sys.timezone"].map_values(|k: &str| k@) =~= seq!["persist.sys.timezone"@]);
        acc = acc + when_some(config.timezone, seq!["persist.sys.timezone"@]);
    }
    assert(acc =~= tmzn_props(*config));
    props
}

} // verus!
