//! Telephony, SIM and device identification spoofing.
//!
//! Each submodule covers one Android class; the spoofing itself is done
//! through system properties, and each submodule says which properties its
//! class reads.

pub mod air_h;
pub mod dev_h;
pub mod java_icu4;
pub mod loc_h;
pub mod sim_h;
pub mod soc_h;
pub mod sub_h;
pub mod tele_sh;
pub mod ten_h;
pub mod tmzn_h;

use vstd::prelude::*;

use crate::config::TelephonyConfig;
use crate::property_map::{strings_of, when_some, Writes};

verus! {

/// Property pairs seen by their characters.
pub open spec fn pair_strings(v: Seq<(String, String)>) -> Writes {
    v.map_values(|p: (String, String)| (p.0@, p.1@))
}

/// Appends `(key, value)` for each key when `value` is set.
pub(crate) fn push_when_some(props: &mut Vec<(String, String)>, value: &Option<String>, keys: &[&str])
    ensures
        pair_strings(final(props)@) == pair_strings(old(props)@) + when_some(
            *value,
            keys@.map_values(|k: &str| k@),
        ),
{
    let ghost ks = keys@.map_values(|k: &str| k@);
    match value {
        Some(v) => {
            let ghost o = props@;
            let n = keys.len();
            let mut i: usize = 0;
            while i < n
                invariant
                    n == keys@.len(),
                    ks == keys@.map_values(|k: &str| k@),
                    value == Some(*v),
                    0 <= i <= n,
                    pair_strings(props@) == pair_strings(o) + when_some(*value, ks.take(i as int)),
                decreases n - i,
            {
                let ghost prev = props@;
                props.push((keys[i].to_owned(), v.clone()));
                assert(pair_strings(props@) =~= pair_strings(prev).push((ks[i as int], v@)));
                assert(when_some(*value, ks.take(i + 1)) =~= when_some(*value, ks.take(i as int)).push(
                    (ks[i as int], v@),
                ));
                i = i + 1;
            }
            assert(ks.take(n as int) =~= ks);
        },
        None => {
            assert(pair_strings(props@) + Seq::<(Seq<char>, Seq<char>)>::empty() =~= pair_strings(props@));
        },
    }
}

/// All telephony properties of the per-class modules, in module order.
pub open spec fn all_telephony_props(c: TelephonyConfig) -> Writes {
    sim_h::sim_props(c) + sub_h::sub_props(c) + ten_h::ten_props(c) + loc_h::loc_props(c)
        + tmzn_h::tmzn_props(c) + java_icu4::icu_props(c) + soc_h::soc_props(c)
        + air_h::air_props(c) + dev_h::dev_props(c)
}

fn extend(props: &mut Vec<(String, String)>, more: Vec<(String, String)>)
    ensures
        pair_strings(final(props)@) == pair_strings(old(props)@) + pair_strings(more@),
{
    let ghost o = props@;
    let n = more.len();
    let mut i: usize = 0;
    while i < n
        invariant
            n == more@.len(),
            0 <= i <= n,
            pair_strings(props@) == pair_strings(o) + pair_strings(more@.take(i as int)),
        decreases n - i,
    {
        let ghost prev = props@;
        let k = more[i].0.clone();
        let v = more[i].1.clone();
        props.push((k, v));
        assert(pair_strings(props@) =~= pair_strings(prev).push((more@[i as int].0@, more@[i as int].1@)));
        assert(pair_strings(more@.take(i + 1)) =~= pair_strings(more@.take(i as int)).push(
            (more@[i as int].0@, more@[i as int].1@),
        ));
        i = i + 1;
    }
    assert(more@.take(n as int) =~= more@);
}

/// Build all telephony-related properties to add to the spoof map.
pub fn build_all_telephony_props(config: &TelephonyConfig) -> (props: Vec<(String, String)>)
    ensures
        pair_strings(props@) == all_telephony_props(*config),
{
    let mut props: Vec<(String, String)> = Vec::new();
    assert(pair_strings(props@) =~= Seq::<(Seq<char>, Seq<char>)>::empty());
    extend(&mut props, sim_h::build_property_map(config));
    assert(pair_strings(props@) =~= sim_h::sim_props(*config));
    extend(&mut props, sub_h::build_property_map(config));
    extend(&mut props, ten_h::build_property_map(config));
    extend(&mut props, loc_h::build_property_map(config));
    extend(&mut props, tmzn_h::build_property_map(config));
    extend(&mut props, java_icu4::build_property_map(config));
    extend(&mut props, soc_h::build_property_map(config));
    extend(&mut props, air_h::build_property_map(config));
    extend(&mut props, dev_h::build_property_map(config));
    props
}

} // verus!
