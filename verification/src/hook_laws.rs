//! Laws of the per-class telephony property lists: each class sets the keys
//! it reads to the configured values, and nothing else.

use vstd::prelude::*;

use crate::config::TelephonyConfig;
use crate::hooks::{air_h, dev_h, java_icu4, loc_h, sim_h, soc_h, sub_h, ten_h, tmzn_h};
use crate::keyed_map::has_key;
use crate::property_laws::{lemma_has_key_concat, lemma_writes_for_has_key};
use crate::property_map::{when_some, Writes};

verus! {

/// In `ws`, `key` is set exactly when `v` is present, and every assignment to
/// it gives `v`.
pub open spec fn sets_key_to(ws: Writes, key: Seq<char>, v: Option<String>) -> bool {
    &&& has_key(ws, key) == v is Some
    &&& forall|i: int| 0 <= i < ws.len() && #[trigger] ws[i].0 == key ==> ws[i].1 == v->0@
}

proof fn lemma_when_some_sets(v: Option<String>, keys: Seq<Seq<char>>, key: Seq<char>, i: int)
    requires
        0 <= i < keys.len(),
        keys[i] == key,
    ensures
        sets_key_to(when_some(v, keys), key, v),
{
    if let Some(s) = v {
        lemma_writes_for_has_key(keys, s@, key);
    }
}

proof fn lemma_when_some_keys(v: Option<String>, keys: Seq<Seq<char>>, key: Seq<char>)
    ensures
        has_key(when_some(v, keys), key) ==> keys.contains(key),
{
    if let Some(s) = v {
        lemma_writes_for_has_key(keys, s@, key);
    }
}

proof fn lemma_sets_concat(a: Writes, b: Writes, key: Seq<char>, v: Option<String>)
    requires
        (sets_key_to(a, key, v) && !has_key(b, key)) || (!has_key(a, key) && sets_key_to(b, key, v)),
    ensures
        sets_key_to(a + b, key, v),
{
    lemma_has_key_concat(a, b, key);
    assert forall|i: int| 0 <= i < (a + b).len() && #[trigger] (a + b)[i].0 == key implies (a + b)[i].1
        == v->0@ by {
        if i < a.len() {
            assert((a + b)[i] == a[i]);
            assert(has_key(a, key));
        } else {
            assert((a + b)[i] == b[i - a.len()]);
            assert(has_key(b, key));
        }
    }
}

proof fn lemma_no_key_concat(a: Writes, b: Writes, key: Seq<char>)
    requires
        !has_key(a, key),
        !has_key(b, key),
    ensures
        !has_key(a + b, key),
{
    lemma_has_key_concat(a, b, key);
}

/// SimH sets `persist.radio.iccid` (sim_serial) to the configured values, each when it is set,
/// and no other key.
pub proof fn lemma_sim_h_sets_configured_values(c: TelephonyConfig)
    ensures
        sets_key_to(sim_h::sim_props(c), "persist.radio.iccid"@, c.sim_serial),
        forall|k: Seq<char>| has_key(sim_h::sim_props(c), k) ==> k == "persist.radio.iccid"@,
{
    reveal_strlit("persist.radio.iccid");
    let ks0 = seq!["persist.radio.iccid"@];
    let s0 = when_some(c.sim_serial, ks0);
    assert(sim_h::sim_props(c) == s0);
    // persist.radio.iccid
    lemma_when_some_sets(c.sim_serial, ks0, "persist.radio.iccid"@, 0);
    assert forall|k: Seq<char>| has_key(sim_h::sim_props(c), k) implies
        k == "persist.radio.iccid"@ by {
        lemma_when_some_keys(c.sim_serial, ks0, k);
        if ks0.contains(k) {
            let i = choose|i: int| 0 <= i < 1 && ks0[i] == k;
            assert(i == 0);
        }
    }
}

/// SubH sets `persist.radio.iccid` (iccid), `gsm.sim.operator.mcc` (mcc),
/// `gsm.sim.operator.mnc` (mnc), `gsm.sim.operator.alpha` (operator_name) to the configured
/// values, each when it is set, and no other key.
pub proof fn lemma_sub_h_sets_configured_values(c: TelephonyConfig)
    ensures
        sets_key_to(sub_h::sub_props(c), "persist.radio.iccid"@, c.iccid),
        sets_key_to(sub_h::sub_props(c), "gsm.sim.operator.mcc"@, c.mcc),
        sets_key_to(sub_h::sub_props(c), "gsm.sim.operator.mnc"@, c.mnc),
        sets_key_to(sub_h::sub_props(c), "gsm.sim.operator.alpha"@, c.operator_name),
        forall|k: Seq<char>| has_key(sub_h::sub_props(c), k) ==> k == "persist.radio.iccid"@
            || k == "gsm.sim.operator.mcc"@
            || k == "gsm.sim.operator.mnc"@
            || k == "gsm.sim.operator.alpha"@,
{
    reveal_strlit("gsm.sim.operator.alpha");
    reveal_strlit("gsm.sim.operator.mcc");
    reveal_strlit("gsm.sim.operator.mnc");
    reveal_strlit("persist.radio.iccid");
    assert("persist.radio.iccid"@.len() != "gsm.sim.operator.mcc"@.len());
    assert("persist.radio.iccid"@.len() != "gsm.sim.operator.mnc"@.len());
    assert("persist.radio.iccid"@.len() != "gsm.sim.operator.alpha"@.len());
    assert("gsm.sim.operator.mcc"@[18] != "gsm.sim.operator.mnc"@[18]);
    assert("gsm.sim.operator.mcc"@.len() != "gsm.sim.operator.alpha"@.len());
    assert("gsm.sim.operator.mnc"@.len() != "gsm.sim.operator.alpha"@.len());
    let ks0 = seq!["persist.radio.iccid"@];
    let s0 = when_some(c.iccid, ks0);
    let ks1 = seq!["gsm.sim.operator.mcc"@];
    let s1 = when_some(c.mcc, ks1);
    let ks2 = seq!["gsm.sim.operator.mnc"@];
    let s2 = when_some(c.mnc, ks2);
    let ks3 = seq!["gsm.sim.operator.alpha"@];
    let s3 = when_some(c.operator_name, ks3);
    assert(sub_h::sub_props(c) == s0 + s1 + s2 + s3);
    // persist.radio.iccid
    lemma_when_some_sets(c.iccid, ks0, "persist.radio.iccid"@, 0);
    lemma_when_some_keys(c.mcc, ks1, "persist.radio.iccid"@);
    lemma_when_some_keys(c.mnc, ks2, "persist.radio.iccid"@);
    lemma_when_some_keys(c.operator_name, ks3, "persist.radio.iccid"@);
    lemma_sets_concat(s0, s1, "persist.radio.iccid"@, c.iccid);
    lemma_sets_concat(s0 + s1, s2, "persist.radio.iccid"@, c.iccid);
    lemma_sets_concat(s0 + s1 + s2, s3, "persist.radio.iccid"@, c.iccid);
    // gsm.sim.operator.mcc
    lemma_when_some_keys(c.iccid, ks0, "gsm.sim.operator.mcc"@);
    lemma_when_some_sets(c.mcc, ks1, "gsm.sim.operator.mcc"@, 0);
    lemma_when_some_keys(c.mnc, ks2, "gsm.sim.operator.mcc"@);
    lemma_when_some_keys(c.operator_name, ks3, "gsm.sim.operator.mcc"@);
    lemma_sets_concat(s0, s1, "gsm.sim.operator.mcc"@, c.mcc);
    lemma_sets_concat(s0 + s1, s2, "gsm.sim.operator.mcc"@, c.mcc);
    lemma_sets_concat(s0 + s1 + s2, s3, "gsm.sim.operator.mcc"@, c.mcc);
    // gsm.sim.operator.mnc
    lemma_when_some_keys(c.iccid, ks0, "gsm.sim.operator.mnc"@);
    lemma_when_some_keys(c.mcc, ks1, "gsm.sim.operator.mnc"@);
    lemma_when_some_sets(c.mnc, ks2, "gsm.sim.operator.mnc"@, 0);
    lemma_when_some_keys(c.operator_name, ks3, "gsm.sim.operator.mnc"@);
    lemma_no_key_concat(s0, s1, "gsm.sim.operator.mnc"@);
    lemma_sets_concat(s0 + s1, s2, "gsm.sim.operator.mnc"@, c.mnc);
    lemma_sets_concat(s0 + s1 + s2, s3, "gsm.sim.operator.mnc"@, c.mnc);
    // gsm.sim.operator.alpha
    lemma_when_some_keys(c.iccid, ks0, "gsm.sim.operator.alpha"@);
    lemma_when_some_keys(c.mcc, ks1, "gsm.sim.operator.alpha"@);
    lemma_when_some_keys(c.mnc, ks2, "gsm.sim.operator.alpha"@);
    lemma_when_some_sets(c.operator_name, ks3, "gsm.sim.operator.alpha"@, 0);
    lemma_no_key_concat(s0, s1, "gsm.sim.operator.alpha"@);
    lemma_no_key_concat(s0 + s1, s2, "gsm.sim.operator.alpha"@);
    lemma_sets_concat(s0 + s1 + s2, s3, "gsm.sim.operator.alpha"@, c.operator_name);
    assert forall|k: Seq<char>| has_key(sub_h::sub_props(c), k) implies
        k == "persist.radio.iccid"@
        || k == "gsm.sim.operator.mcc"@
        || k == "gsm.sim.operator.mnc"@
        || k == "gsm.sim.operator.alpha"@ by {
        lemma_has_key_concat(s0, s1, k);
        lemma_has_key_concat(s0 + s1, s2, k);
        lemma_has_key_concat(s0 + s1 + s2, s3, k);
        lemma_when_some_keys(c.iccid, ks0, k);
        if ks0.contains(k) {
            let i = choose|i: int| 0 <= i < 1 && ks0[i] == k;
            assert(i == 0);
        }
        lemma_when_some_keys(c.mcc, ks1, k);
        if ks1.contains(k) {
            let i = choose|i: int| 0 <= i < 1 && ks1[i] == k;
            assert(i == 0);
        }
        lemma_when_some_keys(c.mnc, ks2, k);
        if ks2.contains(k) {
            let i = choose|i: int| 0 <= i < 1 && ks2[i] == k;
            assert(i == 0);
        }
        lemma_when_some_keys(c.operator_name, ks3, k);
        if ks3.contains(k) {
            let i = choose|i: int| 0 <= i < 1 && ks3[i] == k;
            assert(i == 0);
        }
    }
}

/// TenH sets `gsm.operator.iso-country` (sim_country_iso), `gsm.operator.mcc` (mcc),
/// `gsm.operator.mnc` (mnc) to the configured values, each when it is set, and no other key.
pub proof fn lemma_ten_h_sets_configured_values(c: TelephonyConfig)
    ensures
        sets_key_to(ten_h::ten_props(c), "gsm.operator.iso-country"@, c.sim_country_iso),
        sets_key_to(ten_h::ten_props(c), "gsm.operator.mcc"@, c.mcc),
        sets_key_to(ten_h::ten_props(c), "gsm.operator.mnc"@, c.mnc),
        forall|k: Seq<char>| has_key(ten_h::ten_props(c), k) ==> k == "gsm.operator.iso-country"@
            || k == "gsm.operator.mcc"@
            || k == "gsm.operator.mnc"@,
{
    reveal_strlit("gsm.operator.iso-country");
    reveal_strlit("gsm.operator.mcc");
    reveal_strlit("gsm.operator.mnc");
    assert("gsm.operator.iso-country"@.len() != "gsm.operator.mcc"@.len());
    assert("gsm.operator.iso-country"@.len() != "gsm.operator.mnc"@.len());
    assert("gsm.operator.mcc"@[14] != "gsm.operator.mnc"@[14]);
    let ks0 = seq!["gsm.operator.iso-country"@];
    let s0 = when_some(c.sim_country_iso, ks0);
    let ks1 = seq!["gsm.operator.mcc"@];
    let s1 = when_some(c.mcc, ks1);
    let ks2 = seq!["gsm.operator.mnc"@];
    let s2 = when_some(c.mnc, ks2);
    assert(ten_h::ten_props(c) == s0 + s1 + s2);
    // gsm.operator.iso-country
    lemma_when_some_sets(c.sim_country_iso, ks0, "gsm.operator.iso-country"@, 0);
    lemma_when_some_keys(c.mcc, ks1, "gsm.operator.iso-country"@);
    lemma_when_some_keys(c.mnc, ks2, "gsm.operator.iso-country"@);
    lemma_sets_concat(s0, s1, "gsm.operator.iso-country"@, c.sim_country_iso);
    lemma_sets_concat(s0 + s1, s2, "gsm.operator.iso-country"@, c.sim_country_iso);
    // gsm.operator.mcc
    lemma_when_some_keys(c.sim_country_iso, ks0, "gsm.operator.mcc"@);
    lemma_when_some_sets(c.mcc, ks1, "gsm.operator.mcc"@, 0);
    lemma_when_some_keys(c.mnc, ks2, "gsm.operator.mcc"@);
    lemma_sets_concat(s0, s1, "gsm.operator.mcc"@, c.mcc);
    lemma_sets_concat(s0 + s1, s2, "gsm.operator.mcc"@, c.mcc);
    // gsm.operator.mnc
    lemma_when_some_keys(c.sim_country_iso, ks0, "gsm.operator.mnc"@);
    lemma_when_some_keys(c.mcc, ks1, "gsm.operator.mnc"@);
    lemma_when_some_sets(c.mnc, ks2, "gsm.operator.mnc"@, 0);
    lemma_no_key_concat(s0, s1, "gsm.operator.mnc"@);
    lemma_sets_concat(s0 + s1, s2, "gsm.operator.mnc"@, c.mnc);
    assert forall|k: Seq<char>| has_key(ten_h::ten_props(c), k) implies
        k == "gsm.operator.iso-country"@
        || k == "gsm.operator.mcc"@
        || k == "gsm.operator.mnc"@ by {
        lemma_has_key_concat(s0, s1, k);
        lemma_has_key_concat(s0 + s1, s2, k);
        lemma_when_some_keys(c.sim_country_iso, ks0, k);
        if ks0.contains(k) {
            let i = choose|i: int| 0 <= i < 1 && ks0[i] == k;
            assert(i == 0);
        }
        lemma_when_some_keys(c.mcc, ks1, k);
        if ks1.contains(k) {
            let i = choose|i: int| 0 <= i < 1 && ks1[i] == k;
            assert(i == 0);
        }
        lemma_when_some_keys(c.mnc, ks2, k);
        if ks2.contains(k) {
            let i = choose|i: int| 0 <= i < 1 && ks2[i] == k;
            assert(i == 0);
        }
    }
}

/// LocH sets `gsm.operator.iso-country` (sim_country_iso), `gsm.sim.operator.iso-country`
/// (sim_country_iso) to the configured values, each when it is set, and no other key.
pub proof fn lemma_loc_h_sets_configured_values(c: TelephonyConfig)
    ensures
        sets_key_to(loc_h::loc_props(c), "gsm.operator.iso-country"@, c.sim_country_iso),
        sets_key_to(loc_h::loc_props(c), "gsm.sim.operator.iso-country"@, c.sim_country_iso),
        forall|k: Seq<char>| has_key(loc_h::loc_props(c), k) ==> k == "gsm.operator.iso-country"@
            || k == "gsm.sim.operator.iso-country"@,
{
    reveal_strlit("gsm.operator.iso-country");
    reveal_strlit("gsm.sim.operator.iso-country");
    assert("gsm.operator.iso-country"@.len() != "gsm.sim.operator.iso-country"@.len());
    let ks0 = seq!["gsm.operator.iso-country"@, "gsm.sim.operator.iso-country"@];
    let s0 = when_some(c.sim_country_iso, ks0);
    assert(loc_h::loc_props(c) == s0);
    // gsm.operator.iso-country
    lemma_when_some_sets(c.sim_country_iso, ks0, "gsm.operator.iso-country"@, 0);
    // gsm.sim.operator.iso-country
    lemma_when_some_sets(c.sim_country_iso, ks0, "gsm.sim.operator.iso-country"@, 1);
    assert forall|k: Seq<char>| has_key(loc_h::loc_props(c), k) implies
        k == "gsm.operator.iso-country"@
        || k == "gsm.sim.operator.iso-country"@ by {
        lemma_when_some_keys(c.sim_country_iso, ks0, k);
        if ks0.contains(k) {
            let i = choose|i: int| 0 <= i < 2 && ks0[i] == k;
            assert(i == 0 || i == 1);
        }
    }
}

/// TmznH sets `persist.sys.timezone` (timezone) to the configured values, each when it is set,
/// and no other key.
pub proof fn lemma_tmzn_h_sets_configured_values(c: TelephonyConfig)
    ensures
        sets_key_to(tmzn_h::tmzn_props(c), "persist.sys.timezone"@, c.timezone),
        forall|k: Seq<char>| has_key(tmzn_h::tmzn_props(c), k) ==> k == "persist.sys.timezone"@,
{
    reveal_strlit("persist.sys.timezone");
    let ks0 = seq!["persist.sys.timezone"@];
    let s0 = when_some(c.timezone, ks0);
    assert(tmzn_h::tmzn_props(c) == s0);
    // persist.sys.timezone
    lemma_when_some_sets(c.timezone, ks0, "persist.sys.timezone"@, 0);
    assert forall|k: Seq<char>| has_key(tmzn_h::tmzn_props(c), k) implies
        k == "persist.sys.timezone"@ by {
        lemma_when_some_keys(c.timezone, ks0, k);
        if ks0.contains(k) {
            let i = choose|i: int| 0 <= i < 1 && ks0[i] == k;
            assert(i == 0);
        }
    }
}

/// the ICU4J hooks sets `gsm.operator.iso-country` (sim_country_iso),
/// `ro.product.locale.region` (sim_country_iso), `gsm.operator.mcc` (mcc), `gsm.operator.mnc`
/// (mnc), `persist.sys.timezone` (timezone) to the configured values, each when it is set, and
/// no other key.
pub proof fn lemma_java_icu4_sets_configured_values(c: TelephonyConfig)
    ensures
        sets_key_to(java_icu4::icu_props(c), "gsm.operator.iso-country"@, c.sim_country_iso),
        sets_key_to(java_icu4::icu_props(c), "ro.product.locale.region"@, c.sim_country_iso),
        sets_key_to(java_icu4::icu_props(c), "gsm.operator.mcc"@, c.mcc),
        sets_key_to(java_icu4::icu_props(c), "gsm.operator.mnc"@, c.mnc),
        sets_key_to(java_icu4::icu_props(c), "persist.sys.timezone"@, c.timezone),
        forall|k: Seq<char>| has_key(java_icu4::icu_props(c), k) ==> k == "gsm.operator.iso-country"@
            || k == "ro.product.locale.region"@
            || k == "gsm.operator.mcc"@
            || k == "gsm.operator.mnc"@
            || k == "persist.sys.timezone"@,
{
    reveal_strlit("gsm.operator.iso-country");
    reveal_strlit("gsm.operator.mcc");
    reveal_strlit("gsm.operator.mnc");
    reveal_strlit("persist.sys.timezone");
    reveal_strlit("ro.product.locale.region");
    assert("gsm.operator.iso-country"@[0] != "ro.product.locale.region"@[0]);
    assert("gsm.operator.iso-country"@.len() != "gsm.operator.mcc"@.len());
    assert("gsm.operator.iso-country"@.len() != "gsm.operator.mnc"@.len());
    assert("gsm.operator.iso-country"@.len() != "persist.sys.timezone"@.len());
    assert("ro.product.locale.region"@.len() != "gsm.operator.mcc"@.len());
    assert("ro.product.locale.region"@.len() != "gsm.operator.mnc"@.len());
    assert("ro.product.locale.region"@.len() != "persist.sys.timezone"@.len());
    assert("gsm.operator.mcc"@[14] != "gsm.operator.mnc"@[14]);
    assert("gsm.operator.mcc"@.len() != "persist.sys.timezone"@.len());
    assert("gsm.operator.mnc"@.len() != "persist.sys.timezone"@.len());
    let ks0 = seq!["gsm.operator.iso-country"@, "ro.product.locale.region"@];
    let s0 = when_some(c.sim_country_iso, ks0);
    let ks1 = seq!["gsm.operator.mcc"@];
    let s1 = when_some(c.mcc, ks1);
    let ks2 = seq!["gsm.operator.mnc"@];
    let s2 = when_some(c.mnc, ks2);
    let ks3 = seq!["persist.sys.timezone"@];
    let s3 = when_some(c.timezone, ks3);
    assert(java_icu4::icu_props(c) == s0 + s1 + s2 + s3);
    // gsm.operator.iso-country
    lemma_when_some_sets(c.sim_country_iso, ks0, "gsm.operator.iso-country"@, 0);
    lemma_when_some_keys(c.mcc, ks1, "gsm.operator.iso-country"@);
    lemma_when_some_keys(c.mnc, ks2, "gsm.operator.iso-country"@);
    lemma_when_some_keys(c.timezone, ks3, "gsm.operator.iso-country"@);
    lemma_sets_concat(s0, s1, "gsm.operator.iso-country"@, c.sim_country_iso);
    lemma_sets_concat(s0 + s1, s2, "gsm.operator.iso-country"@, c.sim_country_iso);
    lemma_sets_concat(s0 + s1 + s2, s3, "gsm.operator.iso-country"@, c.sim_country_iso);
    // ro.product.locale.region
    lemma_when_some_sets(c.sim_country_iso, ks0, "ro.product.locale.region"@, 1);
    lemma_when_some_keys(c.mcc, ks1, "ro.product.locale.region"@);
    lemma_when_some_keys(c.mnc, ks2, "ro.product.locale.region"@);
    lemma_when_some_keys(c.timezone, ks3, "ro.product.locale.region"@);
    lemma_sets_concat(s0, s1, "ro.product.locale.region"@, c.sim_country_iso);
    lemma_sets_concat(s0 + s1, s2, "ro.product.locale.region"@, c.sim_country_iso);
    lemma_sets_concat(s0 + s1 + s2, s3, "ro.product.locale.region"@, c.sim_country_iso);
    // gsm.operator.mcc
    lemma_when_some_keys(c.sim_country_iso, ks0, "gsm.operator.mcc"@);
    lemma_when_some_sets(c.mcc, ks1, "gsm.operator.mcc"@, 0);
    lemma_when_some_keys(c.mnc, ks2, "gsm.operator.mcc"@);
    lemma_when_some_keys(c.timezone, ks3, "gsm.operator.mcc"@);
    lemma_sets_concat(s0, s1, "gsm.operator.mcc"@, c.mcc);
    lemma_sets_concat(s0 + s1, s2, "gsm.operator.mcc"@, c.mcc);
    lemma_sets_concat(s0 + s1 + s2, s3, "gsm.operator.mcc"@, c.mcc);
    // gsm.operator.mnc
    lemma_when_some_keys(c.sim_country_iso, ks0, "gsm.operator.mnc"@);
    lemma_when_some_keys(c.mcc, ks1, "gsm.operator.mnc"@);
    lemma_when_some_sets(c.mnc, ks2, "gsm.operator.mnc"@, 0);
    lemma_when_some_keys(c.timezone, ks3, "gsm.operator.mnc"@);
    lemma_no_key_concat(s0, s1, "gsm.operator.mnc"@);
    lemma_sets_concat(s0 + s1, s2, "gsm.operator.mnc"@, c.mnc);
    lemma_sets_concat(s0 + s1 + s2, s3, "gsm.operator.mnc"@, c.mnc);
    // persist.sys.timezone
    lemma_when_some_keys(c.sim_country_iso, ks0, "persist.sys.timezone"@);
    lemma_when_some_keys(c.mcc, ks1, "persist.sys.timezone"@);
    lemma_when_some_keys(c.mnc, ks2, "persist.sys.timezone"@);
    lemma_when_some_sets(c.timezone, ks3, "persist.sys.timezone"@, 0);
    lemma_no_key_concat(s0, s1, "persist.sys.timezone"@);
    lemma_no_key_concat(s0 + s1, s2, "persist.sys.timezone"@);
    lemma_sets_concat(s0 + s1 + s2, s3, "persist.sys.timezone"@, c.timezone);
    assert forall|k: Seq<char>| has_key(java_icu4::icu_props(c), k) implies
        k == "gsm.operator.iso-country"@
        || k == "ro.product.locale.region"@
        || k == "gsm.operator.mcc"@
        || k == "gsm.operator.mnc"@
        || k == "persist.sys.timezone"@ by {
        lemma_has_key_concat(s0, s1, k);
        lemma_has_key_concat(s0 + s1, s2, k);
        lemma_has_key_concat(s0 + s1 + s2, s3, k);
        lemma_when_some_keys(c.sim_country_iso, ks0, k);
        if ks0.contains(k) {
            let i = choose|i: int| 0 <= i < 2 && ks0[i] == k;
            assert(i == 0 || i == 1);
        }
        lemma_when_some_keys(c.mcc, ks1, k);
        if ks1.contains(k) {
            let i = choose|i: int| 0 <= i < 1 && ks1[i] == k;
            assert(i == 0);
        }
        lemma_when_some_keys(c.mnc, ks2, k);
        if ks2.contains(k) {
            let i = choose|i: int| 0 <= i < 1 && ks2[i] == k;
            assert(i == 0);
        }
        lemma_when_some_keys(c.timezone, ks3, k);
        if ks3.contains(k) {
            let i = choose|i: int| 0 <= i < 1 && ks3[i] == k;
            assert(i == 0);
        }
    }
}

/// SocH sets `ro.soc.manufacturer` (soc_manufacturer), `ro.soc.model` (soc_model) to the
/// configured values, each when it is set, and no other key.
pub proof fn lemma_soc_h_sets_configured_values(c: TelephonyConfig)
    ensures
        sets_key_to(soc_h::soc_props(c), "ro.soc.manufacturer"@, c.soc_manufacturer),
        sets_key_to(soc_h::soc_props(c), "ro.soc.model"@, c.soc_model),
        forall|k: Seq<char>| has_key(soc_h::soc_props(c), k) ==> k == "ro.soc.manufacturer"@
            || k == "ro.soc.model"@,
{
    reveal_strlit("ro.soc.manufacturer");
    reveal_strlit("ro.soc.model");
    assert("ro.soc.manufacturer"@.len() != "ro.soc.model"@.len());
    let ks0 = seq!["ro.soc.manufacturer"@];
    let s0 = when_some(c.soc_manufacturer, ks0);
    let ks1 = seq!["ro.soc.model"@];
    let s1 = when_some(c.soc_model, ks1);
    assert(soc_h::soc_props(c) == s0 + s1);
    // ro.soc.manufacturer
    lemma_when_some_sets(c.soc_manufacturer, ks0, "ro.soc.manufacturer"@, 0);
    lemma_when_some_keys(c.soc_model, ks1, "ro.soc.manufacturer"@);
    lemma_sets_concat(s0, s1, "ro.soc.manufacturer"@, c.soc_manufacturer);
    // ro.soc.model
    lemma_when_some_keys(c.soc_manufacturer, ks0, "ro.soc.model"@);
    lemma_when_some_sets(c.soc_model, ks1, "ro.soc.model"@, 0);
    lemma_sets_concat(s0, s1, "ro.soc.model"@, c.soc_model);
    assert forall|k: Seq<char>| has_key(soc_h::soc_props(c), k) implies
        k == "ro.soc.manufacturer"@
        || k == "ro.soc.model"@ by {
        lemma_has_key_concat(s0, s1, k);
        lemma_when_some_keys(c.soc_manufacturer, ks0, k);
        if ks0.contains(k) {
            let i = choose|i: int| 0 <= i < 1 && ks0[i] == k;
            assert(i == 0);
        }
        lemma_when_some_keys(c.soc_model, ks1, k);
        if ks1.contains(k) {
            let i = choose|i: int| 0 <= i < 1 && ks1[i] == k;
            assert(i == 0);
        }
    }
}

/// AirH sets `persist.sys.airplane_mode_on` to `0` exactly when airplane mode is
/// to be hidden, and no other key.
pub proof fn lemma_air_h_sets_flag(c: TelephonyConfig)
    ensures
        has_key(air_h::air_props(c), "persist.sys.airplane_mode_on"@) == c.hide_airplane_mode,
        forall|i: int|
            0 <= i < air_h::air_props(c).len() ==> #[trigger] air_h::air_props(c)[i] == (
                "persist.sys.airplane_mode_on"@,
                "0"@,
            ),
{
    if c.hide_airplane_mode {
        assert(air_h::air_props(c)[0].0 == "persist.sys.airplane_mode_on"@);
    }
}

/// DevH, when developer mode is to be hidden, turns developer options off
/// (`0`), reports adbd stopped and the USB configuration as `mtp`; otherwise it
/// sets nothing.
pub proof fn lemma_dev_h_hides_developer_mode(c: TelephonyConfig)
    ensures
        c.hide_developer_mode ==> dev_h::dev_props(c).contains(("persist.sys.developer_options"@, "0"@))
            && dev_h::dev_props(c).contains(("init.svc.adbd"@, "stopped"@))
            && dev_h::dev_props(c).contains(("sys.usb.config"@, "mtp"@))
            && dev_h::dev_props(c).contains(("persist.sys.usb.config"@, "mtp"@)),
        !c.hide_developer_mode ==> dev_h::dev_props(c).len() == 0,
{
    if c.hide_developer_mode {
        let d = dev_h::dev_props(c);
        assert(d[0] == ("persist.sys.developer_options"@, "0"@));
        assert(d[1] == ("init.svc.adbd"@, "stopped"@));
        assert(d[2] == ("sys.usb.config"@, "mtp"@));
        assert(d[3] == ("persist.sys.usb.config"@, "mtp"@));
    }
}

} // verus!
