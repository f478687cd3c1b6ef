//! TeleSH — `android.sysprop.TelephonyProperties`: ICC and operator values,
//! read from `gsm.*` system properties.

use vstd::prelude::*;

use crate::config::TelephonyConfig;
use crate::keyed_map::{
    apply_pairs, has_key, lemma_apply_concat, lemma_apply_domain, lemma_apply_push,
    lemma_apply_untouched, map_of_pairs, KeyedMap,
};
use crate::property_laws::{lemma_writes_for_has_key, lemma_writes_for_value};
use crate::property_map::{when_some, writes_for, Writes};
use crate::strings::concat;

verus! {

/// The operator numeric writes when both MCC and MNC are set.
pub open spec fn numeric_pair(c: TelephonyConfig) -> Writes {
    match (c.mcc, c.mnc) {
        (Some(a), Some(b)) => writes_for(
            seq!["gsm.sim.operator.numeric"@, "gsm.operator.numeric"@],
            a@ + b@,
        ),
        _ => Seq::empty(),
    }
}

/// The writes TeleSH makes, in order.
pub open spec fn tele_writes(c: TelephonyConfig) -> Writes {
    (if c.sim_country_iso is Some {
        when_some(c.sim_country_iso, seq!["gsm.sim.operator.iso-country"@, "gsm.operator.iso-country"@])
            + numeric_pair(c)
    } else {
        numeric_pair(c)
    }) + when_some(c.operator_name, seq!["gsm.sim.operator.alpha"@, "gsm.operator.alpha"@])
}

fn put(map: &mut KeyedMap<String>, key: &str, value: &String)
    ensures
        final(map).str_view() == old(map).str_view().insert(key@, value@),
{
    map.set(key.to_owned(), value.clone());
}

fn put_pair(map: &mut KeyedMap<String>, k1: &str, k2: &str, value: &String)
    ensures
        final(map).str_view() == apply_pairs(old(map).str_view(), writes_for(seq![k1@, k2@], value@)),
{
    let ghost start = map.str_view();
    put(map, k1, value);
    put(map, k2, value);
    proof {
        let ws = writes_for(seq![k1@, k2@], value@);
        let e = Seq::<(Seq<char>, Seq<char>)>::empty();
        lemma_apply_push(start, e, (k1@, value@));
        lemma_apply_push(start, e.push((k1@, value@)), (k2@, value@));
        assert(e.push((k1@, value@)).push((k2@, value@)) =~= ws);
    }
}

/// Build the telephony property map for TeleSH: country ISO, operator
/// numeric code (MCC followed by MNC) and operator name.
pub fn build_property_map(config: &TelephonyConfig) -> (map: KeyedMap<String>)
    ensures
        map.str_view() == map_of_pairs(tele_writes(*config)),
{
    let mut map: KeyedMap<String> = KeyedMap::new();
    assert(map.str_pairs() =~= Seq::<(Seq<char>, Seq<char>)>::empty());
    let ghost start = map.str_view();
    let ghost first = if config.sim_country_iso is Some {
        when_some(config.sim_country_iso, seq!["gsm.sim.operator.iso-country"@, "gsm.operator.iso-country"@])
            + numeric_pair(*config)
    } else {
        numeric_pair(*config)
    };
    if let Some(country) = &config.sim_country_iso {
        put_pair(&mut map, "gsm.sim.operator.iso-country", "gsm.operator.iso-country", country);
        let ghost a = when_some(config.sim_country_iso, seq!["gsm.sim.operator.iso-country"@, "gsm.operator.iso-country"@]);
        if let Some(mcc) = &config.mcc {
            if let Some(mnc) = &config.mnc {
                let numeric = concat(mcc.as_str(), mnc.as_str());
                put_pair(&mut map, "gsm.sim.operator.numeric", "gsm.operator.numeric", &numeric);
            }
        }
        proof {
            lemma_apply_concat(start, a, numeric_pair(*config));
        }
    }
    if let Some(mcc) = &config.mcc {
        if let Some(mnc) = &config.mnc {
            if config.sim_country_iso.is_none() {
                let numeric = concat(mcc.as_str(), mnc.as_str());
                put_pair(&mut map, "gsm.sim.operator.numeric", "gsm.operator.numeric", &numeric);
            }
        }
    }
    let ghost second = when_some(config.operator_name, seq!["gsm.sim.operator.alpha"@, "gsm.operator.alpha"@]);
    if let Some(op_name) = &config.operator_name {
        put_pair(&mut map, "gsm.sim.operator.alpha", "gsm.operator.alpha", op_name);
    }
    proof {
        lemma_apply_concat(start, first, second);
    }
    map
}

// ── Which keys TeleSH sets ────────────────────────────────────────────────

/// The two country ISO keys.
pub open spec fn iso_keys() -> Seq<Seq<char>> {
    seq!["gsm.sim.operator.iso-country"@, "gsm.operator.iso-country"@]
}

/// The two operator numeric keys.
pub open spec fn numeric_keys() -> Seq<Seq<char>> {
    seq!["gsm.sim.operator.numeric"@, "gsm.operator.numeric"@]
}

/// The two operator name keys.
pub open spec fn alpha_keys() -> Seq<Seq<char>> {
    seq!["gsm.sim.operator.alpha"@, "gsm.operator.alpha"@]
}

proof fn lemma_pair_contains(a: Seq<char>, b: Seq<char>, k: Seq<char>)
    ensures
        seq![a, b].contains(k) <==> (k == a || k == b),
{
    if k == a {
        assert(seq![a, b][0] == k);
    }
    if k == b {
        assert(seq![a, b][1] == k);
    }
}

proof fn lemma_group(start: Map<Seq<char>, Seq<char>>, v: Option<String>, keys: Seq<Seq<char>>, k: Seq<char>)
    ensures
        v is Some && keys.contains(k) ==> apply_pairs(start, when_some(v, keys)).contains_key(k)
            && apply_pairs(start, when_some(v, keys))[k] == v->0@,
        !(v is Some && keys.contains(k)) ==> !has_key(when_some(v, keys), k),
{
    if let Some(s) = v {
        lemma_writes_for_has_key(keys, s@, k);
        if keys.contains(k) {
            lemma_writes_for_value(start, keys, s@, k);
        }
    }
}

/// What TeleSH leaves at one key: the operator name at an operator-alpha key,
/// the numeric code at a numeric key, the country ISO at an iso-country key,
/// each when set, and nothing elsewhere.
proof fn lemma_tele_at(c: TelephonyConfig, k: Seq<char>)
    ensures
        map_of_pairs(tele_writes(c)).contains_key(k) == ((c.sim_country_iso is Some && iso_keys().contains(k))
            || (c.mcc is Some && c.mnc is Some && numeric_keys().contains(k)) || (c.operator_name is Some
            && alpha_keys().contains(k))),
        c.operator_name is Some && alpha_keys().contains(k) ==> map_of_pairs(tele_writes(c))[k]
            == c.operator_name->0@,
        !alpha_keys().contains(k) && c.mcc is Some && c.mnc is Some && numeric_keys().contains(k)
            ==> map_of_pairs(tele_writes(c))[k] == c.mcc->0@ + c.mnc->0@,
        !alpha_keys().contains(k) && !numeric_keys().contains(k) && c.sim_country_iso is Some
            && iso_keys().contains(k) ==> map_of_pairs(tele_writes(c))[k] == c.sim_country_iso->0@,
{
    let e = Map::<Seq<char>, Seq<char>>::empty();
    let a = when_some(c.sim_country_iso, iso_keys());
    let n = numeric_pair(c);
    let l = when_some(c.operator_name, alpha_keys());
    assert(tele_writes(c) =~= a + n + l);
    lemma_apply_concat(e, a, n);
    lemma_apply_concat(e, a + n, l);
    let ma = apply_pairs(e, a);
    let mn = apply_pairs(e, a + n);
    lemma_group(e, c.sim_country_iso, iso_keys(), k);
    lemma_apply_domain(e, a, k);
    let both = c.mcc is Some && c.mnc is Some;
    let nv = if both { c.mcc->0@ + c.mnc->0@ } else { Seq::<char>::empty() };
    if both {
        assert(n == writes_for(numeric_keys(), nv));
        lemma_writes_for_has_key(numeric_keys(), nv, k);
        if numeric_keys().contains(k) {
            lemma_writes_for_value(ma, numeric_keys(), nv, k);
        } else {
            lemma_apply_untouched(ma, n, k);
        }
    } else {
        assert(n.len() == 0);
        lemma_apply_untouched(ma, n, k);
    }
    lemma_group(mn, c.operator_name, alpha_keys(), k);
    if !(c.operator_name is Some && alpha_keys().contains(k)) {
        lemma_apply_untouched(mn, l, k);
    }
}

/// TeleSH sets both operator numeric keys exactly when MCC and MNC are both
/// set, to MCC followed by MNC, whether or not the country ISO is set; both
/// iso-country keys exactly when the country ISO is set; both operator-alpha
/// keys exactly when the operator name is set; and no other key.
pub proof fn lemma_tele_sh_keys(c: TelephonyConfig)
    ensures
        forall|k: Seq<char>| #[trigger]
            map_of_pairs(tele_writes(c)).contains_key(k) ==> iso_keys().contains(k)
                || numeric_keys().contains(k) || alpha_keys().contains(k),
        forall|i: int|
            0 <= i < 2 ==> map_of_pairs(tele_writes(c)).contains_key(#[trigger] numeric_keys()[i]) == (
            c.mcc is Some && c.mnc is Some),
        forall|i: int|
            0 <= i < 2 && c.mcc is Some && c.mnc is Some ==> map_of_pairs(tele_writes(c))[#[trigger] numeric_keys()[i]]
                == c.mcc->0@ + c.mnc->0@,
        forall|i: int|
            0 <= i < 2 ==> map_of_pairs(tele_writes(c)).contains_key(#[trigger] iso_keys()[i]) == (
            c.sim_country_iso is Some),
        forall|i: int|
            0 <= i < 2 && c.sim_country_iso is Some ==> map_of_pairs(tele_writes(c))[#[trigger] iso_keys()[i]]
                == c.sim_country_iso->0@,
        forall|i: int|
            0 <= i < 2 ==> map_of_pairs(tele_writes(c)).contains_key(#[trigger] alpha_keys()[i]) == (
            c.operator_name is Some),
        forall|i: int|
            0 <= i < 2 && c.operator_name is Some ==> map_of_pairs(tele_writes(c))[#[trigger] alpha_keys()[i]]
                == c.operator_name->0@,
{
    reveal_strlit("gsm.sim.operator.iso-country");
    reveal_strlit("gsm.operator.iso-country");
    reveal_strlit("gsm.sim.operator.numeric");
    reveal_strlit("gsm.operator.numeric");
    reveal_strlit("gsm.sim.operator.alpha");
    reveal_strlit("gsm.operator.alpha");
    assert("gsm.operator.iso-country"@[4] != "gsm.sim.operator.numeric"@[4]);
    assert(iso_keys()[1] != numeric_keys()[0]);
    assert(iso_keys()[0][17] != numeric_keys()[0][17] && iso_keys()[0][4] != numeric_keys()[1][4]);
    assert(iso_keys()[1][13] != numeric_keys()[1][13]);
    assert(alpha_keys()[0] != numeric_keys()[0] && alpha_keys()[0] != numeric_keys()[1]);
    assert(alpha_keys()[1] != numeric_keys()[0] && alpha_keys()[1] != numeric_keys()[1]);
    assert forall|k: Seq<char>| #[trigger]
        map_of_pairs(tele_writes(c)).contains_key(k) implies iso_keys().contains(k) || numeric_keys().contains(k)
            || alpha_keys().contains(k) by {
        lemma_tele_at(c, k);
    }
    assert forall|i: int| 0 <= i < 2 implies {
        let k = #[trigger] numeric_keys()[i];
        &&& map_of_pairs(tele_writes(c)).contains_key(k) == (c.mcc is Some && c.mnc is Some)
        &&& c.mcc is Some && c.mnc is Some ==> map_of_pairs(tele_writes(c))[k] == c.mcc->0@ + c.mnc->0@
    } by {
        let k = numeric_keys()[i];
        lemma_tele_at(c, k);
        lemma_pair_contains(numeric_keys()[0], numeric_keys()[1], k);
        lemma_pair_contains(iso_keys()[0], iso_keys()[1], k);
        lemma_pair_contains(alpha_keys()[0], alpha_keys()[1], k);
    }
    assert forall|i: int| 0 <= i < 2 implies {
        let k = #[trigger] iso_keys()[i];
        &&& map_of_pairs(tele_writes(c)).contains_key(k) == (c.sim_country_iso is Some)
        &&& c.sim_country_iso is Some ==> map_of_pairs(tele_writes(c))[k] == c.sim_country_iso->0@
    } by {
        let k = iso_keys()[i];
        lemma_tele_at(c, k);
        lemma_pair_contains(numeric_keys()[0], numeric_keys()[1], k);
        lemma_pair_contains(iso_keys()[0], iso_keys()[1], k);
        lemma_pair_contains(alpha_keys()[0], alpha_keys()[1], k);
    }
    assert forall|i: int| 0 <= i < 2 implies {
        let k = #[trigger] alpha_keys()[i];
        &&& map_of_pairs(tele_writes(c)).contains_key(k) == (c.operator_name is Some)
        &&& c.operator_name is Some ==> map_of_pairs(tele_writes(c))[k] == c.operator_name->0@
    } by {
        let k = alpha_keys()[i];
        lemma_tele_at(c, k);
        lemma_pair_contains(numeric_keys()[0], numeric_keys()[1], k);
        lemma_pair_contains(iso_keys()[0], iso_keys()[1], k);
        lemma_pair_contains(alpha_keys()[0], alpha_keys()[1], k);
    }
}

} // verus!
