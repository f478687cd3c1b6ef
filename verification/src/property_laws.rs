//! Laws of the property map and the delete list.

use vstd::prelude::*;

use crate::config::{MergedAppConfig, TelephonyConfig};
use crate::keyed_map::{
    apply_pairs, has_key, lemma_apply_concat, lemma_apply_domain, lemma_apply_last_write,
    lemma_apply_push, lemma_apply_untouched, lemma_apply_value_source, map_of_pairs,
};
use crate::property_map::{
    build_id_keys, custom_deletes, custom_entry_writes, custom_section, custom_writes, delete_marker,
    delete_props, device_name_writes, device_writes, empty_marker, numeric_writes,
    partition_prefixes, product_keys, property_map, property_writes, release_keys,
    sdk_writes, telephony_writes, usable, when_filled, when_flag, when_usable, writes_for, Writes,
};
use crate::strings::{decimal, is_filled};

verus! {

/// Whether `ws` holds the write `(k, v)`.
pub open spec fn has_write(ws: Writes, k: Seq<char>, v: Seq<char>) -> bool {
    exists|i: int| 0 <= i < ws.len() && #[trigger] ws[i] == (k, v)
}

/// Every write of `ws` has a value that is neither empty nor the delete marker.
#[verifier::opaque]
pub open spec fn values_ok(ws: Writes) -> bool {
    forall|i: int| 0 <= i < ws.len() ==> (#[trigger] ws[i]).1.len() > 0 && ws[i].1 != delete_marker()
}

/// Every write of `ws` has a non-empty value.
#[verifier::opaque]
pub open spec fn values_nonempty(ws: Writes) -> bool {
    forall|i: int| 0 <= i < ws.len() ==> (#[trigger] ws[i]).1.len() > 0
}

pub(crate) proof fn lemma_has_key_concat(a: Writes, b: Writes, k: Seq<char>)
    ensures
        has_key(a + b, k) <==> (has_key(a, k) || has_key(b, k)),
{
    if has_key(a + b, k) {
        let i = choose|i: int| 0 <= i < (a + b).len() && #[trigger] (a + b)[i].0 == k;
        if i < a.len() {
            assert(a[i].0 == k);
        } else {
            assert(b[i - a.len()].0 == k);
        }
    }
    if has_key(a, k) {
        let i = choose|i: int| 0 <= i < a.len() && #[trigger] a[i].0 == k;
        assert((a + b)[i].0 == k);
    }
    if has_key(b, k) {
        let i = choose|i: int| 0 <= i < b.len() && #[trigger] b[i].0 == k;
        assert((a + b)[a.len() + i].0 == k);
    }
}

proof fn lemma_ok_concat(a: Writes, b: Writes)
    requires
        values_ok(a),
        values_ok(b),
    ensures
        values_ok(a + b),
{
    reveal(values_ok);
    assert forall|i: int| 0 <= i < (a + b).len() implies (#[trigger] (a + b)[i]).1.len() > 0 && (a
        + b)[i].1 != delete_marker() by {
        if i < a.len() {
            assert((a + b)[i] == a[i]);
        } else {
            assert((a + b)[i] == b[i - a.len()]);
        }
    }
}

proof fn lemma_nonempty_concat(a: Writes, b: Writes)
    requires
        values_nonempty(a),
        values_nonempty(b),
    ensures
        values_nonempty(a + b),
{
    reveal(values_nonempty);
    assert forall|i: int| 0 <= i < (a + b).len() implies (#[trigger] (a + b)[i]).1.len() > 0 by {
        if i < a.len() {
            assert((a + b)[i] == a[i]);
        } else {
            assert((a + b)[i] == b[i - a.len()]);
        }
    }
}

proof fn lemma_when_usable_ok(v: Option<String>, keys: Seq<Seq<char>>)
    ensures
        values_ok(when_usable(v, keys)),
        values_nonempty(when_usable(v, keys)),
{
    reveal(values_ok);
    reveal(values_nonempty);
}

/// `v` holds exactly the delete marker.
pub open spec fn marked(v: Option<String>) -> bool {
    v is Some && v->0@ == delete_marker()
}

proof fn lemma_when_filled_ok(v: Option<String>, keys: Seq<Seq<char>>)
    ensures
        values_nonempty(when_filled(v, keys)),
        !marked(v) ==> values_ok(when_filled(v, keys)),
{
    reveal(values_ok);
    reveal(values_nonempty);
}

proof fn lemma_ok_is_nonempty(ws: Writes)
    requires
        values_ok(ws),
    ensures
        values_nonempty(ws),
{
    reveal(values_ok);
    reveal(values_nonempty);
}

proof fn lemma_decimal_ok(n: nat)
    ensures
        decimal(n).len() > 0,
        decimal(n) != delete_marker(),
{
    reveal_strlit("__DELETE__");
    let d = decimal(n);
    assert(d.len() > 0 && d.last() != '_');
    if d == delete_marker() {
        assert(d.last() == delete_marker().last());
    }
}

/// Device writes never carry an empty value, nor the delete marker unless the
/// Android release version is marked.
proof fn lemma_device_writes_ok(m: MergedAppConfig)
    ensures
        values_nonempty(device_writes(m)),
        !marked(m.android_version) ==> values_ok(device_writes(m)),
{
    let s1 = when_usable(m.manufacturer, product_keys("manufacturer"@));
    let s2 = when_usable(m.brand, product_keys("brand"@));
    let s3 = when_usable(m.marketname, seq!["ro.product.marketname"@, "ro.vendor.oplus.market.name"@]);
    let s4 = when_usable(m.model, product_keys("model"@));
    let s5 = when_usable(m.name, product_keys("name"@));
    let s6 = device_name_writes(m);
    let s7 = when_usable(m.hardware, seq!["ro.hardware"@]);
    let s8 = when_usable(m.fingerprint, seq!["ro.build.fingerprint"@]);
    let s9 = when_usable(m.build_id, build_id_keys());
    let s10 = when_usable(m.characteristics, seq!["ro.build.characteristics"@]);
    let s11 = when_filled(m.android_version, release_keys());
    let s12 = sdk_writes(m.sdk_int);
    lemma_when_usable_ok(m.manufacturer, product_keys("manufacturer"@));
    lemma_when_usable_ok(m.brand, product_keys("brand"@));
    lemma_when_usable_ok(m.marketname, seq!["ro.product.marketname"@, "ro.vendor.oplus.market.name"@]);
    lemma_when_usable_ok(m.model, product_keys("model"@));
    lemma_when_usable_ok(m.name, product_keys("name"@));
    lemma_when_usable_ok(m.device, product_keys("device"@));
    lemma_when_usable_ok(m.name, product_keys("device"@));
    lemma_when_usable_ok(m.hardware, seq!["ro.hardware"@]);
    lemma_when_usable_ok(m.fingerprint, seq!["ro.build.fingerprint"@]);
    lemma_when_usable_ok(m.build_id, build_id_keys());
    lemma_when_usable_ok(m.characteristics, seq!["ro.build.characteristics"@]);
    lemma_when_filled_ok(m.android_version, release_keys());
    assert(values_ok(s12)) by {
        reveal(values_ok);
        if let Some(n) = m.sdk_int {
            lemma_decimal_ok(n as nat);
        }
    }
    lemma_ok_is_nonempty(s12);
    let a = s1 + s2;
    lemma_step(s1, s2);
    let b = a + s3;
    lemma_step(a, s3);
    let c = b + s4;
    lemma_step(b, s4);
    let d = c + s5;
    lemma_step(c, s5);
    let e = d + s6;
    lemma_step(d, s6);
    let f = e + s7;
    lemma_step(e, s7);
    let g = f + s8;
    lemma_step(f, s8);
    let h = g + s9;
    lemma_step(g, s9);
    let i = h + s10;
    lemma_step(h, s10);
    let j = i + s11;
    lemma_step(i, s11);
    lemma_step(j, s12);
    assert(device_writes(m) == j + s12);
}

/// No telephony setting that the property map takes is marked `__DELETE__`,
/// and the operator numeric code (MCC followed by MNC) does not spell the
/// marker either.
pub open spec fn telephony_unmarked(tc: TelephonyConfig) -> bool {
    &&& !marked(tc.sim_country_iso)
    &&& !marked(tc.mcc)
    &&& !marked(tc.mnc)
    &&& !(is_filled(tc.mcc) && is_filled(tc.mnc) && tc.mcc->0@ + tc.mnc->0@ == delete_marker())
    &&& !marked(tc.operator_name)
    &&& !marked(tc.timezone)
    &&& !marked(tc.iccid)
    &&& !marked(tc.soc_manufacturer)
    &&& !marked(tc.soc_model)
    &&& !marked(tc.bootloader)
    &&& !marked(tc.baseband)
    &&& !marked(tc.device_serial)
}

proof fn lemma_step(a: Writes, b: Writes)
    requires
        values_nonempty(a),
        values_nonempty(b),
    ensures
        values_nonempty(a + b),
        values_ok(a) && values_ok(b) ==> values_ok(a + b),
{
    lemma_nonempty_concat(a, b);
    if values_ok(a) && values_ok(b) {
        lemma_ok_concat(a, b);
    }
}

/// Telephony writes carry non-empty values, and no delete marker unless a
/// setting is marked or the operator numeric code spells one.
proof fn lemma_telephony_writes_ok(tc: TelephonyConfig)
    ensures
        values_nonempty(telephony_writes(tc)),
        telephony_unmarked(tc) ==> values_ok(telephony_writes(tc)),
{
    let t1 = when_filled(tc.sim_country_iso, seq!["gsm.sim.operator.iso-country"@, "gsm.operator.iso-country"@]);
    let t2 = when_filled(tc.mcc, seq!["gsm.sim.operator.mcc"@, "gsm.operator.mcc"@]);
    let t3 = when_filled(tc.mnc, seq!["gsm.sim.operator.mnc"@, "gsm.operator.mnc"@]);
    let t4 = crate::property_map::numeric_writes(tc.mcc, tc.mnc);
    let t5 = when_filled(tc.operator_name, seq!["gsm.sim.operator.alpha"@, "gsm.operator.alpha"@]);
    let t6 = when_filled(tc.timezone, seq!["persist.sys.timezone"@]);
    let t7 = when_filled(tc.iccid, seq!["persist.radio.iccid"@]);
    let t8 = when_filled(tc.soc_manufacturer, seq!["ro.soc.manufacturer"@]);
    let t9 = when_filled(tc.soc_model, seq!["ro.soc.model"@, "ro.hardware.chipname"@]);
    let t10 = when_filled(tc.bootloader, seq!["ro.bootloader"@]);
    let t11 = when_filled(tc.baseband, seq!["ro.baseband"@]);
    let t12 = when_filled(tc.device_serial, seq!["ro.serialno"@]);
    let t13 = when_flag(tc.hide_airplane_mode, "persist.sys.airplane_mode_on"@);
    let t14 = when_flag(tc.hide_developer_mode, "persist.sys.developer_options"@);
    lemma_when_filled_ok(tc.sim_country_iso, seq!["gsm.sim.operator.iso-country"@, "gsm.operator.iso-country"@]);
    lemma_when_filled_ok(tc.mcc, seq!["gsm.sim.operator.mcc"@, "gsm.operator.mcc"@]);
    lemma_when_filled_ok(tc.mnc, seq!["gsm.sim.operator.mnc"@, "gsm.operator.mnc"@]);
    lemma_when_filled_ok(tc.operator_name, seq!["gsm.sim.operator.alpha"@, "gsm.operator.alpha"@]);
    lemma_when_filled_ok(tc.timezone, seq!["persist.sys.timezone"@]);
    lemma_when_filled_ok(tc.iccid, seq!["persist.radio.iccid"@]);
    lemma_when_filled_ok(tc.soc_manufacturer, seq!["ro.soc.manufacturer"@]);
    lemma_when_filled_ok(tc.soc_model, seq!["ro.soc.model"@, "ro.hardware.chipname"@]);
    lemma_when_filled_ok(tc.bootloader, seq!["ro.bootloader"@]);
    lemma_when_filled_ok(tc.baseband, seq!["ro.baseband"@]);
    lemma_when_filled_ok(tc.device_serial, seq!["ro.serialno"@]);
    assert(values_nonempty(t4) && (telephony_unmarked(tc) ==> values_ok(t4))) by {
        reveal(values_ok);
        reveal(values_nonempty);
    }
    assert(values_ok(t13) && values_ok(t14)) by {
        reveal(values_ok);
        reveal_strlit("0");
        reveal_strlit("__DELETE__");
        assert("0"@.len() != delete_marker().len());
    }
    lemma_ok_is_nonempty(t13);
    lemma_ok_is_nonempty(t14);
    let a = t1 + t2;
    lemma_step(t1, t2);
    let b = a + t3;
    lemma_step(a, t3);
    let c = b + t4;
    lemma_step(b, t4);
    let d = c + t5;
    lemma_step(c, t5);
    let e = d + t6;
    lemma_step(d, t6);
    let f = e + t7;
    lemma_step(e, t7);
    let g = f + t8;
    lemma_step(f, t8);
    let h = g + t9;
    lemma_step(g, t9);
    let i = h + t10;
    lemma_step(h, t10);
    let j = i + t11;
    lemma_step(i, t11);
    let k = j + t12;
    lemma_step(j, t12);
    let l = k + t13;
    lemma_step(k, t13);
    lemma_step(l, t14);
    assert(telephony_writes(tc) == l + t14);
}

/// What a custom write at index `i` carries: never the delete marker, and the
/// empty string only for an entry marked `__EMPTY__`.
proof fn lemma_custom_write_at(ps: Writes, i: int)
    requires
        0 <= i < custom_writes(ps).len(),
    ensures
        custom_writes(ps)[i].1 != delete_marker(),
        custom_writes(ps)[i].1.len() == 0 ==> has_write(ps, custom_writes(ps)[i].0, empty_marker()),
    decreases ps.len(),
{
    reveal_strlit("__DELETE__");
    let front = custom_writes(ps.drop_last());
    let w = custom_entry_writes(ps.last());
    let last = ps.len() - 1;
    assert(custom_writes(ps) == front + w);
    if i < front.len() {
        lemma_custom_write_at(ps.drop_last(), i);
        assert(custom_writes(ps)[i] == front[i]);
        if front[i].1.len() == 0 {
            let j = choose|j: int| 0 <= j < ps.drop_last().len() && #[trigger] ps.drop_last()[j] == (
                front[i].0,
                empty_marker(),
            );
            assert(ps[j] == (front[i].0, empty_marker()));
        }
    } else {
        assert(custom_writes(ps)[i] == w[i - front.len()]);
        assert(delete_marker().len() > 0);
        if ps[last].1 == empty_marker() && ps[last].1 != delete_marker() && ps[last].1.len() > 0 {
            assert(ps[last] == (ps[last].0, empty_marker()));
        }
    }
}

pub(crate) proof fn lemma_custom_writes_keys(ps: Writes, k: Seq<char>)
    requires
        has_key(custom_writes(ps), k),
    ensures
        has_key(ps, k),
    decreases ps.len(),
{
    if ps.len() > 0 {
        let last = ps.len() - 1;
        lemma_has_key_concat(custom_writes(ps.drop_last()), custom_entry_writes(ps.last()), k);
        if has_key(custom_writes(ps.drop_last()), k) {
            lemma_custom_writes_keys(ps.drop_last(), k);
            let i = choose|i: int| 0 <= i < ps.drop_last().len() && #[trigger] ps.drop_last()[i].0 == k;
            assert(ps[i].0 == k);
        } else {
            let w = custom_entry_writes(ps.last());
            let i = choose|i: int| 0 <= i < w.len() && #[trigger] w[i].0 == k;
            assert(ps[last].0 == k);
        }
    }
}

proof fn lemma_custom_writes_value(start: Map<Seq<char>, Seq<char>>, ps: Writes, i: int)
    requires
        0 <= i < ps.len(),
        forall|j: int| i < j < ps.len() ==> #[trigger] ps[j].0 != ps[i].0,
        ps[i].1 != delete_marker(),
        ps[i].1.len() > 0,
    ensures
        apply_pairs(start, custom_writes(ps)).contains_key(ps[i].0),
        apply_pairs(start, custom_writes(ps))[ps[i].0] == (if ps[i].1 == empty_marker() {
            Seq::<char>::empty()
        } else {
            ps[i].1
        }),
    decreases ps.len(),
{
    let k = ps[i].0;
    let last = ps.len() - 1;
    let front = custom_writes(ps.drop_last());
    let w = custom_entry_writes(ps.last());
    lemma_apply_concat(start, front, w);
    if i == last {
        assert(w.len() == 1);
        lemma_apply_push(start, front, w[0]);
        assert(front + w =~= front.push(w[0]));
    } else {
        assert forall|j: int| i < j < ps.drop_last().len() implies #[trigger] ps.drop_last()[j].0
            != ps.drop_last()[i].0 by {
            assert(ps[j].0 != ps[i].0);
        }
        lemma_custom_writes_value(start, ps.drop_last(), i);
        assert(ps[last].0 != k);
        assert(!has_key(w, k));
        lemma_apply_untouched(apply_pairs(start, front), w, k);
    }
}

proof fn lemma_custom_writes_keys_except(ps: Writes, i: int)
    requires
        0 <= i < ps.len(),
        ps[i].1 == delete_marker() || ps[i].1.len() == 0,
        forall|a: int, b: int| 0 <= a < b < ps.len() ==> #[trigger] ps[a].0 != #[trigger] ps[b].0,
    ensures
        !has_key(custom_writes(ps), ps[i].0),
    decreases ps.len(),
{
    let k = ps[i].0;
    let last = ps.len() - 1;
    let front = custom_writes(ps.drop_last());
    let w = custom_entry_writes(ps.last());
    lemma_has_key_concat(front, w, k);
    if i < last {
        assert(ps[last].0 != k);
        assert forall|a: int, b: int| 0 <= a < b < ps.drop_last().len() implies #[trigger] ps.drop_last()[a].0
            != #[trigger] ps.drop_last()[b].0 by {
            assert(ps[a].0 != ps[b].0);
        }
        lemma_custom_writes_keys_except(ps.drop_last(), i);
    } else {
        if has_key(front, k) {
            lemma_custom_writes_keys(ps.drop_last(), k);
            let j = choose|j: int| 0 <= j < ps.drop_last().len() && #[trigger] ps.drop_last()[j].0 == k;
            assert(ps[j].0 != ps[i].0);
        }
    }
}

proof fn lemma_custom_deletes_contains(ps: Writes, i: int)
    requires
        0 <= i < ps.len(),
        ps[i].1 == delete_marker(),
    ensures
        custom_deletes(ps).contains(ps[i].0),
    decreases ps.len(),
{
    let last = ps.len() - 1;
    let front = custom_deletes(ps.drop_last());
    if i == last {
        assert((front + seq![ps.last().0])[front.len() as int] == ps[i].0);
    } else {
        lemma_custom_deletes_contains(ps.drop_last(), i);
        let j = choose|j: int| 0 <= j < front.len() && front[j] == ps.drop_last()[i].0;
        assert(custom_deletes(ps)[j] == ps[i].0);
    }
}

/// A custom property marked `__DELETE__` is recorded in the delete list.
pub proof fn lemma_custom_delete_recorded(m: MergedAppConfig, i: int)
    requires
        m.custom_props is Some,
        0 <= i < m.custom_props->0.str_pairs().len(),
        m.custom_props->0.str_pairs()[i].1 == delete_marker(),
    ensures
        delete_props(m).contains(m.custom_props->0.str_pairs()[i].0),
{
    let ps = m.custom_props->0.str_pairs();
    lemma_custom_deletes_contains(ps, i);
    let d = delete_props(m);
    let cd = custom_deletes(ps);
    let j = choose|j: int| 0 <= j < cd.len() && cd[j] == ps[i].0;
    assert(d[d.len() - cd.len() + j] == ps[i].0);
}

/// A custom property with a real value that no telephony setting writes takes
/// that value (the empty string for `__EMPTY__`), whatever the device fields say.
pub proof fn lemma_custom_prop_overrides_device_fields(m: MergedAppConfig, i: int)
    requires
        m.custom_props is Some,
        m.custom_props->0.inv(),
        0 <= i < m.custom_props->0.str_pairs().len(),
        m.custom_props->0.str_pairs()[i].1 != delete_marker(),
        m.custom_props->0.str_pairs()[i].1.len() > 0,
        !has_key(telephony_writes(m.telephony_config), m.custom_props->0.str_pairs()[i].0),
    ensures
        property_map(m).contains_key(m.custom_props->0.str_pairs()[i].0),
        property_map(m)[m.custom_props->0.str_pairs()[i].0] == (if m.custom_props->0.str_pairs()[i].1
            == empty_marker() {
            Seq::<char>::empty()
        } else {
            m.custom_props->0.str_pairs()[i].1
        }),
{
    let c = m.custom_props->0;
    let ps = c.str_pairs();
    let k = ps[i].0;
    assert forall|j: int| i < j < ps.len() implies #[trigger] ps[j].0 != ps[i].0 by {
        assert(ps[j].0 == c.pairs()[j].0);
        assert(ps[i].0 == c.pairs()[i].0);
    }
    let d = device_writes(m);
    let t = telephony_writes(m.telephony_config);
    let cs = custom_writes(ps);
    lemma_apply_concat(Map::empty(), d, cs);
    lemma_apply_concat(Map::empty(), d + cs, t);
    lemma_custom_writes_value(map_of_pairs(d), ps, i);
    lemma_apply_untouched(apply_pairs(map_of_pairs(d), cs), t, k);
}

/// A custom property marked `__DELETE__` (or left empty) that neither a device
/// field nor a telephony setting writes is absent from the property map.
pub proof fn lemma_deleted_custom_prop_absent(m: MergedAppConfig, i: int)
    requires
        m.custom_props is Some,
        m.custom_props->0.inv(),
        0 <= i < m.custom_props->0.str_pairs().len(),
        m.custom_props->0.str_pairs()[i].1 == delete_marker() || m.custom_props->0.str_pairs()[i].1.len()
            == 0,
        !has_key(device_writes(m), m.custom_props->0.str_pairs()[i].0),
        !has_key(telephony_writes(m.telephony_config), m.custom_props->0.str_pairs()[i].0),
    ensures
        !property_map(m).contains_key(m.custom_props->0.str_pairs()[i].0),
{
    let c = m.custom_props->0;
    let ps = c.str_pairs();
    let k = ps[i].0;
    let ws = property_writes(m);
    let cs = custom_writes(ps);
    assert forall|a: int, b: int| 0 <= a < b < ps.len() implies #[trigger] ps[a].0 != #[trigger] ps[b].0 by {
        assert(ps[a].0 == c.pairs()[a].0);
        assert(ps[b].0 == c.pairs()[b].0);
    }
    lemma_custom_writes_keys_except(ps, i);
    lemma_has_key_concat(device_writes(m), cs, k);
    lemma_has_key_concat(device_writes(m) + cs, telephony_writes(m.telephony_config), k);
    lemma_apply_domain(Map::empty(), ws, k);
}

/// Empty values are ignored: a property maps to the empty string only when a
/// custom entry for it is marked `__EMPTY__`.
pub proof fn lemma_empty_value_only_from_empty_marker(m: MergedAppConfig, k: Seq<char>)
    requires
        property_map(m).contains_key(k),
        property_map(m)[k].len() == 0,
    ensures
        m.custom_props is Some,
        has_write(m.custom_props->0.str_pairs(), k, empty_marker()),
{
    let d = device_writes(m);
    let c = custom_section(m.custom_props);
    let t = telephony_writes(m.telephony_config);
    let ws = property_writes(m);
    let v = property_map(m)[k];
    lemma_apply_value_source(Map::empty(), ws, k);
    lemma_device_writes_ok(m);
    lemma_telephony_writes_ok(m.telephony_config);
    reveal(values_ok);
    reveal(values_nonempty);
    let i = choose|i: int| 0 <= i < ws.len() && #[trigger] ws[i] == (k, v);
    if i < d.len() {
        assert(ws[i] == d[i]);
    } else if i < d.len() + c.len() {
        assert(ws[i] == c[i - d.len()]);
        lemma_custom_write_at(m.custom_props->0.str_pairs(), i - d.len());
    } else {
        assert(ws[i] == t[i - d.len() - c.len()]);
    }
}

/// A value marked `__DELETE__` reaches the property map only through the
/// settings that the delete list has no entry for: the Android release
/// version and the telephony settings (or an operator numeric code, MCC
/// followed by MNC, that spells the marker).
pub proof fn lemma_no_delete_marker_in_map(m: MergedAppConfig, k: Seq<char>)
    requires
        property_map(m).contains_key(k),
        !marked(m.android_version),
        telephony_unmarked(m.telephony_config),
    ensures
        property_map(m)[k] != delete_marker(),
{
    let d = device_writes(m);
    let c = custom_section(m.custom_props);
    let t = telephony_writes(m.telephony_config);
    let ws = property_writes(m);
    let v = property_map(m)[k];
    lemma_apply_value_source(Map::empty(), ws, k);
    lemma_device_writes_ok(m);
    lemma_telephony_writes_ok(m.telephony_config);
    reveal(values_ok);
    reveal(values_nonempty);
    let i = choose|i: int| 0 <= i < ws.len() && #[trigger] ws[i] == (k, v);
    if i < d.len() {
        assert(ws[i] == d[i]);
    } else if i < d.len() + c.len() {
        assert(ws[i] == c[i - d.len()]);
        lemma_custom_write_at(m.custom_props->0.str_pairs(), i - d.len());
    } else {
        assert(ws[i] == t[i - d.len() - c.len()]);
    }
}

/// Telephony settings are written last: a telephony write that no later
/// telephony write overrides decides the property's value.
pub proof fn lemma_telephony_writes_win(m: MergedAppConfig, i: int)
    requires
        0 <= i < telephony_writes(m.telephony_config).len(),
        forall|j: int|
            i < j < telephony_writes(m.telephony_config).len() ==> #[trigger] telephony_writes(
                m.telephony_config,
            )[j].0 != telephony_writes(m.telephony_config)[i].0,
    ensures
        property_map(m).contains_key(telephony_writes(m.telephony_config)[i].0),
        property_map(m)[telephony_writes(m.telephony_config)[i].0] == telephony_writes(
            m.telephony_config,
        )[i].1,
{
    let t = telephony_writes(m.telephony_config);
    let front = device_writes(m) + custom_section(m.custom_props);
    let ws = property_writes(m);
    let idx = front.len() + i;
    assert(ws[idx] == t[i]);
    assert forall|j: int| idx < j < ws.len() implies #[trigger] ws[j].0 != ws[idx].0 by {
        assert(ws[j] == t[j - front.len()]);
    }
    lemma_apply_last_write(Map::empty(), ws, idx);
}

// ── Which write sets a key ─────────────────────────────────────────────────

/// A key of `writes_for(keys, v)` is one of `keys`.
pub(crate) proof fn lemma_writes_for_has_key(keys: Seq<Seq<char>>, v: Seq<char>, k: Seq<char>)
    ensures
        has_key(writes_for(keys, v), k) <==> keys.contains(k),
{
    let ws = writes_for(keys, v);
    if has_key(ws, k) {
        let i = choose|i: int| 0 <= i < ws.len() && #[trigger] ws[i].0 == k;
        assert(keys[i] == k);
    }
    if keys.contains(k) {
        let i = choose|i: int| 0 <= i < keys.len() && keys[i] == k;
        assert(ws[i].0 == k);
    }
}

/// Writing `v` to each of `keys` leaves `v` at every one of them.
pub(crate) proof fn lemma_writes_for_value(
    start: Map<Seq<char>, Seq<char>>,
    keys: Seq<Seq<char>>,
    v: Seq<char>,
    k: Seq<char>,
)
    requires
        keys.contains(k),
    ensures
        apply_pairs(start, writes_for(keys, v)).contains_key(k),
        apply_pairs(start, writes_for(keys, v))[k] == v,
    decreases keys.len(),
{
    let ws = writes_for(keys, v);
    assert(ws.drop_last() =~= writes_for(keys.drop_last(), v));
    if keys.last() != k {
        let i = choose|i: int| 0 <= i < keys.len() && keys[i] == k;
        assert(keys.drop_last()[i] == k);
        lemma_writes_for_value(start, keys.drop_last(), v, k);
    }
}

/// The last two characters of `s` are `ce`.
pub open spec fn ends_ce(s: Seq<char>) -> bool {
    s.len() >= 2 && s[s.len() - 2] == 'c' && s[s.len() - 1] == 'e'
}

/// No key of `ws` ends in `ce`.
#[verifier::opaque]
pub open spec fn no_ce_keys(ws: Writes) -> bool {
    forall|i: int| 0 <= i < ws.len() ==> !ends_ce(#[trigger] ws[i].0)
}

proof fn lemma_ends_concat(a: Seq<char>, b: Seq<char>)
    requires
        b.len() >= 2,
    ensures
        ends_ce(a + b) == ends_ce(b),
{
    let s = a + b;
    assert(s[s.len() - 2] == b[b.len() - 2]);
    assert(s[s.len() - 1] == b[b.len() - 1]);
}

proof fn lemma_product_keys_end(f: Seq<char>)
    requires
        f.len() >= 2,
    ensures
        forall|i: int| 0 <= i < product_keys(f).len() ==> ends_ce(#[trigger] product_keys(f)[i]) == ends_ce(f),
{
    let pk = product_keys(f);
    assert forall|i: int| 0 <= i < pk.len() implies ends_ce(#[trigger] pk[i]) == ends_ce(f) by {
        if i == 0 {
            lemma_ends_concat("ro.product."@, f);
        } else {
            let p = partition_prefixes()[i - 1];
            assert(pk[i] == "ro.product."@ + p + "."@ + f);
            lemma_ends_concat("ro.product."@ + p + "."@, f);
        }
    }
}

proof fn lemma_no_ce_concat(a: Writes, b: Writes)
    requires
        no_ce_keys(a),
        no_ce_keys(b),
    ensures
        no_ce_keys(a + b),
{
    reveal(no_ce_keys);
    assert forall|i: int| 0 <= i < (a + b).len() implies !ends_ce(#[trigger] (a + b)[i].0) by {
        if i < a.len() {
            assert((a + b)[i] == a[i]);
        } else {
            assert((a + b)[i] == b[i - a.len()]);
        }
    }
}

proof fn lemma_no_ce_when_usable(v: Option<String>, keys: Seq<Seq<char>>)
    requires
        forall|i: int| 0 <= i < keys.len() ==> !ends_ce(#[trigger] keys[i]),
    ensures
        no_ce_keys(when_usable(v, keys)),
{
    reveal(no_ce_keys);
}

proof fn lemma_no_ce_when_filled(v: Option<String>, keys: Seq<Seq<char>>)
    requires
        forall|i: int| 0 <= i < keys.len() ==> !ends_ce(#[trigger] keys[i]),
    ensures
        no_ce_keys(when_filled(v, keys)),
{
    reveal(no_ce_keys);
}

proof fn lemma_no_ce_product_keys(v: Option<String>, f: Seq<char>)
    requires
        f.len() >= 2,
        !ends_ce(f),
    ensures
        no_ce_keys(when_usable(v, product_keys(f))),
{
    lemma_product_keys_end(f);
    lemma_no_ce_when_usable(v, product_keys(f));
}

proof fn lemma_no_ce_means_no_key(ws: Writes, k: Seq<char>)
    requires
        no_ce_keys(ws),
        ends_ce(k),
    ensures
        !has_key(ws, k),
{
    reveal(no_ce_keys);
    if has_key(ws, k) {
        let i = choose|i: int| 0 <= i < ws.len() && #[trigger] ws[i].0 == k;
        assert(!ends_ce(ws[i].0));
    }
}

/// The device fields other than the device name write no key ending in `ce`.
proof fn lemma_device_fields_no_ce(m: MergedAppConfig)
    ensures
        no_ce_keys(
            when_usable(m.manufacturer, product_keys("manufacturer"@)) + when_usable(m.brand, product_keys("brand"@))
                + when_usable(m.marketname, seq!["ro.product.marketname"@, "ro.vendor.oplus.market.name"@])
                + when_usable(m.model, product_keys("model"@)) + when_usable(m.name, product_keys("name"@)),
        ),
        no_ce_keys(when_usable(m.hardware, seq!["ro.hardware"@])),
        no_ce_keys(when_usable(m.fingerprint, seq!["ro.build.fingerprint"@])),
        no_ce_keys(when_usable(m.build_id, build_id_keys())),
        no_ce_keys(when_usable(m.characteristics, seq!["ro.build.characteristics"@])),
        no_ce_keys(when_filled(m.android_version, release_keys())),
        no_ce_keys(sdk_writes(m.sdk_int)),
{
    reveal_strlit("manufacturer");
    reveal_strlit("brand");
    reveal_strlit("model");
    reveal_strlit("name");
    reveal_strlit("ro.product.marketname");
    reveal_strlit("ro.vendor.oplus.market.name");
    reveal_strlit("ro.hardware");
    reveal_strlit("ro.build.fingerprint");
    reveal_strlit("ro.build.id");
    reveal_strlit("ro.system.build.id");
    reveal_strlit("ro.vendor.build.id");
    reveal_strlit("ro.product.build.id");
    reveal_strlit("ro.build.characteristics");
    reveal_strlit("ro.build.version.release");
    reveal_strlit("ro.system.build.version.release");
    reveal_strlit("ro.vendor.build.version.release");
    reveal_strlit("ro.product.build.version.release");
    reveal_strlit("ro.build.version.sdk");
    reveal_strlit("ro.system.build.version.sdk");
    reveal_strlit("ro.vendor.build.version.sdk");
    reveal_strlit("ro.product.build.version.sdk");
    let s1 = when_usable(m.manufacturer, product_keys("manufacturer"@));
    let s2 = when_usable(m.brand, product_keys("brand"@));
    let s3 = when_usable(m.marketname, seq!["ro.product.marketname"@, "ro.vendor.oplus.market.name"@]);
    let s4 = when_usable(m.model, product_keys("model"@));
    let s5 = when_usable(m.name, product_keys("name"@));
    lemma_no_ce_product_keys(m.manufacturer, "manufacturer"@);
    lemma_no_ce_product_keys(m.brand, "brand"@);
    lemma_no_ce_when_usable(m.marketname, seq!["ro.product.marketname"@, "ro.vendor.oplus.market.name"@]);
    lemma_no_ce_product_keys(m.model, "model"@);
    lemma_no_ce_product_keys(m.name, "name"@);
    lemma_no_ce_concat(s1, s2);
    lemma_no_ce_concat(s1 + s2, s3);
    lemma_no_ce_concat(s1 + s2 + s3, s4);
    lemma_no_ce_concat(s1 + s2 + s3 + s4, s5);
    lemma_no_ce_when_usable(m.hardware, seq!["ro.hardware"@]);
    lemma_no_ce_when_usable(m.fingerprint, seq!["ro.build.fingerprint"@]);
    lemma_no_ce_when_usable(m.build_id, build_id_keys());
    lemma_no_ce_when_usable(m.characteristics, seq!["ro.build.characteristics"@]);
    lemma_no_ce_when_filled(m.android_version, release_keys());
    assert(no_ce_keys(sdk_writes(m.sdk_int))) by {
        reveal(no_ce_keys);
    }
}

/// The telephony settings write no key ending in `ce`.
proof fn lemma_telephony_no_ce(tc: TelephonyConfig)
    ensures
        no_ce_keys(telephony_writes(tc)),
{
    reveal_strlit("gsm.sim.operator.iso-country");
    reveal_strlit("gsm.operator.iso-country");
    reveal_strlit("gsm.sim.operator.mcc");
    reveal_strlit("gsm.operator.mcc");
    reveal_strlit("gsm.sim.operator.mnc");
    reveal_strlit("gsm.operator.mnc");
    reveal_strlit("gsm.sim.operator.numeric");
    reveal_strlit("gsm.operator.numeric");
    reveal_strlit("gsm.sim.operator.alpha");
    reveal_strlit("gsm.operator.alpha");
    reveal_strlit("persist.sys.timezone");
    reveal_strlit("persist.radio.iccid");
    reveal_strlit("ro.soc.manufacturer");
    reveal_strlit("ro.soc.model");
    reveal_strlit("ro.hardware.chipname");
    reveal_strlit("ro.bootloader");
    reveal_strlit("ro.baseband");
    reveal_strlit("ro.serialno");
    reveal_strlit("persist.sys.airplane_mode_on");
    reveal_strlit("persist.sys.developer_options");
    let t1 = when_filled(tc.sim_country_iso, seq!["gsm.sim.operator.iso-country"@, "gsm.operator.iso-country"@]);
    let t2 = when_filled(tc.mcc, seq!["gsm.sim.operator.mcc"@, "gsm.operator.mcc"@]);
    let t3 = when_filled(tc.mnc, seq!["gsm.sim.operator.mnc"@, "gsm.operator.mnc"@]);
    let t4 = numeric_writes(tc.mcc, tc.mnc);
    let t5 = when_filled(tc.operator_name, seq!["gsm.sim.operator.alpha"@, "gsm.operator.alpha"@]);
    let t6 = when_filled(tc.timezone, seq!["persist.sys.timezone"@]);
    let t7 = when_filled(tc.iccid, seq!["persist.radio.iccid"@]);
    let t8 = when_filled(tc.soc_manufacturer, seq!["ro.soc.manufacturer"@]);
    let t9 = when_filled(tc.soc_model, seq!["ro.soc.model"@, "ro.hardware.chipname"@]);
    let t10 = when_filled(tc.bootloader, seq!["ro.bootloader"@]);
    let t11 = when_filled(tc.baseband, seq!["ro.baseband"@]);
    let t12 = when_filled(tc.device_serial, seq!["ro.serialno"@]);
    let t13 = when_flag(tc.hide_airplane_mode, "persist.sys.airplane_mode_on"@);
    let t14 = when_flag(tc.hide_developer_mode, "persist.sys.developer_options"@);
    lemma_no_ce_when_filled(tc.sim_country_iso, seq!["gsm.sim.operator.iso-country"@, "gsm.operator.iso-country"@]);
    lemma_no_ce_when_filled(tc.mcc, seq!["gsm.sim.operator.mcc"@, "gsm.operator.mcc"@]);
    lemma_no_ce_when_filled(tc.mnc, seq!["gsm.sim.operator.mnc"@, "gsm.operator.mnc"@]);
    lemma_no_ce_when_filled(tc.operator_name, seq!["gsm.sim.operator.alpha"@, "gsm.operator.alpha"@]);
    lemma_no_ce_when_filled(tc.timezone, seq!["persist.sys.timezone"@]);
    lemma_no_ce_when_filled(tc.iccid, seq!["persist.radio.iccid"@]);
    lemma_no_ce_when_filled(tc.soc_manufacturer, seq!["ro.soc.manufacturer"@]);
    lemma_no_ce_when_filled(tc.soc_model, seq!["ro.soc.model"@, "ro.hardware.chipname"@]);
    lemma_no_ce_when_filled(tc.bootloader, seq!["ro.bootloader"@]);
    lemma_no_ce_when_filled(tc.baseband, seq!["ro.baseband"@]);
    lemma_no_ce_when_filled(tc.device_serial, seq!["ro.serialno"@]);
    assert(no_ce_keys(t4) && no_ce_keys(t13) && no_ce_keys(t14)) by {
        reveal(no_ce_keys);
    }
    let a = t1 + t2;
    lemma_no_ce_concat(t1, t2);
    let b = a + t3;
    lemma_no_ce_concat(a, t3);
    let c = b + t4;
    lemma_no_ce_concat(b, t4);
    let d = c + t5;
    lemma_no_ce_concat(c, t5);
    let e = d + t6;
    lemma_no_ce_concat(d, t6);
    let f = e + t7;
    lemma_no_ce_concat(e, t7);
    let g = f + t8;
    lemma_no_ce_concat(f, t8);
    let h = g + t9;
    lemma_no_ce_concat(g, t9);
    let i = h + t10;
    lemma_no_ce_concat(h, t10);
    let j = i + t11;
    lemma_no_ce_concat(i, t11);
    let k = j + t12;
    lemma_no_ce_concat(j, t12);
    let l = k + t13;
    lemma_no_ce_concat(k, t13);
    lemma_no_ce_concat(l, t14);
    assert(telephony_writes(tc) == l + t14);
}

/// The device keys (`ro.product.device` and its partition variants) carry the
/// device name when it is set, else the product name; a value that is empty
/// or marked `__DELETE__` is never written there. A set device name, even
/// one marked `__DELETE__`, keeps the product name out of these keys.
/// (Custom properties for the key aside: they override.)
pub proof fn lemma_device_keys(m: MergedAppConfig, k: Seq<char>)
    requires
        product_keys("device"@).contains(k),
        m.custom_props is None || !has_key(m.custom_props->0.str_pairs(), k),
    ensures
        property_map(m).contains_key(k) <==> (usable(m.device) || (!is_filled(m.device) && usable(m.name))),
        usable(m.device) ==> property_map(m)[k] == m.device->0@,
        !is_filled(m.device) && usable(m.name) ==> property_map(m)[k] == m.name->0@,
{
    reveal_strlit("device");
    lemma_product_keys_end("device"@);
    assert(ends_ce(k));
    let s1 = when_usable(m.manufacturer, product_keys("manufacturer"@));
    let s2 = when_usable(m.brand, product_keys("brand"@));
    let s3 = when_usable(m.marketname, seq!["ro.product.marketname"@, "ro.vendor.oplus.market.name"@]);
    let s4 = when_usable(m.model, product_keys("model"@));
    let s5 = when_usable(m.name, product_keys("name"@));
    let s6 = device_name_writes(m);
    let s7 = when_usable(m.hardware, seq!["ro.hardware"@]);
    let s8 = when_usable(m.fingerprint, seq!["ro.build.fingerprint"@]);
    let s9 = when_usable(m.build_id, build_id_keys());
    let s10 = when_usable(m.characteristics, seq!["ro.build.characteristics"@]);
    let s11 = when_filled(m.android_version, release_keys());
    let s12 = sdk_writes(m.sdk_int);
    let cs = custom_section(m.custom_props);
    let t = telephony_writes(m.telephony_config);
    lemma_device_fields_no_ce(m);
    lemma_telephony_no_ce(m.telephony_config);
    let p = s1 + s2 + s3 + s4 + s5;
    lemma_no_ce_means_no_key(p, k);
    lemma_no_ce_means_no_key(s7, k);
    lemma_no_ce_means_no_key(s8, k);
    lemma_no_ce_means_no_key(s9, k);
    lemma_no_ce_means_no_key(s10, k);
    lemma_no_ce_means_no_key(s11, k);
    lemma_no_ce_means_no_key(s12, k);
    lemma_no_ce_means_no_key(t, k);
    if m.custom_props is Some {
        if has_key(cs, k) {
            lemma_custom_writes_keys(m.custom_props->0.str_pairs(), k);
        }
    }
    assert(!has_key(cs, k));
    let e = Map::<Seq<char>, Seq<char>>::empty();
    lemma_apply_domain(e, p, k);
    let m0 = apply_pairs(e, p);
    let q = p + s6;
    lemma_apply_concat(e, p, s6);
    let m1 = apply_pairs(e, q);
    if usable(m.device) {
        lemma_writes_for_value(m0, product_keys("device"@), m.device->0@, k);
    } else if !is_filled(m.device) && usable(m.name) {
        lemma_writes_for_value(m0, product_keys("device"@), m.name->0@, k);
    } else {
        assert(s6 == Seq::<(Seq<char>, Seq<char>)>::empty());
    }
    let d7 = q + s7;
    lemma_apply_concat(e, q, s7);
    lemma_apply_untouched(m1, s7, k);
    let d8 = d7 + s8;
    lemma_apply_concat(e, d7, s8);
    lemma_apply_untouched(apply_pairs(e, d7), s8, k);
    let d9 = d8 + s9;
    lemma_apply_concat(e, d8, s9);
    lemma_apply_untouched(apply_pairs(e, d8), s9, k);
    let d10 = d9 + s10;
    lemma_apply_concat(e, d9, s10);
    lemma_apply_untouched(apply_pairs(e, d9), s10, k);
    let d11 = d10 + s11;
    lemma_apply_concat(e, d10, s11);
    lemma_apply_untouched(apply_pairs(e, d10), s11, k);
    let d = d11 + s12;
    lemma_apply_concat(e, d11, s12);
    lemma_apply_untouched(apply_pairs(e, d11), s12, k);
    assert(device_writes(m) == d);
    lemma_apply_concat(e, d, cs);
    lemma_apply_untouched(apply_pairs(e, d), cs, k);
    lemma_apply_concat(e, d + cs, t);
    lemma_apply_untouched(apply_pairs(e, d + cs), t, k);
}

} // verus!
