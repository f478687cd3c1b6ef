//! Laws on the values that the device-field and telephony keys of the property
//! map carry: each key holds the value of the setting it stands for.

use vstd::prelude::*;

use crate::config::{MergedAppConfig, TelephonyConfig};
use crate::keyed_map::{apply_pairs, has_key, lemma_apply_concat, lemma_apply_untouched};
use crate::property_laws::{
    lemma_custom_writes_keys, lemma_writes_for_has_key, lemma_writes_for_value,
};
use crate::property_map::{
    build_id_keys, custom_section, device_name_writes, device_writes, numeric_writes, product_keys,
    property_map, release_keys, sdk_keys, sdk_writes, telephony_writes, usable, when_filled, when_flag,
    when_usable, writes_for, Writes,
};
use crate::strings::{decimal, is_filled};

verus! {

/// The writes of a list of sections, one section after the other.
pub open spec fn flat(s: Seq<Writes>) -> Writes
    decreases s.len(),
{
    if s.len() == 0 {
        Seq::empty()
    } else {
        flat(s.drop_last()) + s.last()
    }
}

proof fn lemma_flat_has_key(s: Seq<Writes>, k: Seq<char>)
    requires
        has_key(flat(s), k),
    ensures
        exists|l: int| 0 <= l < s.len() && has_key(#[trigger] s[l], k),
    decreases s.len(),
{
    let front = s.drop_last();
    crate::property_laws::lemma_has_key_concat(flat(front), s.last(), k);
    if has_key(flat(front), k) {
        lemma_flat_has_key(front, k);
        let l = choose|l: int| 0 <= l < front.len() && has_key(#[trigger] front[l], k);
        assert(s[l] == front[l]);
    } else {
        assert(has_key(s[s.len() - 1], k));
    }
}

proof fn lemma_flat_value(
    start: Map<Seq<char>, Seq<char>>,
    s: Seq<Writes>,
    f: int,
    keys: Seq<Seq<char>>,
    v: Seq<char>,
    k: Seq<char>,
)
    requires
        0 <= f < s.len(),
        s[f] == writes_for(keys, v),
        keys.contains(k),
        forall|l: int| f < l < s.len() ==> !has_key(#[trigger] s[l], k),
    ensures
        apply_pairs(start, flat(s)).contains_key(k),
        apply_pairs(start, flat(s))[k] == v,
    decreases s.len(),
{
    let front = s.drop_last();
    lemma_apply_concat(start, flat(front), s.last());
    if f == s.len() - 1 {
        lemma_writes_for_value(apply_pairs(start, flat(front)), keys, v, k);
    } else {
        assert forall|l: int| f < l < front.len() implies !has_key(#[trigger] front[l], k) by {
            assert(front[l] == s[l]);
        }
        assert(front[f] == s[f]);
        lemma_flat_value(start, front, f, keys, v, k);
        assert(!has_key(s[s.len() - 1], k));
        lemma_apply_untouched(apply_pairs(start, flat(front)), s.last(), k);
    }
}

/// The device-field sections of the property writes, in order.
pub open spec fn device_sections(m: MergedAppConfig) -> Seq<Writes> {
    seq![
        when_usable(m.manufacturer, product_keys("manufacturer"@)),
        when_usable(m.brand, product_keys("brand"@)),
        when_usable(m.marketname, seq!["ro.product.marketname"@, "ro.vendor.oplus.market.name"@]),
        when_usable(m.model, product_keys("model"@)),
        when_usable(m.name, product_keys("name"@)),
        device_name_writes(m),
        when_usable(m.hardware, seq!["ro.hardware"@]),
        when_usable(m.fingerprint, seq!["ro.build.fingerprint"@]),
        when_usable(m.build_id, build_id_keys()),
        when_usable(m.characteristics, seq!["ro.build.characteristics"@]),
        when_filled(m.android_version, release_keys()),
        sdk_writes(m.sdk_int),
    ]
}

/// The keys each device-field section may write, spelled out.
pub open spec fn device_section_keys() -> Seq<Seq<Seq<char>>> {
    seq![
        seq![
            "ro.product.manufacturer"@,
            "ro.product.odm.manufacturer"@,
            "ro.product.vendor.manufacturer"@,
            "ro.product.system.manufacturer"@,
            "ro.product.system_ext.manufacturer"@,
            "ro.product.product.manufacturer"@,
            "ro.product.bootimage.manufacturer"@,
        ],
        seq![
            "ro.product.brand"@,
            "ro.product.odm.brand"@,
            "ro.product.vendor.brand"@,
            "ro.product.system.brand"@,
            "ro.product.system_ext.brand"@,
            "ro.product.product.brand"@,
            "ro.product.bootimage.brand"@,
        ],
        seq!["ro.product.marketname"@, "ro.vendor.oplus.market.name"@],
        seq![
            "ro.product.model"@,
            "ro.product.odm.model"@,
            "ro.product.vendor.model"@,
            "ro.product.system.model"@,
            "ro.product.system_ext.model"@,
            "ro.product.product.model"@,
            "ro.product.bootimage.model"@,
        ],
        seq![
            "ro.product.name"@,
            "ro.product.odm.name"@,
            "ro.product.vendor.name"@,
            "ro.product.system.name"@,
            "ro.product.system_ext.name"@,
            "ro.product.product.name"@,
            "ro.product.bootimage.name"@,
        ],
        seq![
            "ro.product.device"@,
            "ro.product.odm.device"@,
            "ro.product.vendor.device"@,
            "ro.product.system.device"@,
            "ro.product.system_ext.device"@,
            "ro.product.product.device"@,
            "ro.product.bootimage.device"@,
        ],
        seq!["ro.hardware"@],
        seq!["ro.build.fingerprint"@],
        seq!["ro.build.id"@, "ro.system.build.id"@, "ro.vendor.build.id"@, "ro.product.build.id"@],
        seq!["ro.build.characteristics"@],
        seq![
            "ro.build.version.release"@,
            "ro.system.build.version.release"@,
            "ro.vendor.build.version.release"@,
            "ro.product.build.version.release"@,
        ],
        seq![
            "ro.build.version.sdk"@,
            "ro.system.build.version.sdk"@,
            "ro.vendor.build.version.sdk"@,
            "ro.product.build.version.sdk"@,
        ],
    ]
}

/// The telephony sections of the property writes, in order.
pub open spec fn telephony_sections(tc: TelephonyConfig) -> Seq<Writes> {
    seq![
        when_filled(tc.sim_country_iso,seq![
            "gsm.sim.operator.iso-country"@,
            "gsm.operator.iso-country"@,
        ]),
        when_filled(tc.mcc, seq!["gsm.sim.operator.mcc"@, "gsm.operator.mcc"@]),
        when_filled(tc.mnc, seq!["gsm.sim.operator.mnc"@, "gsm.operator.mnc"@]),
        numeric_writes(tc.mcc, tc.mnc),
        when_filled(tc.operator_name, seq!["gsm.sim.operator.alpha"@, "gsm.operator.alpha"@]),
        when_filled(tc.timezone, seq!["persist.sys.timezone"@]),
        when_filled(tc.iccid, seq!["persist.radio.iccid"@]),
        when_filled(tc.soc_manufacturer, seq!["ro.soc.manufacturer"@]),
        when_filled(tc.soc_model, seq!["ro.soc.model"@, "ro.hardware.chipname"@]),
        when_filled(tc.bootloader, seq!["ro.bootloader"@]),
        when_filled(tc.baseband, seq!["ro.baseband"@]),
        when_filled(tc.device_serial, seq!["ro.serialno"@]),
        when_flag(tc.hide_airplane_mode, "persist.sys.airplane_mode_on"@),
        when_flag(tc.hide_developer_mode, "persist.sys.developer_options"@),
    ]
}

/// Every key a telephony setting may write, spelled out.
pub open spec fn telephony_keys() -> Seq<Seq<char>> {
    seq![
        "gsm.sim.operator.iso-country"@,
        "gsm.operator.iso-country"@,
        "gsm.sim.operator.mcc"@,
        "gsm.operator.mcc"@,
        "gsm.sim.operator.mnc"@,
        "gsm.operator.mnc"@,
        "gsm.sim.operator.numeric"@,
        "gsm.operator.numeric"@,
        "gsm.sim.operator.alpha"@,
        "gsm.operator.alpha"@,
        "persist.sys.timezone"@,
        "persist.radio.iccid"@,
        "ro.soc.manufacturer"@,
        "ro.soc.model"@,
        "ro.hardware.chipname"@,
        "ro.bootloader"@,
        "ro.baseband"@,
        "ro.serialno"@,
        "persist.sys.airplane_mode_on"@,
        "persist.sys.developer_options"@,
    ]
}


proof fn lemma_manufacturer_keys_spelled()
    ensures
        product_keys("manufacturer"@) == device_section_keys()[0],
{
    reveal_strlit("manufacturer");
    reveal_strlit("ro.product.");
    reveal_strlit(".");
    reveal_strlit("odm");
    reveal_strlit("vendor");
    reveal_strlit("system");
    reveal_strlit("system_ext");
    reveal_strlit("product");
    reveal_strlit("bootimage");
    reveal_strlit("ro.product.manufacturer");
    reveal_strlit("ro.product.odm.manufacturer");
    reveal_strlit("ro.product.vendor.manufacturer");
    reveal_strlit("ro.product.system.manufacturer");
    reveal_strlit("ro.product.system_ext.manufacturer");
    reveal_strlit("ro.product.product.manufacturer");
    reveal_strlit("ro.product.bootimage.manufacturer");
    assert(product_keys("manufacturer"@) =~~= device_section_keys()[0]);
}

proof fn lemma_brand_keys_spelled()
    ensures
        product_keys("brand"@) == device_section_keys()[1],
{
    reveal_strlit("brand");
    reveal_strlit("ro.product.");
    reveal_strlit(".");
    reveal_strlit("odm");
    reveal_strlit("vendor");
    reveal_strlit("system");
    reveal_strlit("system_ext");
    reveal_strlit("product");
    reveal_strlit("bootimage");
    reveal_strlit("ro.product.brand");
    reveal_strlit("ro.product.odm.brand");
    reveal_strlit("ro.product.vendor.brand");
    reveal_strlit("ro.product.system.brand");
    reveal_strlit("ro.product.system_ext.brand");
    reveal_strlit("ro.product.product.brand");
    reveal_strlit("ro.product.bootimage.brand");
    assert(product_keys("brand"@) =~~= device_section_keys()[1]);
}

proof fn lemma_model_keys_spelled()
    ensures
        product_keys("model"@) == device_section_keys()[3],
{
    reveal_strlit("model");
    reveal_strlit("ro.product.");
    reveal_strlit(".");
    reveal_strlit("odm");
    reveal_strlit("vendor");
    reveal_strlit("system");
    reveal_strlit("system_ext");
    reveal_strlit("product");
    reveal_strlit("bootimage");
    reveal_strlit("ro.product.model");
    reveal_strlit("ro.product.odm.model");
    reveal_strlit("ro.product.vendor.model");
    reveal_strlit("ro.product.system.model");
    reveal_strlit("ro.product.system_ext.model");
    reveal_strlit("ro.product.product.model");
    reveal_strlit("ro.product.bootimage.model");
    assert(product_keys("model"@) =~~= device_section_keys()[3]);
}

proof fn lemma_name_keys_spelled()
    ensures
        product_keys("name"@) == device_section_keys()[4],
{
    reveal_strlit("name");
    reveal_strlit("ro.product.");
    reveal_strlit(".");
    reveal_strlit("odm");
    reveal_strlit("vendor");
    reveal_strlit("system");
    reveal_strlit("system_ext");
    reveal_strlit("product");
    reveal_strlit("bootimage");
    reveal_strlit("ro.product.name");
    reveal_strlit("ro.product.odm.name");
    reveal_strlit("ro.product.vendor.name");
    reveal_strlit("ro.product.system.name");
    reveal_strlit("ro.product.system_ext.name");
    reveal_strlit("ro.product.product.name");
    reveal_strlit("ro.product.bootimage.name");
    assert(product_keys("name"@) =~~= device_section_keys()[4]);
}

proof fn lemma_device_keys_spelled()
    ensures
        product_keys("device"@) == device_section_keys()[5],
{
    reveal_strlit("device");
    reveal_strlit("ro.product.");
    reveal_strlit(".");
    reveal_strlit("odm");
    reveal_strlit("vendor");
    reveal_strlit("system");
    reveal_strlit("system_ext");
    reveal_strlit("product");
    reveal_strlit("bootimage");
    reveal_strlit("ro.product.device");
    reveal_strlit("ro.product.odm.device");
    reveal_strlit("ro.product.vendor.device");
    reveal_strlit("ro.product.system.device");
    reveal_strlit("ro.product.system_ext.device");
    reveal_strlit("ro.product.product.device");
    reveal_strlit("ro.product.bootimage.device");
    assert(product_keys("device"@) =~~= device_section_keys()[5]);
}

proof fn lemma_device_flat(m: MergedAppConfig)
    ensures
        flat(device_sections(m)) == device_writes(m),
{
    let s = device_sections(m);
    reveal_with_fuel(flat, 13);
    assert(s.drop_last() =~= s.take(11));
    assert(s.take(11).drop_last() =~= s.take(10));
    assert(s.take(10).drop_last() =~= s.take(9));
    assert(s.take(9).drop_last() =~= s.take(8));
    assert(s.take(8).drop_last() =~= s.take(7));
    assert(s.take(7).drop_last() =~= s.take(6));
    assert(s.take(6).drop_last() =~= s.take(5));
    assert(s.take(5).drop_last() =~= s.take(4));
    assert(s.take(4).drop_last() =~= s.take(3));
    assert(s.take(3).drop_last() =~= s.take(2));
    assert(s.take(2).drop_last() =~= s.take(1));
    assert(s.take(1).drop_last() =~= s.take(0));
    assert(flat(s) =~= device_writes(m));
}

proof fn lemma_telephony_flat(tc: TelephonyConfig)
    ensures
        flat(telephony_sections(tc)) == telephony_writes(tc),
{
    let s = telephony_sections(tc);
    reveal_with_fuel(flat, 15);
    assert(s.drop_last() =~= s.take(13));
    assert(s.take(13).drop_last() =~= s.take(12));
    assert(s.take(12).drop_last() =~= s.take(11));
    assert(s.take(11).drop_last() =~= s.take(10));
    assert(s.take(10).drop_last() =~= s.take(9));
    assert(s.take(9).drop_last() =~= s.take(8));
    assert(s.take(8).drop_last() =~= s.take(7));
    assert(s.take(7).drop_last() =~= s.take(6));
    assert(s.take(6).drop_last() =~= s.take(5));
    assert(s.take(5).drop_last() =~= s.take(4));
    assert(s.take(4).drop_last() =~= s.take(3));
    assert(s.take(3).drop_last() =~= s.take(2));
    assert(s.take(2).drop_last() =~= s.take(1));
    assert(s.take(1).drop_last() =~= s.take(0));
    assert(flat(s) =~= telephony_writes(tc));
}

proof fn lemma_usable_keys(v: Option<String>, keys: Seq<Seq<char>>, k: Seq<char>)
    requires
        has_key(when_usable(v, keys), k),
    ensures
        keys.contains(k),
{
    lemma_writes_for_has_key(keys, v->0@, k);
}

proof fn lemma_filled_keys(v: Option<String>, keys: Seq<Seq<char>>, k: Seq<char>)
    requires
        has_key(when_filled(v, keys), k),
    ensures
        keys.contains(k),
{
    lemma_writes_for_has_key(keys, v->0@, k);
}

proof fn lemma_flag_keys(flag: bool, key: Seq<char>, k: Seq<char>)
    requires
        has_key(when_flag(flag, key), k),
    ensures
        k == key,
{
}

/// Each device-field section writes only its own keys.
proof fn lemma_device_section_keys(m: MergedAppConfig, l: int, k: Seq<char>)
    requires
        0 <= l < 12,
        has_key(device_sections(m)[l], k),
    ensures
        device_section_keys()[l].contains(k),
{
    let s = device_sections(m);
    let ks = device_section_keys();
    if l == 0 {
        lemma_manufacturer_keys_spelled();
        lemma_usable_keys(m.manufacturer, product_keys("manufacturer"@), k);
    } else if l == 1 {
        lemma_brand_keys_spelled();
        lemma_usable_keys(m.brand, product_keys("brand"@), k);
    } else if l == 2 {
        lemma_usable_keys(m.marketname,seq![
            "ro.product.marketname"@,
            "ro.vendor.oplus.market.name"@,
        ], k);
    } else if l == 3 {
        lemma_model_keys_spelled();
        lemma_usable_keys(m.model, product_keys("model"@), k);
    } else if l == 4 {
        lemma_name_keys_spelled();
        lemma_usable_keys(m.name, product_keys("name"@), k);
    } else if l == 5 {
        lemma_device_keys_spelled();
        if is_filled(m.device) {
            lemma_usable_keys(m.device, product_keys("device"@), k);
        } else {
            lemma_usable_keys(m.name, product_keys("device"@), k);
        }
    } else if l == 6 {
        lemma_usable_keys(m.hardware, seq!["ro.hardware"@], k);
    } else if l == 7 {
        lemma_usable_keys(m.fingerprint, seq!["ro.build.fingerprint"@], k);
    } else if l == 8 {
        lemma_usable_keys(m.build_id, build_id_keys(), k);
    } else if l == 9 {
        lemma_usable_keys(m.characteristics, seq!["ro.build.characteristics"@], k);
    } else if l == 10 {
        lemma_filled_keys(m.android_version, release_keys(), k);
    } else if l == 11 {
        if let Some(n) = m.sdk_int {
            lemma_writes_for_has_key(sdk_keys(), decimal(n as nat), k);
        }
    }
}

/// The telephony settings write only the telephony keys.
proof fn lemma_telephony_keys(tc: TelephonyConfig, k: Seq<char>)
    requires
        has_key(telephony_writes(tc), k),
    ensures
        telephony_keys().contains(k),
{
    let s = telephony_sections(tc);
    let all = telephony_keys();
    lemma_telephony_flat(tc);
    lemma_flat_has_key(s, k);
    let l = choose|l: int| 0 <= l < s.len() && has_key(#[trigger] s[l], k);
    if l == 0 {
        lemma_filled_keys(tc.sim_country_iso,seq![
            "gsm.sim.operator.iso-country"@,
            "gsm.operator.iso-country"@,
        ], k);
        let i = choose|i: int| 0 <= i < 2 &&seq![
            "gsm.sim.operator.iso-country"@,
            "gsm.operator.iso-country"@,
        ][i] == k;
        assert(all[0 + i] == k);
    } else if l == 1 {
        lemma_filled_keys(tc.mcc, seq!["gsm.sim.operator.mcc"@, "gsm.operator.mcc"@], k);
        let i = choose|i: int| 0 <= i < 2 &&seq![
            "gsm.sim.operator.mcc"@,
            "gsm.operator.mcc"@,
        ][i] == k;
        assert(all[2 + i] == k);
    } else if l == 2 {
        lemma_filled_keys(tc.mnc, seq!["gsm.sim.operator.mnc"@, "gsm.operator.mnc"@], k);
        let i = choose|i: int| 0 <= i < 2 &&seq![
            "gsm.sim.operator.mnc"@,
            "gsm.operator.mnc"@,
        ][i] == k;
        assert(all[4 + i] == k);
    } else if l == 3 {
        lemma_writes_for_has_key(seq![
            "gsm.sim.operator.numeric"@,
            "gsm.operator.numeric"@,
        ], tc.mcc->0@ + tc.mnc->0@, k);
        let i = choose|i: int| 0 <= i < 2 &&seq![
            "gsm.sim.operator.numeric"@,
            "gsm.operator.numeric"@,
        ][i] == k;
        assert(all[6 + i] == k);
    } else if l == 4 {
        lemma_filled_keys(tc.operator_name,seq![
            "gsm.sim.operator.alpha"@,
            "gsm.operator.alpha"@,
        ], k);
        let i = choose|i: int| 0 <= i < 2 &&seq![
            "gsm.sim.operator.alpha"@,
            "gsm.operator.alpha"@,
        ][i] == k;
        assert(all[8 + i] == k);
    } else if l == 5 {
        lemma_filled_keys(tc.timezone, seq!["persist.sys.timezone"@], k);
        let i = choose|i: int| 0 <= i < 1 && seq!["persist.sys.timezone"@][i] == k;
        assert(all[10 + i] == k);
    } else if l == 6 {
        lemma_filled_keys(tc.iccid, seq!["persist.radio.iccid"@], k);
        let i = choose|i: int| 0 <= i < 1 && seq!["persist.radio.iccid"@][i] == k;
        assert(all[11 + i] == k);
    } else if l == 7 {
        lemma_filled_keys(tc.soc_manufacturer, seq!["ro.soc.manufacturer"@], k);
        let i = choose|i: int| 0 <= i < 1 && seq!["ro.soc.manufacturer"@][i] == k;
        assert(all[12 + i] == k);
    } else if l == 8 {
        lemma_filled_keys(tc.soc_model, seq!["ro.soc.model"@, "ro.hardware.chipname"@], k);
        let i = choose|i: int| 0 <= i < 2 && seq!["ro.soc.model"@, "ro.hardware.chipname"@][i] == k;
        assert(all[13 + i] == k);
    } else if l == 9 {
        lemma_filled_keys(tc.bootloader, seq!["ro.bootloader"@], k);
        let i = choose|i: int| 0 <= i < 1 && seq!["ro.bootloader"@][i] == k;
        assert(all[15 + i] == k);
    } else if l == 10 {
        lemma_filled_keys(tc.baseband, seq!["ro.baseband"@], k);
        let i = choose|i: int| 0 <= i < 1 && seq!["ro.baseband"@][i] == k;
        assert(all[16 + i] == k);
    } else if l == 11 {
        lemma_filled_keys(tc.device_serial, seq!["ro.serialno"@], k);
        let i = choose|i: int| 0 <= i < 1 && seq!["ro.serialno"@][i] == k;
        assert(all[17 + i] == k);
    } else if l == 12 {
        lemma_flag_keys(tc.hide_airplane_mode, "persist.sys.airplane_mode_on"@, k);
        assert(all[18] == k);
    } else if l == 13 {
        lemma_flag_keys(tc.hide_developer_mode, "persist.sys.developer_options"@, k);
        assert(all[19] == k);
    }
}

/// The value a device-field section writes at one of its keys stays in the
/// property map when no later section, no custom property and no telephony
/// setting writes that key.
proof fn lemma_device_field_value(m: MergedAppConfig, f: int, v: Seq<char>, k: Seq<char>)
    requires
        0 <= f < 12,
        device_sections(m)[f] == writes_for(device_section_keys()[f], v),
        device_section_keys()[f].contains(k),
        forall|l: int| f < l < 12 ==> !(#[trigger] device_section_keys()[l]).contains(k),
        !telephony_keys().contains(k),
        m.custom_props is None || !has_key(m.custom_props->0.str_pairs(), k),
    ensures
        property_map(m).contains_key(k),
        property_map(m)[k] == v,
{
    let e = Map::<Seq<char>, Seq<char>>::empty();
    let s = device_sections(m);
    let d = device_writes(m);
    let c = custom_section(m.custom_props);
    let t = telephony_writes(m.telephony_config);
    lemma_device_flat(m);
    assert forall|l: int| f < l < s.len() implies !has_key(#[trigger] s[l], k) by {
        if has_key(s[l], k) {
            lemma_device_section_keys(m, l, k);
            assert(device_section_keys()[l].contains(k));
        }
    }
    lemma_flat_value(e, s, f, device_section_keys()[f], v, k);
    if m.custom_props is Some && has_key(c, k) {
        lemma_custom_writes_keys(m.custom_props->0.str_pairs(), k);
    }
    if has_key(t, k) {
        lemma_telephony_keys(m.telephony_config, k);
    }
    lemma_apply_concat(e, d, c);
    lemma_apply_untouched(apply_pairs(e, d), c, k);
    lemma_apply_concat(e, d + c, t);
    lemma_apply_untouched(apply_pairs(e, d + c), t, k);
}

proof fn lemma_manufacturer_keys_unique(k: Seq<char>)
    requires
        device_section_keys()[0].contains(k),
    ensures
        forall|l: int| 0 < l < 12 ==> !(#[trigger] device_section_keys()[l]).contains(k),
        !telephony_keys().contains(k),
{
    reveal_strlit("gsm.operator.alpha");
    reveal_strlit("gsm.operator.iso-country");
    reveal_strlit("gsm.operator.mcc");
    reveal_strlit("gsm.operator.mnc");
    reveal_strlit("gsm.operator.numeric");
    reveal_strlit("gsm.sim.operator.alpha");
    reveal_strlit("gsm.sim.operator.iso-country");
    reveal_strlit("gsm.sim.operator.mcc");
    reveal_strlit("gsm.sim.operator.mnc");
    reveal_strlit("gsm.sim.operator.numeric");
    reveal_strlit("persist.radio.iccid");
    reveal_strlit("persist.sys.airplane_mode_on");
    reveal_strlit("persist.sys.developer_options");
    reveal_strlit("persist.sys.timezone");
    reveal_strlit("ro.baseband");
    reveal_strlit("ro.bootloader");
    reveal_strlit("ro.build.characteristics");
    reveal_strlit("ro.build.fingerprint");
    reveal_strlit("ro.build.id");
    reveal_strlit("ro.build.version.release");
    reveal_strlit("ro.build.version.sdk");
    reveal_strlit("ro.hardware");
    reveal_strlit("ro.hardware.chipname");
    reveal_strlit("ro.product.bootimage.brand");
    reveal_strlit("ro.product.bootimage.device");
    reveal_strlit("ro.product.bootimage.manufacturer");
    reveal_strlit("ro.product.bootimage.model");
    reveal_strlit("ro.product.bootimage.name");
    reveal_strlit("ro.product.brand");
    reveal_strlit("ro.product.build.id");
    reveal_strlit("ro.product.build.version.release");
    reveal_strlit("ro.product.build.version.sdk");
    reveal_strlit("ro.product.device");
    reveal_strlit("ro.product.manufacturer");
    reveal_strlit("ro.product.marketname");
    reveal_strlit("ro.product.model");
    reveal_strlit("ro.product.name");
    reveal_strlit("ro.product.odm.brand");
    reveal_strlit("ro.product.odm.device");
    reveal_strlit("ro.product.odm.manufacturer");
    reveal_strlit("ro.product.odm.model");
    reveal_strlit("ro.product.odm.name");
    reveal_strlit("ro.product.product.brand");
    reveal_strlit("ro.product.product.device");
    reveal_strlit("ro.product.product.manufacturer");
    reveal_strlit("ro.product.product.model");
    reveal_strlit("ro.product.product.name");
    reveal_strlit("ro.product.system.brand");
    reveal_strlit("ro.product.system.device");
    reveal_strlit("ro.product.system.manufacturer");
    reveal_strlit("ro.product.system.model");
    reveal_strlit("ro.product.system.name");
    reveal_strlit("ro.product.system_ext.brand");
    reveal_strlit("ro.product.system_ext.device");
    reveal_strlit("ro.product.system_ext.manufacturer");
    reveal_strlit("ro.product.system_ext.model");
    reveal_strlit("ro.product.system_ext.name");
    reveal_strlit("ro.product.vendor.brand");
    reveal_strlit("ro.product.vendor.device");
    reveal_strlit("ro.product.vendor.manufacturer");
    reveal_strlit("ro.product.vendor.model");
    reveal_strlit("ro.product.vendor.name");
    reveal_strlit("ro.serialno");
    reveal_strlit("ro.soc.manufacturer");
    reveal_strlit("ro.soc.model");
    reveal_strlit("ro.system.build.id");
    reveal_strlit("ro.system.build.version.release");
    reveal_strlit("ro.system.build.version.sdk");
    reveal_strlit("ro.vendor.build.id");
    reveal_strlit("ro.vendor.build.version.release");
    reveal_strlit("ro.vendor.build.version.sdk");
    reveal_strlit("ro.vendor.oplus.market.name");
    assert("gsm.operator.alpha"@.len() == 18);
    assert("gsm.operator.iso-country"@.len() == 24);
    assert("gsm.operator.mcc"@.len() == 16);
    assert("gsm.operator.mnc"@.len() == 16);
    assert("gsm.operator.numeric"@.len() == 20);
    assert("gsm.sim.operator.alpha"@.len() == 22);
    assert("gsm.sim.operator.iso-country"@.len() == 28);
    assert("gsm.sim.operator.mcc"@.len() == 20);
    assert("gsm.sim.operator.mnc"@.len() == 20);
    assert("gsm.sim.operator.numeric"@.len() == 24);
    assert("persist.radio.iccid"@.len() == 19);
    assert("persist.sys.airplane_mode_on"@.len() == 28);
    assert("persist.sys.developer_options"@.len() == 29);
    assert("persist.sys.timezone"@.len() == 20);
    assert("ro.baseband"@.len() == 11);
    assert("ro.bootloader"@.len() == 13);
    assert("ro.build.characteristics"@.len() == 24);
    assert("ro.build.fingerprint"@.len() == 20);
    assert("ro.build.id"@.len() == 11);
    assert("ro.build.version.release"@.len() == 24);
    assert("ro.build.version.sdk"@.len() == 20);
    assert("ro.hardware"@.len() == 11);
    assert("ro.hardware.chipname"@.len() == 20);
    assert("ro.product.bootimage.brand"@.len() == 26);
    assert("ro.product.bootimage.device"@.len() == 27);
    assert("ro.product.bootimage.manufacturer"@.len() == 33);
    assert("ro.product.bootimage.model"@.len() == 26);
    assert("ro.product.bootimage.name"@.len() == 25);
    assert("ro.product.brand"@.len() == 16);
    assert("ro.product.build.id"@.len() == 19);
    assert("ro.product.build.version.release"@.len() == 32);
    assert("ro.product.build.version.sdk"@.len() == 28);
    assert("ro.product.device"@.len() == 17);
    assert("ro.product.manufacturer"@.len() == 23);
    assert("ro.product.marketname"@.len() == 21);
    assert("ro.product.model"@.len() == 16);
    assert("ro.product.name"@.len() == 15);
    assert("ro.product.odm.brand"@.len() == 20);
    assert("ro.product.odm.device"@.len() == 21);
    assert("ro.product.odm.manufacturer"@.len() == 27);
    assert("ro.product.odm.model"@.len() == 20);
    assert("ro.product.odm.name"@.len() == 19);
    assert("ro.product.product.brand"@.len() == 24);
    assert("ro.product.product.device"@.len() == 25);
    assert("ro.product.product.manufacturer"@.len() == 31);
    assert("ro.product.product.model"@.len() == 24);
    assert("ro.product.product.name"@.len() == 23);
    assert("ro.product.system.brand"@.len() == 23);
    assert("ro.product.system.device"@.len() == 24);
    assert("ro.product.system.manufacturer"@.len() == 30);
    assert("ro.product.system.model"@.len() == 23);
    assert("ro.product.system.name"@.len() == 22);
    assert("ro.product.system_ext.brand"@.len() == 27);
    assert("ro.product.system_ext.device"@.len() == 28);
    assert("ro.product.system_ext.manufacturer"@.len() == 34);
    assert("ro.product.system_ext.model"@.len() == 27);
    assert("ro.product.system_ext.name"@.len() == 26);
    assert("ro.product.vendor.brand"@.len() == 23);
    assert("ro.product.vendor.device"@.len() == 24);
    assert("ro.product.vendor.manufacturer"@.len() == 30);
    assert("ro.product.vendor.model"@.len() == 23);
    assert("ro.product.vendor.name"@.len() == 22);
    assert("ro.serialno"@.len() == 11);
    assert("ro.soc.manufacturer"@.len() == 19);
    assert("ro.soc.model"@.len() == 12);
    assert("ro.system.build.id"@.len() == 18);
    assert("ro.system.build.version.release"@.len() == 31);
    assert("ro.system.build.version.sdk"@.len() == 27);
    assert("ro.vendor.build.id"@.len() == 18);
    assert("ro.vendor.build.version.release"@.len() == 31);
    assert("ro.vendor.build.version.sdk"@.len() == 27);
    assert("ro.vendor.oplus.market.name"@.len() == 27);
    assert("ro.product.manufacturer"@[11] != "ro.product.vendor.brand"@[11]);
    assert("ro.product.manufacturer"@[11] != "ro.product.system.brand"@[11]);
    assert("ro.product.manufacturer"@[11] != "ro.product.vendor.model"@[11]);
    assert("ro.product.manufacturer"@[11] != "ro.product.system.model"@[11]);
    assert("ro.product.manufacturer"@[11] != "ro.product.product.name"@[11]);
    assert("ro.product.odm.manufacturer"@[11] != "ro.product.system_ext.brand"@[11]);
    assert("ro.product.odm.manufacturer"@[3] != "ro.vendor.oplus.market.name"@[3]);
    assert("ro.product.odm.manufacturer"@[11] != "ro.product.system_ext.model"@[11]);
    assert("ro.product.odm.manufacturer"@[11] != "ro.product.bootimage.device"@[11]);
    assert("ro.product.odm.manufacturer"@[3] != "ro.system.build.version.sdk"@[3]);
    assert("ro.product.odm.manufacturer"@[3] != "ro.vendor.build.version.sdk"@[3]);
    assert("ro.product.product.manufacturer"@[3] != "ro.system.build.version.release"@[3]);
    assert("ro.product.product.manufacturer"@[3] != "ro.vendor.build.version.release"@[3]);
    let i = choose|i: int| 0 <= i < 7 && device_section_keys()[0][i] == k;
    assert(i == 0 || i == 1 || i == 2 || i == 3 || i == 4 || i == 5 || i == 6);
    assert forall|l: int| 0 < l < 12 implies !(#[trigger] device_section_keys()[l]).contains(k) by {
        assert(l == 1 || l == 2 || l == 3 || l == 4 || l == 5 || l == 6 || l == 7 || l == 8
            || l == 9 || l == 10 || l == 11);
    }
}

/// The manufacturer keys (`ro.product.manufacturer` and its partition variants) carry the
/// manufacturer when it is present, not empty and not marked `__DELETE__`, unless a custom property
/// sets the key.
pub proof fn lemma_manufacturer_keys_carry_value(m: MergedAppConfig, k: Seq<char>)
    requires
        usable(m.manufacturer),
        seq![
            "ro.product.manufacturer"@,
            "ro.product.odm.manufacturer"@,
            "ro.product.vendor.manufacturer"@,
            "ro.product.system.manufacturer"@,
            "ro.product.system_ext.manufacturer"@,
            "ro.product.product.manufacturer"@,
            "ro.product.bootimage.manufacturer"@,
        ].contains(k),
        m.custom_props is None || !has_key(m.custom_props->0.str_pairs(), k),
    ensures
        property_map(m).contains_key(k),
        property_map(m)[k] == m.manufacturer->0@,
{
    assert(seq![
        "ro.product.manufacturer"@,
        "ro.product.odm.manufacturer"@,
        "ro.product.vendor.manufacturer"@,
        "ro.product.system.manufacturer"@,
        "ro.product.system_ext.manufacturer"@,
        "ro.product.product.manufacturer"@,
        "ro.product.bootimage.manufacturer"@,
    ] == device_section_keys()[0]);
    lemma_manufacturer_keys_unique(k);
    lemma_manufacturer_keys_spelled();
    let v = m.manufacturer->0@;
    assert(device_sections(m)[0] == writes_for(device_section_keys()[0], v));
    lemma_device_field_value(m, 0, v, k);
}

proof fn lemma_brand_keys_unique(k: Seq<char>)
    requires
        device_section_keys()[1].contains(k),
    ensures
        forall|l: int| 1 < l < 12 ==> !(#[trigger] device_section_keys()[l]).contains(k),
        !telephony_keys().contains(k),
{
    reveal_strlit("gsm.operator.alpha");
    reveal_strlit("gsm.operator.iso-country");
    reveal_strlit("gsm.operator.mcc");
    reveal_strlit("gsm.operator.mnc");
    reveal_strlit("gsm.operator.numeric");
    reveal_strlit("gsm.sim.operator.alpha");
    reveal_strlit("gsm.sim.operator.iso-country");
    reveal_strlit("gsm.sim.operator.mcc");
    reveal_strlit("gsm.sim.operator.mnc");
    reveal_strlit("gsm.sim.operator.numeric");
    reveal_strlit("persist.radio.iccid");
    reveal_strlit("persist.sys.airplane_mode_on");
    reveal_strlit("persist.sys.developer_options");
    reveal_strlit("persist.sys.timezone");
    reveal_strlit("ro.baseband");
    reveal_strlit("ro.bootloader");
    reveal_strlit("ro.build.characteristics");
    reveal_strlit("ro.build.fingerprint");
    reveal_strlit("ro.build.id");
    reveal_strlit("ro.build.version.release");
    reveal_strlit("ro.build.version.sdk");
    reveal_strlit("ro.hardware");
    reveal_strlit("ro.hardware.chipname");
    reveal_strlit("ro.product.bootimage.brand");
    reveal_strlit("ro.product.bootimage.device");
    reveal_strlit("ro.product.bootimage.model");
    reveal_strlit("ro.product.bootimage.name");
    reveal_strlit("ro.product.brand");
    reveal_strlit("ro.product.build.id");
    reveal_strlit("ro.product.build.version.release");
    reveal_strlit("ro.product.build.version.sdk");
    reveal_strlit("ro.product.device");
    reveal_strlit("ro.product.marketname");
    reveal_strlit("ro.product.model");
    reveal_strlit("ro.product.name");
    reveal_strlit("ro.product.odm.brand");
    reveal_strlit("ro.product.odm.device");
    reveal_strlit("ro.product.odm.model");
    reveal_strlit("ro.product.odm.name");
    reveal_strlit("ro.product.product.brand");
    reveal_strlit("ro.product.product.device");
    reveal_strlit("ro.product.product.model");
    reveal_strlit("ro.product.product.name");
    reveal_strlit("ro.product.system.brand");
    reveal_strlit("ro.product.system.device");
    reveal_strlit("ro.product.system.model");
    reveal_strlit("ro.product.system.name");
    reveal_strlit("ro.product.system_ext.brand");
    reveal_strlit("ro.product.system_ext.device");
    reveal_strlit("ro.product.system_ext.model");
    reveal_strlit("ro.product.system_ext.name");
    reveal_strlit("ro.product.vendor.brand");
    reveal_strlit("ro.product.vendor.device");
    reveal_strlit("ro.product.vendor.model");
    reveal_strlit("ro.product.vendor.name");
    reveal_strlit("ro.serialno");
    reveal_strlit("ro.soc.manufacturer");
    reveal_strlit("ro.soc.model");
    reveal_strlit("ro.system.build.id");
    reveal_strlit("ro.system.build.version.release");
    reveal_strlit("ro.system.build.version.sdk");
    reveal_strlit("ro.vendor.build.id");
    reveal_strlit("ro.vendor.build.version.release");
    reveal_strlit("ro.vendor.build.version.sdk");
    reveal_strlit("ro.vendor.oplus.market.name");
    assert("gsm.operator.alpha"@.len() == 18);
    assert("gsm.operator.iso-country"@.len() == 24);
    assert("gsm.operator.mcc"@.len() == 16);
    assert("gsm.operator.mnc"@.len() == 16);
    assert("gsm.operator.numeric"@.len() == 20);
    assert("gsm.sim.operator.alpha"@.len() == 22);
    assert("gsm.sim.operator.iso-country"@.len() == 28);
    assert("gsm.sim.operator.mcc"@.len() == 20);
    assert("gsm.sim.operator.mnc"@.len() == 20);
    assert("gsm.sim.operator.numeric"@.len() == 24);
    assert("persist.radio.iccid"@.len() == 19);
    assert("persist.sys.airplane_mode_on"@.len() == 28);
    assert("persist.sys.developer_options"@.len() == 29);
    assert("persist.sys.timezone"@.len() == 20);
    assert("ro.baseband"@.len() == 11);
    assert("ro.bootloader"@.len() == 13);
    assert("ro.build.characteristics"@.len() == 24);
    assert("ro.build.fingerprint"@.len() == 20);
    assert("ro.build.id"@.len() == 11);
    assert("ro.build.version.release"@.len() == 24);
    assert("ro.build.version.sdk"@.len() == 20);
    assert("ro.hardware"@.len() == 11);
    assert("ro.hardware.chipname"@.len() == 20);
    assert("ro.product.bootimage.brand"@.len() == 26);
    assert("ro.product.bootimage.device"@.len() == 27);
    assert("ro.product.bootimage.model"@.len() == 26);
    assert("ro.product.bootimage.name"@.len() == 25);
    assert("ro.product.brand"@.len() == 16);
    assert("ro.product.build.id"@.len() == 19);
    assert("ro.product.build.version.release"@.len() == 32);
    assert("ro.product.build.version.sdk"@.len() == 28);
    assert("ro.product.device"@.len() == 17);
    assert("ro.product.marketname"@.len() == 21);
    assert("ro.product.model"@.len() == 16);
    assert("ro.product.name"@.len() == 15);
    assert("ro.product.odm.brand"@.len() == 20);
    assert("ro.product.odm.device"@.len() == 21);
    assert("ro.product.odm.model"@.len() == 20);
    assert("ro.product.odm.name"@.len() == 19);
    assert("ro.product.product.brand"@.len() == 24);
    assert("ro.product.product.device"@.len() == 25);
    assert("ro.product.product.model"@.len() == 24);
    assert("ro.product.product.name"@.len() == 23);
    assert("ro.product.system.brand"@.len() == 23);
    assert("ro.product.system.device"@.len() == 24);
    assert("ro.product.system.model"@.len() == 23);
    assert("ro.product.system.name"@.len() == 22);
    assert("ro.product.system_ext.brand"@.len() == 27);
    assert("ro.product.system_ext.device"@.len() == 28);
    assert("ro.product.system_ext.model"@.len() == 27);
    assert("ro.product.system_ext.name"@.len() == 26);
    assert("ro.product.vendor.brand"@.len() == 23);
    assert("ro.product.vendor.device"@.len() == 24);
    assert("ro.product.vendor.model"@.len() == 23);
    assert("ro.product.vendor.name"@.len() == 22);
    assert("ro.serialno"@.len() == 11);
    assert("ro.soc.manufacturer"@.len() == 19);
    assert("ro.soc.model"@.len() == 12);
    assert("ro.system.build.id"@.len() == 18);
    assert("ro.system.build.version.release"@.len() == 31);
    assert("ro.system.build.version.sdk"@.len() == 27);
    assert("ro.vendor.build.id"@.len() == 18);
    assert("ro.vendor.build.version.release"@.len() == 31);
    assert("ro.vendor.build.version.sdk"@.len() == 27);
    assert("ro.vendor.oplus.market.name"@.len() == 27);
    assert("ro.product.brand"@[11] != "ro.product.model"@[11]);
    assert("ro.product.brand"@[0] != "gsm.operator.mcc"@[0]);
    assert("ro.product.brand"@[0] != "gsm.operator.mnc"@[0]);
    assert("ro.product.odm.brand"@[15] != "ro.product.odm.model"@[15]);
    assert("ro.product.odm.brand"@[3] != "ro.build.fingerprint"@[3]);
    assert("ro.product.odm.brand"@[3] != "ro.build.version.sdk"@[3]);
    assert("ro.product.odm.brand"@[0] != "gsm.sim.operator.mcc"@[0]);
    assert("ro.product.odm.brand"@[0] != "gsm.sim.operator.mnc"@[0]);
    assert("ro.product.odm.brand"@[0] != "gsm.operator.numeric"@[0]);
    assert("ro.product.odm.brand"@[0] != "persist.sys.timezone"@[0]);
    assert("ro.product.odm.brand"@[3] != "ro.hardware.chipname"@[3]);
    assert("ro.product.vendor.brand"@[18] != "ro.product.vendor.model"@[18]);
    assert("ro.product.vendor.brand"@[11] != "ro.product.system.model"@[11]);
    assert("ro.product.vendor.brand"@[11] != "ro.product.product.name"@[11]);
    assert("ro.product.system.brand"@[11] != "ro.product.vendor.model"@[11]);
    assert("ro.product.system.brand"@[18] != "ro.product.system.model"@[18]);
    assert("ro.product.system.brand"@[11] != "ro.product.product.name"@[11]);
    assert("ro.product.system_ext.brand"@[3] != "ro.vendor.oplus.market.name"@[3]);
    assert("ro.product.system_ext.brand"@[22] != "ro.product.system_ext.model"@[22]);
    assert("ro.product.system_ext.brand"@[11] != "ro.product.bootimage.device"@[11]);
    assert("ro.product.system_ext.brand"@[3] != "ro.system.build.version.sdk"@[3]);
    assert("ro.product.system_ext.brand"@[3] != "ro.vendor.build.version.sdk"@[3]);
    assert("ro.product.product.brand"@[19] != "ro.product.product.model"@[19]);
    assert("ro.product.product.brand"@[11] != "ro.product.vendor.device"@[11]);
    assert("ro.product.product.brand"@[11] != "ro.product.system.device"@[11]);
    assert("ro.product.product.brand"@[3] != "ro.build.characteristics"@[3]);
    assert("ro.product.product.brand"@[3] != "ro.build.version.release"@[3]);
    assert("ro.product.product.brand"@[0] != "gsm.operator.iso-country"@[0]);
    assert("ro.product.product.brand"@[0] != "gsm.sim.operator.numeric"@[0]);
    assert("ro.product.bootimage.brand"@[21] != "ro.product.bootimage.model"@[21]);
    assert("ro.product.bootimage.brand"@[11] != "ro.product.system_ext.name"@[11]);
    let i = choose|i: int| 0 <= i < 7 && device_section_keys()[1][i] == k;
    assert(i == 0 || i == 1 || i == 2 || i == 3 || i == 4 || i == 5 || i == 6);
    assert forall|l: int| 1 < l < 12 implies !(#[trigger] device_section_keys()[l]).contains(k) by {
        assert(l == 2 || l == 3 || l == 4 || l == 5 || l == 6 || l == 7 || l == 8 || l == 9
            || l == 10 || l == 11);
    }
}

/// The brand keys (`ro.product.brand` and its partition variants) carry the brand when it is
/// present, not empty and not marked `__DELETE__`, unless a custom property sets the key.
pub proof fn lemma_brand_keys_carry_value(m: MergedAppConfig, k: Seq<char>)
    requires
        usable(m.brand),
        seq![
            "ro.product.brand"@,
            "ro.product.odm.brand"@,
            "ro.product.vendor.brand"@,
            "ro.product.system.brand"@,
            "ro.product.system_ext.brand"@,
            "ro.product.product.brand"@,
            "ro.product.bootimage.brand"@,
        ].contains(k),
        m.custom_props is None || !has_key(m.custom_props->0.str_pairs(), k),
    ensures
        property_map(m).contains_key(k),
        property_map(m)[k] == m.brand->0@,
{
    assert(seq![
        "ro.product.brand"@,
        "ro.product.odm.brand"@,
        "ro.product.vendor.brand"@,
        "ro.product.system.brand"@,
        "ro.product.system_ext.brand"@,
        "ro.product.product.brand"@,
        "ro.product.bootimage.brand"@,
    ] == device_section_keys()[1]);
    lemma_brand_keys_unique(k);
    lemma_brand_keys_spelled();
    let v = m.brand->0@;
    assert(device_sections(m)[1] == writes_for(device_section_keys()[1], v));
    lemma_device_field_value(m, 1, v, k);
}

proof fn lemma_marketname_keys_unique(k: Seq<char>)
    requires
        device_section_keys()[2].contains(k),
    ensures
        forall|l: int| 2 < l < 12 ==> !(#[trigger] device_section_keys()[l]).contains(k),
        !telephony_keys().contains(k),
{
    reveal_strlit("gsm.operator.alpha");
    reveal_strlit("gsm.operator.iso-country");
    reveal_strlit("gsm.operator.mcc");
    reveal_strlit("gsm.operator.mnc");
    reveal_strlit("gsm.operator.numeric");
    reveal_strlit("gsm.sim.operator.alpha");
    reveal_strlit("gsm.sim.operator.iso-country");
    reveal_strlit("gsm.sim.operator.mcc");
    reveal_strlit("gsm.sim.operator.mnc");
    reveal_strlit("gsm.sim.operator.numeric");
    reveal_strlit("persist.radio.iccid");
    reveal_strlit("persist.sys.airplane_mode_on");
    reveal_strlit("persist.sys.developer_options");
    reveal_strlit("persist.sys.timezone");
    reveal_strlit("ro.baseband");
    reveal_strlit("ro.bootloader");
    reveal_strlit("ro.build.characteristics");
    reveal_strlit("ro.build.fingerprint");
    reveal_strlit("ro.build.id");
    reveal_strlit("ro.build.version.release");
    reveal_strlit("ro.build.version.sdk");
    reveal_strlit("ro.hardware");
    reveal_strlit("ro.hardware.chipname");
    reveal_strlit("ro.product.bootimage.device");
    reveal_strlit("ro.product.bootimage.model");
    reveal_strlit("ro.product.bootimage.name");
    reveal_strlit("ro.product.build.id");
    reveal_strlit("ro.product.build.version.release");
    reveal_strlit("ro.product.build.version.sdk");
    reveal_strlit("ro.product.device");
    reveal_strlit("ro.product.marketname");
    reveal_strlit("ro.product.model");
    reveal_strlit("ro.product.name");
    reveal_strlit("ro.product.odm.device");
    reveal_strlit("ro.product.odm.model");
    reveal_strlit("ro.product.odm.name");
    reveal_strlit("ro.product.product.device");
    reveal_strlit("ro.product.product.model");
    reveal_strlit("ro.product.product.name");
    reveal_strlit("ro.product.system.device");
    reveal_strlit("ro.product.system.model");
    reveal_strlit("ro.product.system.name");
    reveal_strlit("ro.product.system_ext.device");
    reveal_strlit("ro.product.system_ext.model");
    reveal_strlit("ro.product.system_ext.name");
    reveal_strlit("ro.product.vendor.device");
    reveal_strlit("ro.product.vendor.model");
    reveal_strlit("ro.product.vendor.name");
    reveal_strlit("ro.serialno");
    reveal_strlit("ro.soc.manufacturer");
    reveal_strlit("ro.soc.model");
    reveal_strlit("ro.system.build.id");
    reveal_strlit("ro.system.build.version.release");
    reveal_strlit("ro.system.build.version.sdk");
    reveal_strlit("ro.vendor.build.id");
    reveal_strlit("ro.vendor.build.version.release");
    reveal_strlit("ro.vendor.build.version.sdk");
    reveal_strlit("ro.vendor.oplus.market.name");
    assert("gsm.operator.alpha"@.len() == 18);
    assert("gsm.operator.iso-country"@.len() == 24);
    assert("gsm.operator.mcc"@.len() == 16);
    assert("gsm.operator.mnc"@.len() == 16);
    assert("gsm.operator.numeric"@.len() == 20);
    assert("gsm.sim.operator.alpha"@.len() == 22);
    assert("gsm.sim.operator.iso-country"@.len() == 28);
    assert("gsm.sim.operator.mcc"@.len() == 20);
    assert("gsm.sim.operator.mnc"@.len() == 20);
    assert("gsm.sim.operator.numeric"@.len() == 24);
    assert("persist.radio.iccid"@.len() == 19);
    assert("persist.sys.airplane_mode_on"@.len() == 28);
    assert("persist.sys.developer_options"@.len() == 29);
    assert("persist.sys.timezone"@.len() == 20);
    assert("ro.baseband"@.len() == 11);
    assert("ro.bootloader"@.len() == 13);
    assert("ro.build.characteristics"@.len() == 24);
    assert("ro.build.fingerprint"@.len() == 20);
    assert("ro.build.id"@.len() == 11);
    assert("ro.build.version.release"@.len() == 24);
    assert("ro.build.version.sdk"@.len() == 20);
    assert("ro.hardware"@.len() == 11);
    assert("ro.hardware.chipname"@.len() == 20);
    assert("ro.product.bootimage.device"@.len() == 27);
    assert("ro.product.bootimage.model"@.len() == 26);
    assert("ro.product.bootimage.name"@.len() == 25);
    assert("ro.product.build.id"@.len() == 19);
    assert("ro.product.build.version.release"@.len() == 32);
    assert("ro.product.build.version.sdk"@.len() == 28);
    assert("ro.product.device"@.len() == 17);
    assert("ro.product.marketname"@.len() == 21);
    assert("ro.product.model"@.len() == 16);
    assert("ro.product.name"@.len() == 15);
    assert("ro.product.odm.device"@.len() == 21);
    assert("ro.product.odm.model"@.len() == 20);
    assert("ro.product.odm.name"@.len() == 19);
    assert("ro.product.product.device"@.len() == 25);
    assert("ro.product.product.model"@.len() == 24);
    assert("ro.product.product.name"@.len() == 23);
    assert("ro.product.system.device"@.len() == 24);
    assert("ro.product.system.model"@.len() == 23);
    assert("ro.product.system.name"@.len() == 22);
    assert("ro.product.system_ext.device"@.len() == 28);
    assert("ro.product.system_ext.model"@.len() == 27);
    assert("ro.product.system_ext.name"@.len() == 26);
    assert("ro.product.vendor.device"@.len() == 24);
    assert("ro.product.vendor.model"@.len() == 23);
    assert("ro.product.vendor.name"@.len() == 22);
    assert("ro.serialno"@.len() == 11);
    assert("ro.soc.manufacturer"@.len() == 19);
    assert("ro.soc.model"@.len() == 12);
    assert("ro.system.build.id"@.len() == 18);
    assert("ro.system.build.version.release"@.len() == 31);
    assert("ro.system.build.version.sdk"@.len() == 27);
    assert("ro.vendor.build.id"@.len() == 18);
    assert("ro.vendor.build.version.release"@.len() == 31);
    assert("ro.vendor.build.version.sdk"@.len() == 27);
    assert("ro.vendor.oplus.market.name"@.len() == 27);
    assert("ro.product.marketname"@[11] != "ro.product.odm.device"@[11]);
    assert("ro.vendor.oplus.market.name"@[3] != "ro.product.system_ext.model"@[3]);
    assert("ro.vendor.oplus.market.name"@[3] != "ro.product.bootimage.device"@[3]);
    assert("ro.vendor.oplus.market.name"@[3] != "ro.system.build.version.sdk"@[3]);
    assert("ro.vendor.oplus.market.name"@[10] != "ro.vendor.build.version.sdk"@[10]);
    let i = choose|i: int| 0 <= i < 2 && device_section_keys()[2][i] == k;
    assert(i == 0 || i == 1);
    assert forall|l: int| 2 < l < 12 implies !(#[trigger] device_section_keys()[l]).contains(k) by {
        assert(l == 3 || l == 4 || l == 5 || l == 6 || l == 7 || l == 8 || l == 9 || l == 10
            || l == 11);
    }
}

/// The market name keys (`ro.product.marketname`, `ro.vendor.oplus.market.name`) carry the market
/// name when it is present, not empty and not marked `__DELETE__`, unless a custom property sets
/// the key.
pub proof fn lemma_marketname_keys_carry_value(m: MergedAppConfig, k: Seq<char>)
    requires
        usable(m.marketname),
        seq!["ro.product.marketname"@, "ro.vendor.oplus.market.name"@].contains(k),
        m.custom_props is None || !has_key(m.custom_props->0.str_pairs(), k),
    ensures
        property_map(m).contains_key(k),
        property_map(m)[k] == m.marketname->0@,
{
    assert(seq![
        "ro.product.marketname"@,
        "ro.vendor.oplus.market.name"@,
    ] == device_section_keys()[2]);
    lemma_marketname_keys_unique(k);
    let v = m.marketname->0@;
    assert(device_sections(m)[2] == writes_for(device_section_keys()[2], v));
    lemma_device_field_value(m, 2, v, k);
}

proof fn lemma_model_keys_unique(k: Seq<char>)
    requires
        device_section_keys()[3].contains(k),
    ensures
        forall|l: int| 3 < l < 12 ==> !(#[trigger] device_section_keys()[l]).contains(k),
        !telephony_keys().contains(k),
{
    reveal_strlit("gsm.operator.alpha");
    reveal_strlit("gsm.operator.iso-country");
    reveal_strlit("gsm.operator.mcc");
    reveal_strlit("gsm.operator.mnc");
    reveal_strlit("gsm.operator.numeric");
    reveal_strlit("gsm.sim.operator.alpha");
    reveal_strlit("gsm.sim.operator.iso-country");
    reveal_strlit("gsm.sim.operator.mcc");
    reveal_strlit("gsm.sim.operator.mnc");
    reveal_strlit("gsm.sim.operator.numeric");
    reveal_strlit("persist.radio.iccid");
    reveal_strlit("persist.sys.airplane_mode_on");
    reveal_strlit("persist.sys.developer_options");
    reveal_strlit("persist.sys.timezone");
    reveal_strlit("ro.baseband");
    reveal_strlit("ro.bootloader");
    reveal_strlit("ro.build.characteristics");
    reveal_strlit("ro.build.fingerprint");
    reveal_strlit("ro.build.id");
    reveal_strlit("ro.build.version.release");
    reveal_strlit("ro.build.version.sdk");
    reveal_strlit("ro.hardware");
    reveal_strlit("ro.hardware.chipname");
    reveal_strlit("ro.product.bootimage.device");
    reveal_strlit("ro.product.bootimage.model");
    reveal_strlit("ro.product.bootimage.name");
    reveal_strlit("ro.product.build.id");
    reveal_strlit("ro.product.build.version.release");
    reveal_strlit("ro.product.build.version.sdk");
    reveal_strlit("ro.product.device");
    reveal_strlit("ro.product.model");
    reveal_strlit("ro.product.name");
    reveal_strlit("ro.product.odm.device");
    reveal_strlit("ro.product.odm.model");
    reveal_strlit("ro.product.odm.name");
    reveal_strlit("ro.product.product.device");
    reveal_strlit("ro.product.product.model");
    reveal_strlit("ro.product.product.name");
    reveal_strlit("ro.product.system.device");
    reveal_strlit("ro.product.system.model");
    reveal_strlit("ro.product.system.name");
    reveal_strlit("ro.product.system_ext.device");
    reveal_strlit("ro.product.system_ext.model");
    reveal_strlit("ro.product.system_ext.name");
    reveal_strlit("ro.product.vendor.device");
    reveal_strlit("ro.product.vendor.model");
    reveal_strlit("ro.product.vendor.name");
    reveal_strlit("ro.serialno");
    reveal_strlit("ro.soc.manufacturer");
    reveal_strlit("ro.soc.model");
    reveal_strlit("ro.system.build.id");
    reveal_strlit("ro.system.build.version.release");
    reveal_strlit("ro.system.build.version.sdk");
    reveal_strlit("ro.vendor.build.id");
    reveal_strlit("ro.vendor.build.version.release");
    reveal_strlit("ro.vendor.build.version.sdk");
    assert("gsm.operator.alpha"@.len() == 18);
    assert("gsm.operator.iso-country"@.len() == 24);
    assert("gsm.operator.mcc"@.len() == 16);
    assert("gsm.operator.mnc"@.len() == 16);
    assert("gsm.operator.numeric"@.len() == 20);
    assert("gsm.sim.operator.alpha"@.len() == 22);
    assert("gsm.sim.operator.iso-country"@.len() == 28);
    assert("gsm.sim.operator.mcc"@.len() == 20);
    assert("gsm.sim.operator.mnc"@.len() == 20);
    assert("gsm.sim.operator.numeric"@.len() == 24);
    assert("persist.radio.iccid"@.len() == 19);
    assert("persist.sys.airplane_mode_on"@.len() == 28);
    assert("persist.sys.developer_options"@.len() == 29);
    assert("persist.sys.timezone"@.len() == 20);
    assert("ro.baseband"@.len() == 11);
    assert("ro.bootloader"@.len() == 13);
    assert("ro.build.characteristics"@.len() == 24);
    assert("ro.build.fingerprint"@.len() == 20);
    assert("ro.build.id"@.len() == 11);
    assert("ro.build.version.release"@.len() == 24);
    assert("ro.build.version.sdk"@.len() == 20);
    assert("ro.hardware"@.len() == 11);
    assert("ro.hardware.chipname"@.len() == 20);
    assert("ro.product.bootimage.device"@.len() == 27);
    assert("ro.product.bootimage.model"@.len() == 26);
    assert("ro.product.bootimage.name"@.len() == 25);
    assert("ro.product.build.id"@.len() == 19);
    assert("ro.product.build.version.release"@.len() == 32);
    assert("ro.product.build.version.sdk"@.len() == 28);
    assert("ro.product.device"@.len() == 17);
    assert("ro.product.model"@.len() == 16);
    assert("ro.product.name"@.len() == 15);
    assert("ro.product.odm.device"@.len() == 21);
    assert("ro.product.odm.model"@.len() == 20);
    assert("ro.product.odm.name"@.len() == 19);
    assert("ro.product.product.device"@.len() == 25);
    assert("ro.product.product.model"@.len() == 24);
    assert("ro.product.product.name"@.len() == 23);
    assert("ro.product.system.device"@.len() == 24);
    assert("ro.product.system.model"@.len() == 23);
    assert("ro.product.system.name"@.len() == 22);
    assert("ro.product.system_ext.device"@.len() == 28);
    assert("ro.product.system_ext.model"@.len() == 27);
    assert("ro.product.system_ext.name"@.len() == 26);
    assert("ro.product.vendor.device"@.len() == 24);
    assert("ro.product.vendor.model"@.len() == 23);
    assert("ro.product.vendor.name"@.len() == 22);
    assert("ro.serialno"@.len() == 11);
    assert("ro.soc.manufacturer"@.len() == 19);
    assert("ro.soc.model"@.len() == 12);
    assert("ro.system.build.id"@.len() == 18);
    assert("ro.system.build.version.release"@.len() == 31);
    assert("ro.system.build.version.sdk"@.len() == 27);
    assert("ro.vendor.build.id"@.len() == 18);
    assert("ro.vendor.build.version.release"@.len() == 31);
    assert("ro.vendor.build.version.sdk"@.len() == 27);
    assert("ro.product.model"@[0] != "gsm.operator.mcc"@[0]);
    assert("ro.product.model"@[0] != "gsm.operator.mnc"@[0]);
    assert("ro.product.odm.model"@[3] != "ro.build.fingerprint"@[3]);
    assert("ro.product.odm.model"@[3] != "ro.build.version.sdk"@[3]);
    assert("ro.product.odm.model"@[0] != "gsm.sim.operator.mcc"@[0]);
    assert("ro.product.odm.model"@[0] != "gsm.sim.operator.mnc"@[0]);
    assert("ro.product.odm.model"@[0] != "gsm.operator.numeric"@[0]);
    assert("ro.product.odm.model"@[0] != "persist.sys.timezone"@[0]);
    assert("ro.product.odm.model"@[3] != "ro.hardware.chipname"@[3]);
    assert("ro.product.vendor.model"@[11] != "ro.product.product.name"@[11]);
    assert("ro.product.system.model"@[11] != "ro.product.product.name"@[11]);
    assert("ro.product.system_ext.model"@[11] != "ro.product.bootimage.device"@[11]);
    assert("ro.product.system_ext.model"@[3] != "ro.system.build.version.sdk"@[3]);
    assert("ro.product.system_ext.model"@[3] != "ro.vendor.build.version.sdk"@[3]);
    assert("ro.product.product.model"@[11] != "ro.product.vendor.device"@[11]);
    assert("ro.product.product.model"@[11] != "ro.product.system.device"@[11]);
    assert("ro.product.product.model"@[3] != "ro.build.characteristics"@[3]);
    assert("ro.product.product.model"@[3] != "ro.build.version.release"@[3]);
    assert("ro.product.product.model"@[0] != "gsm.operator.iso-country"@[0]);
    assert("ro.product.product.model"@[0] != "gsm.sim.operator.numeric"@[0]);
    assert("ro.product.bootimage.model"@[11] != "ro.product.system_ext.name"@[11]);
    let i = choose|i: int| 0 <= i < 7 && device_section_keys()[3][i] == k;
    assert(i == 0 || i == 1 || i == 2 || i == 3 || i == 4 || i == 5 || i == 6);
    assert forall|l: int| 3 < l < 12 implies !(#[trigger] device_section_keys()[l]).contains(k) by {
        assert(l == 4 || l == 5 || l == 6 || l == 7 || l == 8 || l == 9 || l == 10 || l == 11);
    }
}

/// The model keys (`ro.product.model` and its partition variants) carry the model when it is
/// present, not empty and not marked `__DELETE__`, unless a custom property sets the key.
pub proof fn lemma_model_keys_carry_value(m: MergedAppConfig, k: Seq<char>)
    requires
        usable(m.model),
        seq![
            "ro.product.model"@,
            "ro.product.odm.model"@,
            "ro.product.vendor.model"@,
            "ro.product.system.model"@,
            "ro.product.system_ext.model"@,
            "ro.product.product.model"@,
            "ro.product.bootimage.model"@,
        ].contains(k),
        m.custom_props is None || !has_key(m.custom_props->0.str_pairs(), k),
    ensures
        property_map(m).contains_key(k),
        property_map(m)[k] == m.model->0@,
{
    assert(seq![
        "ro.product.model"@,
        "ro.product.odm.model"@,
        "ro.product.vendor.model"@,
        "ro.product.system.model"@,
        "ro.product.system_ext.model"@,
        "ro.product.product.model"@,
        "ro.product.bootimage.model"@,
    ] == device_section_keys()[3]);
    lemma_model_keys_unique(k);
    lemma_model_keys_spelled();
    let v = m.model->0@;
    assert(device_sections(m)[3] == writes_for(device_section_keys()[3], v));
    lemma_device_field_value(m, 3, v, k);
}

proof fn lemma_name_keys_unique(k: Seq<char>)
    requires
        device_section_keys()[4].contains(k),
    ensures
        forall|l: int| 4 < l < 12 ==> !(#[trigger] device_section_keys()[l]).contains(k),
        !telephony_keys().contains(k),
{
    reveal_strlit("gsm.operator.alpha");
    reveal_strlit("gsm.operator.iso-country");
    reveal_strlit("gsm.operator.mcc");
    reveal_strlit("gsm.operator.mnc");
    reveal_strlit("gsm.operator.numeric");
    reveal_strlit("gsm.sim.operator.alpha");
    reveal_strlit("gsm.sim.operator.iso-country");
    reveal_strlit("gsm.sim.operator.mcc");
    reveal_strlit("gsm.sim.operator.mnc");
    reveal_strlit("gsm.sim.operator.numeric");
    reveal_strlit("persist.radio.iccid");
    reveal_strlit("persist.sys.airplane_mode_on");
    reveal_strlit("persist.sys.developer_options");
    reveal_strlit("persist.sys.timezone");
    reveal_strlit("ro.baseband");
    reveal_strlit("ro.bootloader");
    reveal_strlit("ro.build.characteristics");
    reveal_strlit("ro.build.fingerprint");
    reveal_strlit("ro.build.id");
    reveal_strlit("ro.build.version.release");
    reveal_strlit("ro.build.version.sdk");
    reveal_strlit("ro.hardware");
    reveal_strlit("ro.hardware.chipname");
    reveal_strlit("ro.product.bootimage.device");
    reveal_strlit("ro.product.bootimage.name");
    reveal_strlit("ro.product.build.id");
    reveal_strlit("ro.product.build.version.release");
    reveal_strlit("ro.product.build.version.sdk");
    reveal_strlit("ro.product.device");
    reveal_strlit("ro.product.name");
    reveal_strlit("ro.product.odm.device");
    reveal_strlit("ro.product.odm.name");
    reveal_strlit("ro.product.product.device");
    reveal_strlit("ro.product.product.name");
    reveal_strlit("ro.product.system.device");
    reveal_strlit("ro.product.system.name");
    reveal_strlit("ro.product.system_ext.device");
    reveal_strlit("ro.product.system_ext.name");
    reveal_strlit("ro.product.vendor.device");
    reveal_strlit("ro.product.vendor.name");
    reveal_strlit("ro.serialno");
    reveal_strlit("ro.soc.manufacturer");
    reveal_strlit("ro.soc.model");
    reveal_strlit("ro.system.build.id");
    reveal_strlit("ro.system.build.version.release");
    reveal_strlit("ro.system.build.version.sdk");
    reveal_strlit("ro.vendor.build.id");
    reveal_strlit("ro.vendor.build.version.release");
    reveal_strlit("ro.vendor.build.version.sdk");
    assert("gsm.operator.alpha"@.len() == 18);
    assert("gsm.operator.iso-country"@.len() == 24);
    assert("gsm.operator.mcc"@.len() == 16);
    assert("gsm.operator.mnc"@.len() == 16);
    assert("gsm.operator.numeric"@.len() == 20);
    assert("gsm.sim.operator.alpha"@.len() == 22);
    assert("gsm.sim.operator.iso-country"@.len() == 28);
    assert("gsm.sim.operator.mcc"@.len() == 20);
    assert("gsm.sim.operator.mnc"@.len() == 20);
    assert("gsm.sim.operator.numeric"@.len() == 24);
    assert("persist.radio.iccid"@.len() == 19);
    assert("persist.sys.airplane_mode_on"@.len() == 28);
    assert("persist.sys.developer_options"@.len() == 29);
    assert("persist.sys.timezone"@.len() == 20);
    assert("ro.baseband"@.len() == 11);
    assert("ro.bootloader"@.len() == 13);
    assert("ro.build.characteristics"@.len() == 24);
    assert("ro.build.fingerprint"@.len() == 20);
    assert("ro.build.id"@.len() == 11);
    assert("ro.build.version.release"@.len() == 24);
    assert("ro.build.version.sdk"@.len() == 20);
    assert("ro.hardware"@.len() == 11);
    assert("ro.hardware.chipname"@.len() == 20);
    assert("ro.product.bootimage.device"@.len() == 27);
    assert("ro.product.bootimage.name"@.len() == 25);
    assert("ro.product.build.id"@.len() == 19);
    assert("ro.product.build.version.release"@.len() == 32);
    assert("ro.product.build.version.sdk"@.len() == 28);
    assert("ro.product.device"@.len() == 17);
    assert("ro.product.name"@.len() == 15);
    assert("ro.product.odm.device"@.len() == 21);
    assert("ro.product.odm.name"@.len() == 19);
    assert("ro.product.product.device"@.len() == 25);
    assert("ro.product.product.name"@.len() == 23);
    assert("ro.product.system.device"@.len() == 24);
    assert("ro.product.system.name"@.len() == 22);
    assert("ro.product.system_ext.device"@.len() == 28);
    assert("ro.product.system_ext.name"@.len() == 26);
    assert("ro.product.vendor.device"@.len() == 24);
    assert("ro.product.vendor.name"@.len() == 22);
    assert("ro.serialno"@.len() == 11);
    assert("ro.soc.manufacturer"@.len() == 19);
    assert("ro.soc.model"@.len() == 12);
    assert("ro.system.build.id"@.len() == 18);
    assert("ro.system.build.version.release"@.len() == 31);
    assert("ro.system.build.version.sdk"@.len() == 27);
    assert("ro.vendor.build.id"@.len() == 18);
    assert("ro.vendor.build.version.release"@.len() == 31);
    assert("ro.vendor.build.version.sdk"@.len() == 27);
    assert("ro.product.odm.name"@[11] != "ro.product.build.id"@[11]);
    assert("ro.product.odm.name"@[0] != "persist.radio.iccid"@[0]);
    assert("ro.product.odm.name"@[3] != "ro.soc.manufacturer"@[3]);
    assert("ro.product.vendor.name"@[0] != "gsm.sim.operator.alpha"@[0]);
    assert("ro.product.system.name"@[0] != "gsm.sim.operator.alpha"@[0]);
    assert("ro.product.bootimage.name"@[11] != "ro.product.product.device"@[11]);
    let i = choose|i: int| 0 <= i < 7 && device_section_keys()[4][i] == k;
    assert(i == 0 || i == 1 || i == 2 || i == 3 || i == 4 || i == 5 || i == 6);
    assert forall|l: int| 4 < l < 12 implies !(#[trigger] device_section_keys()[l]).contains(k) by {
        assert(l == 5 || l == 6 || l == 7 || l == 8 || l == 9 || l == 10 || l == 11);
    }
}

/// The product name keys (`ro.product.name` and its partition variants) carry the product name when
/// it is present, not empty and not marked `__DELETE__`, unless a custom property sets the key.
pub proof fn lemma_name_keys_carry_value(m: MergedAppConfig, k: Seq<char>)
    requires
        usable(m.name),
        seq![
            "ro.product.name"@,
            "ro.product.odm.name"@,
            "ro.product.vendor.name"@,
            "ro.product.system.name"@,
            "ro.product.system_ext.name"@,
            "ro.product.product.name"@,
            "ro.product.bootimage.name"@,
        ].contains(k),
        m.custom_props is None || !has_key(m.custom_props->0.str_pairs(), k),
    ensures
        property_map(m).contains_key(k),
        property_map(m)[k] == m.name->0@,
{
    assert(seq![
        "ro.product.name"@,
        "ro.product.odm.name"@,
        "ro.product.vendor.name"@,
        "ro.product.system.name"@,
        "ro.product.system_ext.name"@,
        "ro.product.product.name"@,
        "ro.product.bootimage.name"@,
    ] == device_section_keys()[4]);
    lemma_name_keys_unique(k);
    lemma_name_keys_spelled();
    let v = m.name->0@;
    assert(device_sections(m)[4] == writes_for(device_section_keys()[4], v));
    lemma_device_field_value(m, 4, v, k);
}

proof fn lemma_hardware_keys_unique(k: Seq<char>)
    requires
        device_section_keys()[6].contains(k),
    ensures
        forall|l: int| 6 < l < 12 ==> !(#[trigger] device_section_keys()[l]).contains(k),
        !telephony_keys().contains(k),
{
    reveal_strlit("gsm.operator.alpha");
    reveal_strlit("gsm.operator.iso-country");
    reveal_strlit("gsm.operator.mcc");
    reveal_strlit("gsm.operator.mnc");
    reveal_strlit("gsm.operator.numeric");
    reveal_strlit("gsm.sim.operator.alpha");
    reveal_strlit("gsm.sim.operator.iso-country");
    reveal_strlit("gsm.sim.operator.mcc");
    reveal_strlit("gsm.sim.operator.mnc");
    reveal_strlit("gsm.sim.operator.numeric");
    reveal_strlit("persist.radio.iccid");
    reveal_strlit("persist.sys.airplane_mode_on");
    reveal_strlit("persist.sys.developer_options");
    reveal_strlit("persist.sys.timezone");
    reveal_strlit("ro.baseband");
    reveal_strlit("ro.bootloader");
    reveal_strlit("ro.build.characteristics");
    reveal_strlit("ro.build.fingerprint");
    reveal_strlit("ro.build.id");
    reveal_strlit("ro.build.version.release");
    reveal_strlit("ro.build.version.sdk");
    reveal_strlit("ro.hardware");
    reveal_strlit("ro.hardware.chipname");
    reveal_strlit("ro.product.build.id");
    reveal_strlit("ro.product.build.version.release");
    reveal_strlit("ro.product.build.version.sdk");
    reveal_strlit("ro.serialno");
    reveal_strlit("ro.soc.manufacturer");
    reveal_strlit("ro.soc.model");
    reveal_strlit("ro.system.build.id");
    reveal_strlit("ro.system.build.version.release");
    reveal_strlit("ro.system.build.version.sdk");
    reveal_strlit("ro.vendor.build.id");
    reveal_strlit("ro.vendor.build.version.release");
    reveal_strlit("ro.vendor.build.version.sdk");
    assert("gsm.operator.alpha"@.len() == 18);
    assert("gsm.operator.iso-country"@.len() == 24);
    assert("gsm.operator.mcc"@.len() == 16);
    assert("gsm.operator.mnc"@.len() == 16);
    assert("gsm.operator.numeric"@.len() == 20);
    assert("gsm.sim.operator.alpha"@.len() == 22);
    assert("gsm.sim.operator.iso-country"@.len() == 28);
    assert("gsm.sim.operator.mcc"@.len() == 20);
    assert("gsm.sim.operator.mnc"@.len() == 20);
    assert("gsm.sim.operator.numeric"@.len() == 24);
    assert("persist.radio.iccid"@.len() == 19);
    assert("persist.sys.airplane_mode_on"@.len() == 28);
    assert("persist.sys.developer_options"@.len() == 29);
    assert("persist.sys.timezone"@.len() == 20);
    assert("ro.baseband"@.len() == 11);
    assert("ro.bootloader"@.len() == 13);
    assert("ro.build.characteristics"@.len() == 24);
    assert("ro.build.fingerprint"@.len() == 20);
    assert("ro.build.id"@.len() == 11);
    assert("ro.build.version.release"@.len() == 24);
    assert("ro.build.version.sdk"@.len() == 20);
    assert("ro.hardware"@.len() == 11);
    assert("ro.hardware.chipname"@.len() == 20);
    assert("ro.product.build.id"@.len() == 19);
    assert("ro.product.build.version.release"@.len() == 32);
    assert("ro.product.build.version.sdk"@.len() == 28);
    assert("ro.serialno"@.len() == 11);
    assert("ro.soc.manufacturer"@.len() == 19);
    assert("ro.soc.model"@.len() == 12);
    assert("ro.system.build.id"@.len() == 18);
    assert("ro.system.build.version.release"@.len() == 31);
    assert("ro.system.build.version.sdk"@.len() == 27);
    assert("ro.vendor.build.id"@.len() == 18);
    assert("ro.vendor.build.version.release"@.len() == 31);
    assert("ro.vendor.build.version.sdk"@.len() == 27);
    assert("ro.hardware"@[3] != "ro.build.id"@[3]);
    assert("ro.hardware"@[3] != "ro.baseband"@[3]);
    assert("ro.hardware"@[3] != "ro.serialno"@[3]);
    let i = choose|i: int| 0 <= i < 1 && device_section_keys()[6][i] == k;
    assert(i == 0);
    assert forall|l: int| 6 < l < 12 implies !(#[trigger] device_section_keys()[l]).contains(k) by {
        assert(l == 7 || l == 8 || l == 9 || l == 10 || l == 11);
    }
}

/// The key `ro.hardware` carry the hardware name when it is present, not empty and not marked
/// `__DELETE__`, unless a custom property sets the key.
pub proof fn lemma_hardware_keys_carry_value(m: MergedAppConfig, k: Seq<char>)
    requires
        usable(m.hardware),
        seq!["ro.hardware"@].contains(k),
        m.custom_props is None || !has_key(m.custom_props->0.str_pairs(), k),
    ensures
        property_map(m).contains_key(k),
        property_map(m)[k] == m.hardware->0@,
{
    assert(seq!["ro.hardware"@] == device_section_keys()[6]);
    lemma_hardware_keys_unique(k);
    let v = m.hardware->0@;
    assert(device_sections(m)[6] == writes_for(device_section_keys()[6], v));
    lemma_device_field_value(m, 6, v, k);
}

proof fn lemma_fingerprint_keys_unique(k: Seq<char>)
    requires
        device_section_keys()[7].contains(k),
    ensures
        forall|l: int| 7 < l < 12 ==> !(#[trigger] device_section_keys()[l]).contains(k),
        !telephony_keys().contains(k),
{
    reveal_strlit("gsm.operator.alpha");
    reveal_strlit("gsm.operator.iso-country");
    reveal_strlit("gsm.operator.mcc");
    reveal_strlit("gsm.operator.mnc");
    reveal_strlit("gsm.operator.numeric");
    reveal_strlit("gsm.sim.operator.alpha");
    reveal_strlit("gsm.sim.operator.iso-country");
    reveal_strlit("gsm.sim.operator.mcc");
    reveal_strlit("gsm.sim.operator.mnc");
    reveal_strlit("gsm.sim.operator.numeric");
    reveal_strlit("persist.radio.iccid");
    reveal_strlit("persist.sys.airplane_mode_on");
    reveal_strlit("persist.sys.developer_options");
    reveal_strlit("persist.sys.timezone");
    reveal_strlit("ro.baseband");
    reveal_strlit("ro.bootloader");
    reveal_strlit("ro.build.characteristics");
    reveal_strlit("ro.build.fingerprint");
    reveal_strlit("ro.build.id");
    reveal_strlit("ro.build.version.release");
    reveal_strlit("ro.build.version.sdk");
    reveal_strlit("ro.hardware.chipname");
    reveal_strlit("ro.product.build.id");
    reveal_strlit("ro.product.build.version.release");
    reveal_strlit("ro.product.build.version.sdk");
    reveal_strlit("ro.serialno");
    reveal_strlit("ro.soc.manufacturer");
    reveal_strlit("ro.soc.model");
    reveal_strlit("ro.system.build.id");
    reveal_strlit("ro.system.build.version.release");
    reveal_strlit("ro.system.build.version.sdk");
    reveal_strlit("ro.vendor.build.id");
    reveal_strlit("ro.vendor.build.version.release");
    reveal_strlit("ro.vendor.build.version.sdk");
    assert("gsm.operator.alpha"@.len() == 18);
    assert("gsm.operator.iso-country"@.len() == 24);
    assert("gsm.operator.mcc"@.len() == 16);
    assert("gsm.operator.mnc"@.len() == 16);
    assert("gsm.operator.numeric"@.len() == 20);
    assert("gsm.sim.operator.alpha"@.len() == 22);
    assert("gsm.sim.operator.iso-country"@.len() == 28);
    assert("gsm.sim.operator.mcc"@.len() == 20);
    assert("gsm.sim.operator.mnc"@.len() == 20);
    assert("gsm.sim.operator.numeric"@.len() == 24);
    assert("persist.radio.iccid"@.len() == 19);
    assert("persist.sys.airplane_mode_on"@.len() == 28);
    assert("persist.sys.developer_options"@.len() == 29);
    assert("persist.sys.timezone"@.len() == 20);
    assert("ro.baseband"@.len() == 11);
    assert("ro.bootloader"@.len() == 13);
    assert("ro.build.characteristics"@.len() == 24);
    assert("ro.build.fingerprint"@.len() == 20);
    assert("ro.build.id"@.len() == 11);
    assert("ro.build.version.release"@.len() == 24);
    assert("ro.build.version.sdk"@.len() == 20);
    assert("ro.hardware.chipname"@.len() == 20);
    assert("ro.product.build.id"@.len() == 19);
    assert("ro.product.build.version.release"@.len() == 32);
    assert("ro.product.build.version.sdk"@.len() == 28);
    assert("ro.serialno"@.len() == 11);
    assert("ro.soc.manufacturer"@.len() == 19);
    assert("ro.soc.model"@.len() == 12);
    assert("ro.system.build.id"@.len() == 18);
    assert("ro.system.build.version.release"@.len() == 31);
    assert("ro.system.build.version.sdk"@.len() == 27);
    assert("ro.vendor.build.id"@.len() == 18);
    assert("ro.vendor.build.version.release"@.len() == 31);
    assert("ro.vendor.build.version.sdk"@.len() == 27);
    assert("ro.build.fingerprint"@[9] != "ro.build.version.sdk"@[9]);
    assert("ro.build.fingerprint"@[0] != "gsm.sim.operator.mcc"@[0]);
    assert("ro.build.fingerprint"@[0] != "gsm.sim.operator.mnc"@[0]);
    assert("ro.build.fingerprint"@[0] != "gsm.operator.numeric"@[0]);
    assert("ro.build.fingerprint"@[0] != "persist.sys.timezone"@[0]);
    assert("ro.build.fingerprint"@[3] != "ro.hardware.chipname"@[3]);
    let i = choose|i: int| 0 <= i < 1 && device_section_keys()[7][i] == k;
    assert(i == 0);
    assert forall|l: int| 7 < l < 12 implies !(#[trigger] device_section_keys()[l]).contains(k) by {
        assert(l == 8 || l == 9 || l == 10 || l == 11);
    }
}

/// The key `ro.build.fingerprint` carry the fingerprint when it is present, not empty and not
/// marked `__DELETE__`, unless a custom property sets the key.
pub proof fn lemma_fingerprint_keys_carry_value(m: MergedAppConfig, k: Seq<char>)
    requires
        usable(m.fingerprint),
        seq!["ro.build.fingerprint"@].contains(k),
        m.custom_props is None || !has_key(m.custom_props->0.str_pairs(), k),
    ensures
        property_map(m).contains_key(k),
        property_map(m)[k] == m.fingerprint->0@,
{
    assert(seq!["ro.build.fingerprint"@] == device_section_keys()[7]);
    lemma_fingerprint_keys_unique(k);
    let v = m.fingerprint->0@;
    assert(device_sections(m)[7] == writes_for(device_section_keys()[7], v));
    lemma_device_field_value(m, 7, v, k);
}

proof fn lemma_build_id_keys_unique(k: Seq<char>)
    requires
        device_section_keys()[8].contains(k),
    ensures
        forall|l: int| 8 < l < 12 ==> !(#[trigger] device_section_keys()[l]).contains(k),
        !telephony_keys().contains(k),
{
    reveal_strlit("gsm.operator.alpha");
    reveal_strlit("gsm.operator.iso-country");
    reveal_strlit("gsm.operator.mcc");
    reveal_strlit("gsm.operator.mnc");
    reveal_strlit("gsm.operator.numeric");
    reveal_strlit("gsm.sim.operator.alpha");
    reveal_strlit("gsm.sim.operator.iso-country");
    reveal_strlit("gsm.sim.operator.mcc");
    reveal_strlit("gsm.sim.operator.mnc");
    reveal_strlit("gsm.sim.operator.numeric");
    reveal_strlit("persist.radio.iccid");
    reveal_strlit("persist.sys.airplane_mode_on");
    reveal_strlit("persist.sys.developer_options");
    reveal_strlit("persist.sys.timezone");
    reveal_strlit("ro.baseband");
    reveal_strlit("ro.bootloader");
    reveal_strlit("ro.build.characteristics");
    reveal_strlit("ro.build.id");
    reveal_strlit("ro.build.version.release");
    reveal_strlit("ro.build.version.sdk");
    reveal_strlit("ro.hardware.chipname");
    reveal_strlit("ro.product.build.id");
    reveal_strlit("ro.product.build.version.release");
    reveal_strlit("ro.product.build.version.sdk");
    reveal_strlit("ro.serialno");
    reveal_strlit("ro.soc.manufacturer");
    reveal_strlit("ro.soc.model");
    reveal_strlit("ro.system.build.id");
    reveal_strlit("ro.system.build.version.release");
    reveal_strlit("ro.system.build.version.sdk");
    reveal_strlit("ro.vendor.build.id");
    reveal_strlit("ro.vendor.build.version.release");
    reveal_strlit("ro.vendor.build.version.sdk");
    assert("gsm.operator.alpha"@.len() == 18);
    assert("gsm.operator.iso-country"@.len() == 24);
    assert("gsm.operator.mcc"@.len() == 16);
    assert("gsm.operator.mnc"@.len() == 16);
    assert("gsm.operator.numeric"@.len() == 20);
    assert("gsm.sim.operator.alpha"@.len() == 22);
    assert("gsm.sim.operator.iso-country"@.len() == 28);
    assert("gsm.sim.operator.mcc"@.len() == 20);
    assert("gsm.sim.operator.mnc"@.len() == 20);
    assert("gsm.sim.operator.numeric"@.len() == 24);
    assert("persist.radio.iccid"@.len() == 19);
    assert("persist.sys.airplane_mode_on"@.len() == 28);
    assert("persist.sys.developer_options"@.len() == 29);
    assert("persist.sys.timezone"@.len() == 20);
    assert("ro.baseband"@.len() == 11);
    assert("ro.bootloader"@.len() == 13);
    assert("ro.build.characteristics"@.len() == 24);
    assert("ro.build.id"@.len() == 11);
    assert("ro.build.version.release"@.len() == 24);
    assert("ro.build.version.sdk"@.len() == 20);
    assert("ro.hardware.chipname"@.len() == 20);
    assert("ro.product.build.id"@.len() == 19);
    assert("ro.product.build.version.release"@.len() == 32);
    assert("ro.product.build.version.sdk"@.len() == 28);
    assert("ro.serialno"@.len() == 11);
    assert("ro.soc.manufacturer"@.len() == 19);
    assert("ro.soc.model"@.len() == 12);
    assert("ro.system.build.id"@.len() == 18);
    assert("ro.system.build.version.release"@.len() == 31);
    assert("ro.system.build.version.sdk"@.len() == 27);
    assert("ro.vendor.build.id"@.len() == 18);
    assert("ro.vendor.build.version.release"@.len() == 31);
    assert("ro.vendor.build.version.sdk"@.len() == 27);
    assert("ro.build.id"@[4] != "ro.baseband"@[4]);
    assert("ro.build.id"@[3] != "ro.serialno"@[3]);
    assert("ro.system.build.id"@[0] != "gsm.operator.alpha"@[0]);
    assert("ro.vendor.build.id"@[0] != "gsm.operator.alpha"@[0]);
    assert("ro.product.build.id"@[0] != "persist.radio.iccid"@[0]);
    assert("ro.product.build.id"@[3] != "ro.soc.manufacturer"@[3]);
    let i = choose|i: int| 0 <= i < 4 && device_section_keys()[8][i] == k;
    assert(i == 0 || i == 1 || i == 2 || i == 3);
    assert forall|l: int| 8 < l < 12 implies !(#[trigger] device_section_keys()[l]).contains(k) by {
        assert(l == 9 || l == 10 || l == 11);
    }
}

/// The build ID keys (`ro.build.id`, `ro.system.build.id`, `ro.vendor.build.id`,
/// `ro.product.build.id`) carry the build ID when it is present, not empty and not marked
/// `__DELETE__`, unless a custom property sets the key.
pub proof fn lemma_build_id_keys_carry_value(m: MergedAppConfig, k: Seq<char>)
    requires
        usable(m.build_id),
        seq![
            "ro.build.id"@,
            "ro.system.build.id"@,
            "ro.vendor.build.id"@,
            "ro.product.build.id"@,
        ].contains(k),
        m.custom_props is None || !has_key(m.custom_props->0.str_pairs(), k),
    ensures
        property_map(m).contains_key(k),
        property_map(m)[k] == m.build_id->0@,
{
    assert(seq![
        "ro.build.id"@,
        "ro.system.build.id"@,
        "ro.vendor.build.id"@,
        "ro.product.build.id"@,
    ] == device_section_keys()[8]);
    lemma_build_id_keys_unique(k);
    let v = m.build_id->0@;
    assert(device_sections(m)[8] == writes_for(device_section_keys()[8], v));
    lemma_device_field_value(m, 8, v, k);
}

proof fn lemma_characteristics_keys_unique(k: Seq<char>)
    requires
        device_section_keys()[9].contains(k),
    ensures
        forall|l: int| 9 < l < 12 ==> !(#[trigger] device_section_keys()[l]).contains(k),
        !telephony_keys().contains(k),
{
    reveal_strlit("gsm.operator.alpha");
    reveal_strlit("gsm.operator.iso-country");
    reveal_strlit("gsm.operator.mcc");
    reveal_strlit("gsm.operator.mnc");
    reveal_strlit("gsm.operator.numeric");
    reveal_strlit("gsm.sim.operator.alpha");
    reveal_strlit("gsm.sim.operator.iso-country");
    reveal_strlit("gsm.sim.operator.mcc");
    reveal_strlit("gsm.sim.operator.mnc");
    reveal_strlit("gsm.sim.operator.numeric");
    reveal_strlit("persist.radio.iccid");
    reveal_strlit("persist.sys.airplane_mode_on");
    reveal_strlit("persist.sys.developer_options");
    reveal_strlit("persist.sys.timezone");
    reveal_strlit("ro.baseband");
    reveal_strlit("ro.bootloader");
    reveal_strlit("ro.build.characteristics");
    reveal_strlit("ro.build.version.release");
    reveal_strlit("ro.build.version.sdk");
    reveal_strlit("ro.hardware.chipname");
    reveal_strlit("ro.product.build.version.release");
    reveal_strlit("ro.product.build.version.sdk");
    reveal_strlit("ro.serialno");
    reveal_strlit("ro.soc.manufacturer");
    reveal_strlit("ro.soc.model");
    reveal_strlit("ro.system.build.version.release");
    reveal_strlit("ro.system.build.version.sdk");
    reveal_strlit("ro.vendor.build.version.release");
    reveal_strlit("ro.vendor.build.version.sdk");
    assert("gsm.operator.alpha"@.len() == 18);
    assert("gsm.operator.iso-country"@.len() == 24);
    assert("gsm.operator.mcc"@.len() == 16);
    assert("gsm.operator.mnc"@.len() == 16);
    assert("gsm.operator.numeric"@.len() == 20);
    assert("gsm.sim.operator.alpha"@.len() == 22);
    assert("gsm.sim.operator.iso-country"@.len() == 28);
    assert("gsm.sim.operator.mcc"@.len() == 20);
    assert("gsm.sim.operator.mnc"@.len() == 20);
    assert("gsm.sim.operator.numeric"@.len() == 24);
    assert("persist.radio.iccid"@.len() == 19);
    assert("persist.sys.airplane_mode_on"@.len() == 28);
    assert("persist.sys.developer_options"@.len() == 29);
    assert("persist.sys.timezone"@.len() == 20);
    assert("ro.baseband"@.len() == 11);
    assert("ro.bootloader"@.len() == 13);
    assert("ro.build.characteristics"@.len() == 24);
    assert("ro.build.version.release"@.len() == 24);
    assert("ro.build.version.sdk"@.len() == 20);
    assert("ro.hardware.chipname"@.len() == 20);
    assert("ro.product.build.version.release"@.len() == 32);
    assert("ro.product.build.version.sdk"@.len() == 28);
    assert("ro.serialno"@.len() == 11);
    assert("ro.soc.manufacturer"@.len() == 19);
    assert("ro.soc.model"@.len() == 12);
    assert("ro.system.build.version.release"@.len() == 31);
    assert("ro.system.build.version.sdk"@.len() == 27);
    assert("ro.vendor.build.version.release"@.len() == 31);
    assert("ro.vendor.build.version.sdk"@.len() == 27);
    assert("ro.build.characteristics"@[9] != "ro.build.version.release"@[9]);
    assert("ro.build.characteristics"@[0] != "gsm.operator.iso-country"@[0]);
    assert("ro.build.characteristics"@[0] != "gsm.sim.operator.numeric"@[0]);
    let i = choose|i: int| 0 <= i < 1 && device_section_keys()[9][i] == k;
    assert(i == 0);
    assert forall|l: int| 9 < l < 12 implies !(#[trigger] device_section_keys()[l]).contains(k) by {
        assert(l == 10 || l == 11);
    }
}

/// The key `ro.build.characteristics` carry the characteristics when it is present, not empty and
/// not marked `__DELETE__`, unless a custom property sets the key.
pub proof fn lemma_characteristics_keys_carry_value(m: MergedAppConfig, k: Seq<char>)
    requires
        usable(m.characteristics),
        seq!["ro.build.characteristics"@].contains(k),
        m.custom_props is None || !has_key(m.custom_props->0.str_pairs(), k),
    ensures
        property_map(m).contains_key(k),
        property_map(m)[k] == m.characteristics->0@,
{
    assert(seq!["ro.build.characteristics"@] == device_section_keys()[9]);
    lemma_characteristics_keys_unique(k);
    let v = m.characteristics->0@;
    assert(device_sections(m)[9] == writes_for(device_section_keys()[9], v));
    lemma_device_field_value(m, 9, v, k);
}

proof fn lemma_android_version_keys_unique(k: Seq<char>)
    requires
        device_section_keys()[10].contains(k),
    ensures
        forall|l: int| 10 < l < 12 ==> !(#[trigger] device_section_keys()[l]).contains(k),
        !telephony_keys().contains(k),
{
    reveal_strlit("gsm.operator.alpha");
    reveal_strlit("gsm.operator.iso-country");
    reveal_strlit("gsm.operator.mcc");
    reveal_strlit("gsm.operator.mnc");
    reveal_strlit("gsm.operator.numeric");
    reveal_strlit("gsm.sim.operator.alpha");
    reveal_strlit("gsm.sim.operator.iso-country");
    reveal_strlit("gsm.sim.operator.mcc");
    reveal_strlit("gsm.sim.operator.mnc");
    reveal_strlit("gsm.sim.operator.numeric");
    reveal_strlit("persist.radio.iccid");
    reveal_strlit("persist.sys.airplane_mode_on");
    reveal_strlit("persist.sys.developer_options");
    reveal_strlit("persist.sys.timezone");
    reveal_strlit("ro.baseband");
    reveal_strlit("ro.bootloader");
    reveal_strlit("ro.build.version.release");
    reveal_strlit("ro.build.version.sdk");
    reveal_strlit("ro.hardware.chipname");
    reveal_strlit("ro.product.build.version.release");
    reveal_strlit("ro.product.build.version.sdk");
    reveal_strlit("ro.serialno");
    reveal_strlit("ro.soc.manufacturer");
    reveal_strlit("ro.soc.model");
    reveal_strlit("ro.system.build.version.release");
    reveal_strlit("ro.system.build.version.sdk");
    reveal_strlit("ro.vendor.build.version.release");
    reveal_strlit("ro.vendor.build.version.sdk");
    assert("gsm.operator.alpha"@.len() == 18);
    assert("gsm.operator.iso-country"@.len() == 24);
    assert("gsm.operator.mcc"@.len() == 16);
    assert("gsm.operator.mnc"@.len() == 16);
    assert("gsm.operator.numeric"@.len() == 20);
    assert("gsm.sim.operator.alpha"@.len() == 22);
    assert("gsm.sim.operator.iso-country"@.len() == 28);
    assert("gsm.sim.operator.mcc"@.len() == 20);
    assert("gsm.sim.operator.mnc"@.len() == 20);
    assert("gsm.sim.operator.numeric"@.len() == 24);
    assert("persist.radio.iccid"@.len() == 19);
    assert("persist.sys.airplane_mode_on"@.len() == 28);
    assert("persist.sys.developer_options"@.len() == 29);
    assert("persist.sys.timezone"@.len() == 20);
    assert("ro.baseband"@.len() == 11);
    assert("ro.bootloader"@.len() == 13);
    assert("ro.build.version.release"@.len() == 24);
    assert("ro.build.version.sdk"@.len() == 20);
    assert("ro.hardware.chipname"@.len() == 20);
    assert("ro.product.build.version.release"@.len() == 32);
    assert("ro.product.build.version.sdk"@.len() == 28);
    assert("ro.serialno"@.len() == 11);
    assert("ro.soc.manufacturer"@.len() == 19);
    assert("ro.soc.model"@.len() == 12);
    assert("ro.system.build.version.release"@.len() == 31);
    assert("ro.system.build.version.sdk"@.len() == 27);
    assert("ro.vendor.build.version.release"@.len() == 31);
    assert("ro.vendor.build.version.sdk"@.len() == 27);
    assert("ro.build.version.release"@[0] != "gsm.operator.iso-country"@[0]);
    assert("ro.build.version.release"@[0] != "gsm.sim.operator.numeric"@[0]);
    let i = choose|i: int| 0 <= i < 4 && device_section_keys()[10][i] == k;
    assert(i == 0 || i == 1 || i == 2 || i == 3);
    assert forall|l: int| 10 < l < 12
        implies !(#[trigger] device_section_keys()[l]).contains(k) by {
        assert(l == 11);
    }
}

/// The release version keys (`ro.build.version.release` and its system, vendor and product
/// variants) carry the Android release version when it is present and not empty (a value marked
/// `__DELETE__` included: the delete list has no entry for it), unless a custom property sets the
/// key.
pub proof fn lemma_android_version_keys_carry_value(m: MergedAppConfig, k: Seq<char>)
    requires
        is_filled(m.android_version),
        seq![
            "ro.build.version.release"@,
            "ro.system.build.version.release"@,
            "ro.vendor.build.version.release"@,
            "ro.product.build.version.release"@,
        ].contains(k),
        m.custom_props is None || !has_key(m.custom_props->0.str_pairs(), k),
    ensures
        property_map(m).contains_key(k),
        property_map(m)[k] == m.android_version->0@,
{
    assert(seq![
        "ro.build.version.release"@,
        "ro.system.build.version.release"@,
        "ro.vendor.build.version.release"@,
        "ro.product.build.version.release"@,
    ] == device_section_keys()[10]);
    lemma_android_version_keys_unique(k);
    let v = m.android_version->0@;
    assert(device_sections(m)[10] == writes_for(device_section_keys()[10], v));
    lemma_device_field_value(m, 10, v, k);
}

proof fn lemma_sdk_int_keys_unique(k: Seq<char>)
    requires
        device_section_keys()[11].contains(k),
    ensures
        forall|l: int| 11 < l < 12 ==> !(#[trigger] device_section_keys()[l]).contains(k),
        !telephony_keys().contains(k),
{
    reveal_strlit("gsm.operator.alpha");
    reveal_strlit("gsm.operator.iso-country");
    reveal_strlit("gsm.operator.mcc");
    reveal_strlit("gsm.operator.mnc");
    reveal_strlit("gsm.operator.numeric");
    reveal_strlit("gsm.sim.operator.alpha");
    reveal_strlit("gsm.sim.operator.iso-country");
    reveal_strlit("gsm.sim.operator.mcc");
    reveal_strlit("gsm.sim.operator.mnc");
    reveal_strlit("gsm.sim.operator.numeric");
    reveal_strlit("persist.radio.iccid");
    reveal_strlit("persist.sys.airplane_mode_on");
    reveal_strlit("persist.sys.developer_options");
    reveal_strlit("persist.sys.timezone");
    reveal_strlit("ro.baseband");
    reveal_strlit("ro.bootloader");
    reveal_strlit("ro.build.version.sdk");
    reveal_strlit("ro.hardware.chipname");
    reveal_strlit("ro.product.build.version.sdk");
    reveal_strlit("ro.serialno");
    reveal_strlit("ro.soc.manufacturer");
    reveal_strlit("ro.soc.model");
    reveal_strlit("ro.system.build.version.sdk");
    reveal_strlit("ro.vendor.build.version.sdk");
    assert("gsm.operator.alpha"@.len() == 18);
    assert("gsm.operator.iso-country"@.len() == 24);
    assert("gsm.operator.mcc"@.len() == 16);
    assert("gsm.operator.mnc"@.len() == 16);
    assert("gsm.operator.numeric"@.len() == 20);
    assert("gsm.sim.operator.alpha"@.len() == 22);
    assert("gsm.sim.operator.iso-country"@.len() == 28);
    assert("gsm.sim.operator.mcc"@.len() == 20);
    assert("gsm.sim.operator.mnc"@.len() == 20);
    assert("gsm.sim.operator.numeric"@.len() == 24);
    assert("persist.radio.iccid"@.len() == 19);
    assert("persist.sys.airplane_mode_on"@.len() == 28);
    assert("persist.sys.developer_options"@.len() == 29);
    assert("persist.sys.timezone"@.len() == 20);
    assert("ro.baseband"@.len() == 11);
    assert("ro.bootloader"@.len() == 13);
    assert("ro.build.version.sdk"@.len() == 20);
    assert("ro.hardware.chipname"@.len() == 20);
    assert("ro.product.build.version.sdk"@.len() == 28);
    assert("ro.serialno"@.len() == 11);
    assert("ro.soc.manufacturer"@.len() == 19);
    assert("ro.soc.model"@.len() == 12);
    assert("ro.system.build.version.sdk"@.len() == 27);
    assert("ro.vendor.build.version.sdk"@.len() == 27);
    assert("ro.build.version.sdk"@[0] != "gsm.sim.operator.mcc"@[0]);
    assert("ro.build.version.sdk"@[0] != "gsm.sim.operator.mnc"@[0]);
    assert("ro.build.version.sdk"@[0] != "gsm.operator.numeric"@[0]);
    assert("ro.build.version.sdk"@[0] != "persist.sys.timezone"@[0]);
    assert("ro.build.version.sdk"@[3] != "ro.hardware.chipname"@[3]);
    assert("ro.product.build.version.sdk"@[0] != "gsm.sim.operator.iso-country"@[0]);
    assert("ro.product.build.version.sdk"@[0] != "persist.sys.airplane_mode_on"@[0]);
    let i = choose|i: int| 0 <= i < 4 && device_section_keys()[11][i] == k;
    assert(i == 0 || i == 1 || i == 2 || i == 3);
}

/// The SDK keys (`ro.build.version.sdk` and its system, vendor and product variants) carry the
/// configured SDK level, in decimal, when it is set, unless a custom property sets the key.
pub proof fn lemma_sdk_int_keys_carry_value(m: MergedAppConfig, k: Seq<char>)
    requires
        m.sdk_int is Some,
        seq![
            "ro.build.version.sdk"@,
            "ro.system.build.version.sdk"@,
            "ro.vendor.build.version.sdk"@,
            "ro.product.build.version.sdk"@,
        ].contains(k),
        m.custom_props is None || !has_key(m.custom_props->0.str_pairs(), k),
    ensures
        property_map(m).contains_key(k),
        property_map(m)[k] == decimal(m.sdk_int->0 as nat),
{
    assert(seq![
        "ro.build.version.sdk"@,
        "ro.system.build.version.sdk"@,
        "ro.vendor.build.version.sdk"@,
        "ro.product.build.version.sdk"@,
    ] == device_section_keys()[11]);
    lemma_sdk_int_keys_unique(k);
    let v = decimal(m.sdk_int->0 as nat);
    assert(device_sections(m)[11] == writes_for(device_section_keys()[11], v));
    lemma_device_field_value(m, 11, v, k);
}

/// The keys each telephony section may write, spelled out.
pub open spec fn telephony_section_keys() -> Seq<Seq<Seq<char>>> {
    seq![
        seq!["gsm.sim.operator.iso-country"@, "gsm.operator.iso-country"@],
        seq!["gsm.sim.operator.mcc"@, "gsm.operator.mcc"@],
        seq!["gsm.sim.operator.mnc"@, "gsm.operator.mnc"@],
        seq!["gsm.sim.operator.numeric"@, "gsm.operator.numeric"@],
        seq!["gsm.sim.operator.alpha"@, "gsm.operator.alpha"@],
        seq!["persist.sys.timezone"@],
        seq!["persist.radio.iccid"@],
        seq!["ro.soc.manufacturer"@],
        seq!["ro.soc.model"@, "ro.hardware.chipname"@],
        seq!["ro.bootloader"@],
        seq!["ro.baseband"@],
        seq!["ro.serialno"@],
        seq!["persist.sys.airplane_mode_on"@],
        seq!["persist.sys.developer_options"@],
    ]
}

/// Each telephony section writes only its own keys.
proof fn lemma_telephony_section_keys(tc: TelephonyConfig, l: int, k: Seq<char>)
    requires
        0 <= l < 14,
        has_key(telephony_sections(tc)[l], k),
    ensures
        telephony_section_keys()[l].contains(k),
{
    if l == 0 {
        lemma_filled_keys(tc.sim_country_iso,seq![
            "gsm.sim.operator.iso-country"@,
            "gsm.operator.iso-country"@,
        ], k);
    } else if l == 1 {
        lemma_filled_keys(tc.mcc, seq!["gsm.sim.operator.mcc"@, "gsm.operator.mcc"@], k);
    } else if l == 2 {
        lemma_filled_keys(tc.mnc, seq!["gsm.sim.operator.mnc"@, "gsm.operator.mnc"@], k);
    } else if l == 3 {
        lemma_writes_for_has_key(seq![
            "gsm.sim.operator.numeric"@,
            "gsm.operator.numeric"@,
        ], tc.mcc->0@ + tc.mnc->0@, k);
    } else if l == 4 {
        lemma_filled_keys(tc.operator_name,seq![
            "gsm.sim.operator.alpha"@,
            "gsm.operator.alpha"@,
        ], k);
    } else if l == 5 {
        lemma_filled_keys(tc.timezone, seq!["persist.sys.timezone"@], k);
    } else if l == 6 {
        lemma_filled_keys(tc.iccid, seq!["persist.radio.iccid"@], k);
    } else if l == 7 {
        lemma_filled_keys(tc.soc_manufacturer, seq!["ro.soc.manufacturer"@], k);
    } else if l == 8 {
        lemma_filled_keys(tc.soc_model, seq!["ro.soc.model"@, "ro.hardware.chipname"@], k);
    } else if l == 9 {
        lemma_filled_keys(tc.bootloader, seq!["ro.bootloader"@], k);
    } else if l == 10 {
        lemma_filled_keys(tc.baseband, seq!["ro.baseband"@], k);
    } else if l == 11 {
        lemma_filled_keys(tc.device_serial, seq!["ro.serialno"@], k);
    } else if l == 12 {
        lemma_flag_keys(tc.hide_airplane_mode, "persist.sys.airplane_mode_on"@, k);
        assert(telephony_section_keys()[12][0] == k);
    } else if l == 13 {
        lemma_flag_keys(tc.hide_developer_mode, "persist.sys.developer_options"@, k);
        assert(telephony_section_keys()[13][0] == k);
    }
}

/// The value a telephony section writes at one of its keys is the one the
/// property map keeps when no later telephony section writes that key.
proof fn lemma_telephony_field_value(m: MergedAppConfig, f: int, v: Seq<char>, k: Seq<char>)
    requires
        0 <= f < 14,
        telephony_sections(m.telephony_config)[f] == writes_for(telephony_section_keys()[f], v),
        telephony_section_keys()[f].contains(k),
        forall|l: int| f < l < 14 ==> !(#[trigger] telephony_section_keys()[l]).contains(k),
    ensures
        property_map(m).contains_key(k),
        property_map(m)[k] == v,
{
    let e = Map::<Seq<char>, Seq<char>>::empty();
    let tc = m.telephony_config;
    let s = telephony_sections(tc);
    let front = device_writes(m) + custom_section(m.custom_props);
    lemma_telephony_flat(tc);
    assert forall|l: int| f < l < s.len() implies !has_key(#[trigger] s[l], k) by {
        if has_key(s[l], k) {
            lemma_telephony_section_keys(tc, l, k);
            assert(telephony_section_keys()[l].contains(k));
        }
    }
    lemma_apply_concat(e, front, telephony_writes(tc));
    lemma_flat_value(apply_pairs(e, front), s, f, telephony_section_keys()[f], v, k);
}

proof fn lemma_tel_sim_country_iso_keys_unique(k: Seq<char>)
    requires
        telephony_section_keys()[0].contains(k),
    ensures
        forall|l: int| 0 < l < 14 ==> !(#[trigger] telephony_section_keys()[l]).contains(k),
{
    reveal_strlit("gsm.operator.alpha");
    reveal_strlit("gsm.operator.iso-country");
    reveal_strlit("gsm.operator.mcc");
    reveal_strlit("gsm.operator.mnc");
    reveal_strlit("gsm.operator.numeric");
    reveal_strlit("gsm.sim.operator.alpha");
    reveal_strlit("gsm.sim.operator.iso-country");
    reveal_strlit("gsm.sim.operator.mcc");
    reveal_strlit("gsm.sim.operator.mnc");
    reveal_strlit("gsm.sim.operator.numeric");
    reveal_strlit("persist.radio.iccid");
    reveal_strlit("persist.sys.airplane_mode_on");
    reveal_strlit("persist.sys.developer_options");
    reveal_strlit("persist.sys.timezone");
    reveal_strlit("ro.baseband");
    reveal_strlit("ro.bootloader");
    reveal_strlit("ro.hardware.chipname");
    reveal_strlit("ro.serialno");
    reveal_strlit("ro.soc.manufacturer");
    reveal_strlit("ro.soc.model");
    assert("gsm.operator.alpha"@.len() == 18);
    assert("gsm.operator.iso-country"@.len() == 24);
    assert("gsm.operator.mcc"@.len() == 16);
    assert("gsm.operator.mnc"@.len() == 16);
    assert("gsm.operator.numeric"@.len() == 20);
    assert("gsm.sim.operator.alpha"@.len() == 22);
    assert("gsm.sim.operator.iso-country"@.len() == 28);
    assert("gsm.sim.operator.mcc"@.len() == 20);
    assert("gsm.sim.operator.mnc"@.len() == 20);
    assert("gsm.sim.operator.numeric"@.len() == 24);
    assert("persist.radio.iccid"@.len() == 19);
    assert("persist.sys.airplane_mode_on"@.len() == 28);
    assert("persist.sys.developer_options"@.len() == 29);
    assert("persist.sys.timezone"@.len() == 20);
    assert("ro.baseband"@.len() == 11);
    assert("ro.bootloader"@.len() == 13);
    assert("ro.hardware.chipname"@.len() == 20);
    assert("ro.serialno"@.len() == 11);
    assert("ro.soc.manufacturer"@.len() == 19);
    assert("ro.soc.model"@.len() == 12);
    assert("gsm.sim.operator.iso-country"@[0] != "persist.sys.airplane_mode_on"@[0]);
    assert("gsm.operator.iso-country"@[4] != "gsm.sim.operator.numeric"@[4]);
    let i = choose|i: int| 0 <= i < 2 && telephony_section_keys()[0][i] == k;
    assert(i == 0 || i == 1);
    assert forall|l: int| 0 < l < 14
        implies !(#[trigger] telephony_section_keys()[l]).contains(k) by {
        assert(l == 1 || l == 2 || l == 3 || l == 4 || l == 5 || l == 6 || l == 7 || l == 8
            || l == 9 || l == 10 || l == 11 || l == 12 || l == 13);
    }
}

/// The telephony keys `gsm.sim.operator.iso-country`, `gsm.operator.iso-country` carry the SIM
/// country ISO code when it is present and not empty, whatever the device fields and custom
/// properties say.
pub proof fn lemma_tel_sim_country_iso_keys_carry_value(m: MergedAppConfig, k: Seq<char>)
    requires
        is_filled(m.telephony_config.sim_country_iso),
        seq!["gsm.sim.operator.iso-country"@, "gsm.operator.iso-country"@].contains(k),
    ensures
        property_map(m).contains_key(k),
        property_map(m)[k] == m.telephony_config.sim_country_iso->0@,
{
    assert(seq![
        "gsm.sim.operator.iso-country"@,
        "gsm.operator.iso-country"@,
    ] == telephony_section_keys()[0]);
    lemma_tel_sim_country_iso_keys_unique(k);
    let v = m.telephony_config.sim_country_iso->0@;
    assert(telephony_sections(m.telephony_config)[0] == writes_for(telephony_section_keys()[0], v));
    lemma_telephony_field_value(m, 0, v, k);
}

proof fn lemma_tel_mcc_keys_unique(k: Seq<char>)
    requires
        telephony_section_keys()[1].contains(k),
    ensures
        forall|l: int| 1 < l < 14 ==> !(#[trigger] telephony_section_keys()[l]).contains(k),
{
    reveal_strlit("gsm.operator.alpha");
    reveal_strlit("gsm.operator.mcc");
    reveal_strlit("gsm.operator.mnc");
    reveal_strlit("gsm.operator.numeric");
    reveal_strlit("gsm.sim.operator.alpha");
    reveal_strlit("gsm.sim.operator.mcc");
    reveal_strlit("gsm.sim.operator.mnc");
    reveal_strlit("gsm.sim.operator.numeric");
    reveal_strlit("persist.radio.iccid");
    reveal_strlit("persist.sys.airplane_mode_on");
    reveal_strlit("persist.sys.developer_options");
    reveal_strlit("persist.sys.timezone");
    reveal_strlit("ro.baseband");
    reveal_strlit("ro.bootloader");
    reveal_strlit("ro.hardware.chipname");
    reveal_strlit("ro.serialno");
    reveal_strlit("ro.soc.manufacturer");
    reveal_strlit("ro.soc.model");
    assert("gsm.operator.alpha"@.len() == 18);
    assert("gsm.operator.mcc"@.len() == 16);
    assert("gsm.operator.mnc"@.len() == 16);
    assert("gsm.operator.numeric"@.len() == 20);
    assert("gsm.sim.operator.alpha"@.len() == 22);
    assert("gsm.sim.operator.mcc"@.len() == 20);
    assert("gsm.sim.operator.mnc"@.len() == 20);
    assert("gsm.sim.operator.numeric"@.len() == 24);
    assert("persist.radio.iccid"@.len() == 19);
    assert("persist.sys.airplane_mode_on"@.len() == 28);
    assert("persist.sys.developer_options"@.len() == 29);
    assert("persist.sys.timezone"@.len() == 20);
    assert("ro.baseband"@.len() == 11);
    assert("ro.bootloader"@.len() == 13);
    assert("ro.hardware.chipname"@.len() == 20);
    assert("ro.serialno"@.len() == 11);
    assert("ro.soc.manufacturer"@.len() == 19);
    assert("ro.soc.model"@.len() == 12);
    assert("gsm.sim.operator.mcc"@[18] != "gsm.sim.operator.mnc"@[18]);
    assert("gsm.sim.operator.mcc"@[4] != "gsm.operator.numeric"@[4]);
    assert("gsm.sim.operator.mcc"@[0] != "persist.sys.timezone"@[0]);
    assert("gsm.sim.operator.mcc"@[0] != "ro.hardware.chipname"@[0]);
    assert("gsm.operator.mcc"@[14] != "gsm.operator.mnc"@[14]);
    let i = choose|i: int| 0 <= i < 2 && telephony_section_keys()[1][i] == k;
    assert(i == 0 || i == 1);
    assert forall|l: int| 1 < l < 14
        implies !(#[trigger] telephony_section_keys()[l]).contains(k) by {
        assert(l == 2 || l == 3 || l == 4 || l == 5 || l == 6 || l == 7 || l == 8 || l == 9
            || l == 10 || l == 11 || l == 12 || l == 13);
    }
}

/// The telephony keys `gsm.sim.operator.mcc`, `gsm.operator.mcc` carry the MCC when it is present
/// and not empty, whatever the device fields and custom properties say.
pub proof fn lemma_tel_mcc_keys_carry_value(m: MergedAppConfig, k: Seq<char>)
    requires
        is_filled(m.telephony_config.mcc),
        seq!["gsm.sim.operator.mcc"@, "gsm.operator.mcc"@].contains(k),
    ensures
        property_map(m).contains_key(k),
        property_map(m)[k] == m.telephony_config.mcc->0@,
{
    assert(seq!["gsm.sim.operator.mcc"@, "gsm.operator.mcc"@] == telephony_section_keys()[1]);
    lemma_tel_mcc_keys_unique(k);
    let v = m.telephony_config.mcc->0@;
    assert(telephony_sections(m.telephony_config)[1] == writes_for(telephony_section_keys()[1], v));
    lemma_telephony_field_value(m, 1, v, k);
}

proof fn lemma_tel_mnc_keys_unique(k: Seq<char>)
    requires
        telephony_section_keys()[2].contains(k),
    ensures
        forall|l: int| 2 < l < 14 ==> !(#[trigger] telephony_section_keys()[l]).contains(k),
{
    reveal_strlit("gsm.operator.alpha");
    reveal_strlit("gsm.operator.mnc");
    reveal_strlit("gsm.operator.numeric");
    reveal_strlit("gsm.sim.operator.alpha");
    reveal_strlit("gsm.sim.operator.mnc");
    reveal_strlit("gsm.sim.operator.numeric");
    reveal_strlit("persist.radio.iccid");
    reveal_strlit("persist.sys.airplane_mode_on");
    reveal_strlit("persist.sys.developer_options");
    reveal_strlit("persist.sys.timezone");
    reveal_strlit("ro.baseband");
    reveal_strlit("ro.bootloader");
    reveal_strlit("ro.hardware.chipname");
    reveal_strlit("ro.serialno");
    reveal_strlit("ro.soc.manufacturer");
    reveal_strlit("ro.soc.model");
    assert("gsm.operator.alpha"@.len() == 18);
    assert("gsm.operator.mnc"@.len() == 16);
    assert("gsm.operator.numeric"@.len() == 20);
    assert("gsm.sim.operator.alpha"@.len() == 22);
    assert("gsm.sim.operator.mnc"@.len() == 20);
    assert("gsm.sim.operator.numeric"@.len() == 24);
    assert("persist.radio.iccid"@.len() == 19);
    assert("persist.sys.airplane_mode_on"@.len() == 28);
    assert("persist.sys.developer_options"@.len() == 29);
    assert("persist.sys.timezone"@.len() == 20);
    assert("ro.baseband"@.len() == 11);
    assert("ro.bootloader"@.len() == 13);
    assert("ro.hardware.chipname"@.len() == 20);
    assert("ro.serialno"@.len() == 11);
    assert("ro.soc.manufacturer"@.len() == 19);
    assert("ro.soc.model"@.len() == 12);
    assert("gsm.sim.operator.mnc"@[4] != "gsm.operator.numeric"@[4]);
    assert("gsm.sim.operator.mnc"@[0] != "persist.sys.timezone"@[0]);
    assert("gsm.sim.operator.mnc"@[0] != "ro.hardware.chipname"@[0]);
    let i = choose|i: int| 0 <= i < 2 && telephony_section_keys()[2][i] == k;
    assert(i == 0 || i == 1);
    assert forall|l: int| 2 < l < 14
        implies !(#[trigger] telephony_section_keys()[l]).contains(k) by {
        assert(l == 3 || l == 4 || l == 5 || l == 6 || l == 7 || l == 8 || l == 9 || l == 10
            || l == 11 || l == 12 || l == 13);
    }
}

/// The telephony keys `gsm.sim.operator.mnc`, `gsm.operator.mnc` carry the MNC when it is present
/// and not empty, whatever the device fields and custom properties say.
pub proof fn lemma_tel_mnc_keys_carry_value(m: MergedAppConfig, k: Seq<char>)
    requires
        is_filled(m.telephony_config.mnc),
        seq!["gsm.sim.operator.mnc"@, "gsm.operator.mnc"@].contains(k),
    ensures
        property_map(m).contains_key(k),
        property_map(m)[k] == m.telephony_config.mnc->0@,
{
    assert(seq!["gsm.sim.operator.mnc"@, "gsm.operator.mnc"@] == telephony_section_keys()[2]);
    lemma_tel_mnc_keys_unique(k);
    let v = m.telephony_config.mnc->0@;
    assert(telephony_sections(m.telephony_config)[2] == writes_for(telephony_section_keys()[2], v));
    lemma_telephony_field_value(m, 2, v, k);
}

proof fn lemma_tel_numeric_keys_unique(k: Seq<char>)
    requires
        telephony_section_keys()[3].contains(k),
    ensures
        forall|l: int| 3 < l < 14 ==> !(#[trigger] telephony_section_keys()[l]).contains(k),
{
    reveal_strlit("gsm.operator.alpha");
    reveal_strlit("gsm.operator.numeric");
    reveal_strlit("gsm.sim.operator.alpha");
    reveal_strlit("gsm.sim.operator.numeric");
    reveal_strlit("persist.radio.iccid");
    reveal_strlit("persist.sys.airplane_mode_on");
    reveal_strlit("persist.sys.developer_options");
    reveal_strlit("persist.sys.timezone");
    reveal_strlit("ro.baseband");
    reveal_strlit("ro.bootloader");
    reveal_strlit("ro.hardware.chipname");
    reveal_strlit("ro.serialno");
    reveal_strlit("ro.soc.manufacturer");
    reveal_strlit("ro.soc.model");
    assert("gsm.operator.alpha"@.len() == 18);
    assert("gsm.operator.numeric"@.len() == 20);
    assert("gsm.sim.operator.alpha"@.len() == 22);
    assert("gsm.sim.operator.numeric"@.len() == 24);
    assert("persist.radio.iccid"@.len() == 19);
    assert("persist.sys.airplane_mode_on"@.len() == 28);
    assert("persist.sys.developer_options"@.len() == 29);
    assert("persist.sys.timezone"@.len() == 20);
    assert("ro.baseband"@.len() == 11);
    assert("ro.bootloader"@.len() == 13);
    assert("ro.hardware.chipname"@.len() == 20);
    assert("ro.serialno"@.len() == 11);
    assert("ro.soc.manufacturer"@.len() == 19);
    assert("ro.soc.model"@.len() == 12);
    assert("gsm.operator.numeric"@[0] != "persist.sys.timezone"@[0]);
    assert("gsm.operator.numeric"@[0] != "ro.hardware.chipname"@[0]);
    let i = choose|i: int| 0 <= i < 2 && telephony_section_keys()[3][i] == k;
    assert(i == 0 || i == 1);
    assert forall|l: int| 3 < l < 14
        implies !(#[trigger] telephony_section_keys()[l]).contains(k) by {
        assert(l == 4 || l == 5 || l == 6 || l == 7 || l == 8 || l == 9 || l == 10 || l == 11
            || l == 12 || l == 13);
    }
}

/// The telephony keys `gsm.sim.operator.numeric`, `gsm.operator.numeric` carry the operator numeric
/// code (MCC followed by MNC) when MCC and MNC are both present and not empty.
pub proof fn lemma_tel_numeric_keys_carry_value(m: MergedAppConfig, k: Seq<char>)
    requires
        is_filled(m.telephony_config.mcc) && is_filled(m.telephony_config.mnc),
        seq!["gsm.sim.operator.numeric"@, "gsm.operator.numeric"@].contains(k),
    ensures
        property_map(m).contains_key(k),
        property_map(m)[k] == m.telephony_config.mcc->0@ + m.telephony_config.mnc->0@,
{
    assert(seq![
        "gsm.sim.operator.numeric"@,
        "gsm.operator.numeric"@,
    ] == telephony_section_keys()[3]);
    lemma_tel_numeric_keys_unique(k);
    let v = m.telephony_config.mcc->0@ + m.telephony_config.mnc->0@;
    assert(telephony_sections(m.telephony_config)[3] == writes_for(telephony_section_keys()[3], v));
    lemma_telephony_field_value(m, 3, v, k);
}

proof fn lemma_tel_operator_name_keys_unique(k: Seq<char>)
    requires
        telephony_section_keys()[4].contains(k),
    ensures
        forall|l: int| 4 < l < 14 ==> !(#[trigger] telephony_section_keys()[l]).contains(k),
{
    reveal_strlit("gsm.operator.alpha");
    reveal_strlit("gsm.sim.operator.alpha");
    reveal_strlit("persist.radio.iccid");
    reveal_strlit("persist.sys.airplane_mode_on");
    reveal_strlit("persist.sys.developer_options");
    reveal_strlit("persist.sys.timezone");
    reveal_strlit("ro.baseband");
    reveal_strlit("ro.bootloader");
    reveal_strlit("ro.hardware.chipname");
    reveal_strlit("ro.serialno");
    reveal_strlit("ro.soc.manufacturer");
    reveal_strlit("ro.soc.model");
    assert("gsm.operator.alpha"@.len() == 18);
    assert("gsm.sim.operator.alpha"@.len() == 22);
    assert("persist.radio.iccid"@.len() == 19);
    assert("persist.sys.airplane_mode_on"@.len() == 28);
    assert("persist.sys.developer_options"@.len() == 29);
    assert("persist.sys.timezone"@.len() == 20);
    assert("ro.baseband"@.len() == 11);
    assert("ro.bootloader"@.len() == 13);
    assert("ro.hardware.chipname"@.len() == 20);
    assert("ro.serialno"@.len() == 11);
    assert("ro.soc.manufacturer"@.len() == 19);
    assert("ro.soc.model"@.len() == 12);
    let i = choose|i: int| 0 <= i < 2 && telephony_section_keys()[4][i] == k;
    assert(i == 0 || i == 1);
    assert forall|l: int| 4 < l < 14
        implies !(#[trigger] telephony_section_keys()[l]).contains(k) by {
        assert(l == 5 || l == 6 || l == 7 || l == 8 || l == 9 || l == 10 || l == 11 || l == 12
            || l == 13);
    }
}

/// The telephony keys `gsm.sim.operator.alpha`, `gsm.operator.alpha` carry the operator name when
/// it is present and not empty, whatever the device fields and custom properties say.
pub proof fn lemma_tel_operator_name_keys_carry_value(m: MergedAppConfig, k: Seq<char>)
    requires
        is_filled(m.telephony_config.operator_name),
        seq!["gsm.sim.operator.alpha"@, "gsm.operator.alpha"@].contains(k),
    ensures
        property_map(m).contains_key(k),
        property_map(m)[k] == m.telephony_config.operator_name->0@,
{
    assert(seq!["gsm.sim.operator.alpha"@, "gsm.operator.alpha"@] == telephony_section_keys()[4]);
    lemma_tel_operator_name_keys_unique(k);
    let v = m.telephony_config.operator_name->0@;
    assert(telephony_sections(m.telephony_config)[4] == writes_for(telephony_section_keys()[4], v));
    lemma_telephony_field_value(m, 4, v, k);
}

proof fn lemma_tel_timezone_keys_unique(k: Seq<char>)
    requires
        telephony_section_keys()[5].contains(k),
    ensures
        forall|l: int| 5 < l < 14 ==> !(#[trigger] telephony_section_keys()[l]).contains(k),
{
    reveal_strlit("persist.radio.iccid");
    reveal_strlit("persist.sys.airplane_mode_on");
    reveal_strlit("persist.sys.developer_options");
    reveal_strlit("persist.sys.timezone");
    reveal_strlit("ro.baseband");
    reveal_strlit("ro.bootloader");
    reveal_strlit("ro.hardware.chipname");
    reveal_strlit("ro.serialno");
    reveal_strlit("ro.soc.manufacturer");
    reveal_strlit("ro.soc.model");
    assert("persist.radio.iccid"@.len() == 19);
    assert("persist.sys.airplane_mode_on"@.len() == 28);
    assert("persist.sys.developer_options"@.len() == 29);
    assert("persist.sys.timezone"@.len() == 20);
    assert("ro.baseband"@.len() == 11);
    assert("ro.bootloader"@.len() == 13);
    assert("ro.hardware.chipname"@.len() == 20);
    assert("ro.serialno"@.len() == 11);
    assert("ro.soc.manufacturer"@.len() == 19);
    assert("ro.soc.model"@.len() == 12);
    assert("persist.sys.timezone"@[0] != "ro.hardware.chipname"@[0]);
    let i = choose|i: int| 0 <= i < 1 && telephony_section_keys()[5][i] == k;
    assert(i == 0);
    assert forall|l: int| 5 < l < 14
        implies !(#[trigger] telephony_section_keys()[l]).contains(k) by {
        assert(l == 6 || l == 7 || l == 8 || l == 9 || l == 10 || l == 11 || l == 12 || l == 13);
    }
}

/// The telephony key `persist.sys.timezone` carries the timezone when it is present and not empty,
/// whatever the device fields and custom properties say.
pub proof fn lemma_tel_timezone_keys_carry_value(m: MergedAppConfig, k: Seq<char>)
    requires
        is_filled(m.telephony_config.timezone),
        seq!["persist.sys.timezone"@].contains(k),
    ensures
        property_map(m).contains_key(k),
        property_map(m)[k] == m.telephony_config.timezone->0@,
{
    assert(seq!["persist.sys.timezone"@] == telephony_section_keys()[5]);
    lemma_tel_timezone_keys_unique(k);
    let v = m.telephony_config.timezone->0@;
    assert(telephony_sections(m.telephony_config)[5] == writes_for(telephony_section_keys()[5], v));
    lemma_telephony_field_value(m, 5, v, k);
}

proof fn lemma_tel_iccid_keys_unique(k: Seq<char>)
    requires
        telephony_section_keys()[6].contains(k),
    ensures
        forall|l: int| 6 < l < 14 ==> !(#[trigger] telephony_section_keys()[l]).contains(k),
{
    reveal_strlit("persist.radio.iccid");
    reveal_strlit("persist.sys.airplane_mode_on");
    reveal_strlit("persist.sys.developer_options");
    reveal_strlit("ro.baseband");
    reveal_strlit("ro.bootloader");
    reveal_strlit("ro.hardware.chipname");
    reveal_strlit("ro.serialno");
    reveal_strlit("ro.soc.manufacturer");
    reveal_strlit("ro.soc.model");
    assert("persist.radio.iccid"@.len() == 19);
    assert("persist.sys.airplane_mode_on"@.len() == 28);
    assert("persist.sys.developer_options"@.len() == 29);
    assert("ro.baseband"@.len() == 11);
    assert("ro.bootloader"@.len() == 13);
    assert("ro.hardware.chipname"@.len() == 20);
    assert("ro.serialno"@.len() == 11);
    assert("ro.soc.manufacturer"@.len() == 19);
    assert("ro.soc.model"@.len() == 12);
    assert("persist.radio.iccid"@[0] != "ro.soc.manufacturer"@[0]);
    let i = choose|i: int| 0 <= i < 1 && telephony_section_keys()[6][i] == k;
    assert(i == 0);
    assert forall|l: int| 6 < l < 14
        implies !(#[trigger] telephony_section_keys()[l]).contains(k) by {
        assert(l == 7 || l == 8 || l == 9 || l == 10 || l == 11 || l == 12 || l == 13);
    }
}

/// The telephony key `persist.radio.iccid` carries the ICCID when it is present and not empty,
/// whatever the device fields and custom properties say.
pub proof fn lemma_tel_iccid_keys_carry_value(m: MergedAppConfig, k: Seq<char>)
    requires
        is_filled(m.telephony_config.iccid),
        seq!["persist.radio.iccid"@].contains(k),
    ensures
        property_map(m).contains_key(k),
        property_map(m)[k] == m.telephony_config.iccid->0@,
{
    assert(seq!["persist.radio.iccid"@] == telephony_section_keys()[6]);
    lemma_tel_iccid_keys_unique(k);
    let v = m.telephony_config.iccid->0@;
    assert(telephony_sections(m.telephony_config)[6] == writes_for(telephony_section_keys()[6], v));
    lemma_telephony_field_value(m, 6, v, k);
}

proof fn lemma_tel_soc_manufacturer_keys_unique(k: Seq<char>)
    requires
        telephony_section_keys()[7].contains(k),
    ensures
        forall|l: int| 7 < l < 14 ==> !(#[trigger] telephony_section_keys()[l]).contains(k),
{
    reveal_strlit("persist.sys.airplane_mode_on");
    reveal_strlit("persist.sys.developer_options");
    reveal_strlit("ro.baseband");
    reveal_strlit("ro.bootloader");
    reveal_strlit("ro.hardware.chipname");
    reveal_strlit("ro.serialno");
    reveal_strlit("ro.soc.manufacturer");
    reveal_strlit("ro.soc.model");
    assert("persist.sys.airplane_mode_on"@.len() == 28);
    assert("persist.sys.developer_options"@.len() == 29);
    assert("ro.baseband"@.len() == 11);
    assert("ro.bootloader"@.len() == 13);
    assert("ro.hardware.chipname"@.len() == 20);
    assert("ro.serialno"@.len() == 11);
    assert("ro.soc.manufacturer"@.len() == 19);
    assert("ro.soc.model"@.len() == 12);
    let i = choose|i: int| 0 <= i < 1 && telephony_section_keys()[7][i] == k;
    assert(i == 0);
    assert forall|l: int| 7 < l < 14
        implies !(#[trigger] telephony_section_keys()[l]).contains(k) by {
        assert(l == 8 || l == 9 || l == 10 || l == 11 || l == 12 || l == 13);
    }
}

/// The telephony key `ro.soc.manufacturer` carries the SoC manufacturer when it is present and not
/// empty, whatever the device fields and custom properties say.
pub proof fn lemma_tel_soc_manufacturer_keys_carry_value(m: MergedAppConfig, k: Seq<char>)
    requires
        is_filled(m.telephony_config.soc_manufacturer),
        seq!["ro.soc.manufacturer"@].contains(k),
    ensures
        property_map(m).contains_key(k),
        property_map(m)[k] == m.telephony_config.soc_manufacturer->0@,
{
    assert(seq!["ro.soc.manufacturer"@] == telephony_section_keys()[7]);
    lemma_tel_soc_manufacturer_keys_unique(k);
    let v = m.telephony_config.soc_manufacturer->0@;
    assert(telephony_sections(m.telephony_config)[7] == writes_for(telephony_section_keys()[7], v));
    lemma_telephony_field_value(m, 7, v, k);
}

proof fn lemma_tel_soc_model_keys_unique(k: Seq<char>)
    requires
        telephony_section_keys()[8].contains(k),
    ensures
        forall|l: int| 8 < l < 14 ==> !(#[trigger] telephony_section_keys()[l]).contains(k),
{
    reveal_strlit("persist.sys.airplane_mode_on");
    reveal_strlit("persist.sys.developer_options");
    reveal_strlit("ro.baseband");
    reveal_strlit("ro.bootloader");
    reveal_strlit("ro.hardware.chipname");
    reveal_strlit("ro.serialno");
    reveal_strlit("ro.soc.model");
    assert("persist.sys.airplane_mode_on"@.len() == 28);
    assert("persist.sys.developer_options"@.len() == 29);
    assert("ro.baseband"@.len() == 11);
    assert("ro.bootloader"@.len() == 13);
    assert("ro.hardware.chipname"@.len() == 20);
    assert("ro.serialno"@.len() == 11);
    assert("ro.soc.model"@.len() == 12);
    let i = choose|i: int| 0 <= i < 2 && telephony_section_keys()[8][i] == k;
    assert(i == 0 || i == 1);
    assert forall|l: int| 8 < l < 14
        implies !(#[trigger] telephony_section_keys()[l]).contains(k) by {
        assert(l == 9 || l == 10 || l == 11 || l == 12 || l == 13);
    }
}

/// The telephony keys `ro.soc.model`, `ro.hardware.chipname` carry the SoC model when it is present
/// and not empty, whatever the device fields and custom properties say.
pub proof fn lemma_tel_soc_model_keys_carry_value(m: MergedAppConfig, k: Seq<char>)
    requires
        is_filled(m.telephony_config.soc_model),
        seq!["ro.soc.model"@, "ro.hardware.chipname"@].contains(k),
    ensures
        property_map(m).contains_key(k),
        property_map(m)[k] == m.telephony_config.soc_model->0@,
{
    assert(seq!["ro.soc.model"@, "ro.hardware.chipname"@] == telephony_section_keys()[8]);
    lemma_tel_soc_model_keys_unique(k);
    let v = m.telephony_config.soc_model->0@;
    assert(telephony_sections(m.telephony_config)[8] == writes_for(telephony_section_keys()[8], v));
    lemma_telephony_field_value(m, 8, v, k);
}

proof fn lemma_tel_bootloader_keys_unique(k: Seq<char>)
    requires
        telephony_section_keys()[9].contains(k),
    ensures
        forall|l: int| 9 < l < 14 ==> !(#[trigger] telephony_section_keys()[l]).contains(k),
{
    reveal_strlit("persist.sys.airplane_mode_on");
    reveal_strlit("persist.sys.developer_options");
    reveal_strlit("ro.baseband");
    reveal_strlit("ro.bootloader");
    reveal_strlit("ro.serialno");
    assert("persist.sys.airplane_mode_on"@.len() == 28);
    assert("persist.sys.developer_options"@.len() == 29);
    assert("ro.baseband"@.len() == 11);
    assert("ro.bootloader"@.len() == 13);
    assert("ro.serialno"@.len() == 11);
    let i = choose|i: int| 0 <= i < 1 && telephony_section_keys()[9][i] == k;
    assert(i == 0);
    assert forall|l: int| 9 < l < 14
        implies !(#[trigger] telephony_section_keys()[l]).contains(k) by {
        assert(l == 10 || l == 11 || l == 12 || l == 13);
    }
}

/// The telephony key `ro.bootloader` carries the bootloader version when it is present and not
/// empty, whatever the device fields and custom properties say.
pub proof fn lemma_tel_bootloader_keys_carry_value(m: MergedAppConfig, k: Seq<char>)
    requires
        is_filled(m.telephony_config.bootloader),
        seq!["ro.bootloader"@].contains(k),
    ensures
        property_map(m).contains_key(k),
        property_map(m)[k] == m.telephony_config.bootloader->0@,
{
    assert(seq!["ro.bootloader"@] == telephony_section_keys()[9]);
    lemma_tel_bootloader_keys_unique(k);
    let v = m.telephony_config.bootloader->0@;
    assert(telephony_sections(m.telephony_config)[9] == writes_for(telephony_section_keys()[9], v));
    lemma_telephony_field_value(m, 9, v, k);
}

proof fn lemma_tel_baseband_keys_unique(k: Seq<char>)
    requires
        telephony_section_keys()[10].contains(k),
    ensures
        forall|l: int| 10 < l < 14 ==> !(#[trigger] telephony_section_keys()[l]).contains(k),
{
    reveal_strlit("persist.sys.airplane_mode_on");
    reveal_strlit("persist.sys.developer_options");
    reveal_strlit("ro.baseband");
    reveal_strlit("ro.serialno");
    assert("persist.sys.airplane_mode_on"@.len() == 28);
    assert("persist.sys.developer_options"@.len() == 29);
    assert("ro.baseband"@.len() == 11);
    assert("ro.serialno"@.len() == 11);
    assert("ro.baseband"@[3] != "ro.serialno"@[3]);
    let i = choose|i: int| 0 <= i < 1 && telephony_section_keys()[10][i] == k;
    assert(i == 0);
    assert forall|l: int| 10 < l < 14
        implies !(#[trigger] telephony_section_keys()[l]).contains(k) by {
        assert(l == 11 || l == 12 || l == 13);
    }
}

/// The telephony key `ro.baseband` carries the baseband version when it is present and not empty,
/// whatever the device fields and custom properties say.
pub proof fn lemma_tel_baseband_keys_carry_value(m: MergedAppConfig, k: Seq<char>)
    requires
        is_filled(m.telephony_config.baseband),
        seq!["ro.baseband"@].contains(k),
    ensures
        property_map(m).contains_key(k),
        property_map(m)[k] == m.telephony_config.baseband->0@,
{
    assert(seq!["ro.baseband"@] == telephony_section_keys()[10]);
    lemma_tel_baseband_keys_unique(k);
    let v = m.telephony_config.baseband->0@;
    assert(telephony_sections(m.telephony_config)[10] == writes_for(telephony_section_keys()[10], v));
    lemma_telephony_field_value(m, 10, v, k);
}

proof fn lemma_tel_device_serial_keys_unique(k: Seq<char>)
    requires
        telephony_section_keys()[11].contains(k),
    ensures
        forall|l: int| 11 < l < 14 ==> !(#[trigger] telephony_section_keys()[l]).contains(k),
{
    reveal_strlit("persist.sys.airplane_mode_on");
    reveal_strlit("persist.sys.developer_options");
    reveal_strlit("ro.serialno");
    assert("persist.sys.airplane_mode_on"@.len() == 28);
    assert("persist.sys.developer_options"@.len() == 29);
    assert("ro.serialno"@.len() == 11);
    let i = choose|i: int| 0 <= i < 1 && telephony_section_keys()[11][i] == k;
    assert(i == 0);
    assert forall|l: int| 11 < l < 14
        implies !(#[trigger] telephony_section_keys()[l]).contains(k) by {
        assert(l == 12 || l == 13);
    }
}

/// The telephony key `ro.serialno` carries the serial number when it is present and not empty,
/// whatever the device fields and custom properties say.
pub proof fn lemma_tel_device_serial_keys_carry_value(m: MergedAppConfig, k: Seq<char>)
    requires
        is_filled(m.telephony_config.device_serial),
        seq!["ro.serialno"@].contains(k),
    ensures
        property_map(m).contains_key(k),
        property_map(m)[k] == m.telephony_config.device_serial->0@,
{
    assert(seq!["ro.serialno"@] == telephony_section_keys()[11]);
    lemma_tel_device_serial_keys_unique(k);
    let v = m.telephony_config.device_serial->0@;
    assert(telephony_sections(m.telephony_config)[11] == writes_for(telephony_section_keys()[11], v));
    lemma_telephony_field_value(m, 11, v, k);
}

proof fn lemma_tel_hide_airplane_mode_keys_unique(k: Seq<char>)
    requires
        telephony_section_keys()[12].contains(k),
    ensures
        forall|l: int| 12 < l < 14 ==> !(#[trigger] telephony_section_keys()[l]).contains(k),
{
    reveal_strlit("persist.sys.airplane_mode_on");
    reveal_strlit("persist.sys.developer_options");
    assert("persist.sys.airplane_mode_on"@.len() == 28);
    assert("persist.sys.developer_options"@.len() == 29);
    let i = choose|i: int| 0 <= i < 1 && telephony_section_keys()[12][i] == k;
    assert(i == 0);
    assert forall|l: int| 12 < l < 14
        implies !(#[trigger] telephony_section_keys()[l]).contains(k) by {
        assert(l == 13);
    }
}

/// The telephony key `persist.sys.airplane_mode_on` carries the value `0` when the flag is set.
pub proof fn lemma_tel_hide_airplane_mode_keys_carry_value(m: MergedAppConfig, k: Seq<char>)
    requires
        m.telephony_config.hide_airplane_mode,
        seq!["persist.sys.airplane_mode_on"@].contains(k),
    ensures
        property_map(m).contains_key(k),
        property_map(m)[k] == "0"@,
{
    assert(seq!["persist.sys.airplane_mode_on"@] == telephony_section_keys()[12]);
    lemma_tel_hide_airplane_mode_keys_unique(k);
    let v = "0"@;
    assert(telephony_sections(m.telephony_config)[12] =~= writes_for(telephony_section_keys()[12], v));
    lemma_telephony_field_value(m, 12, v, k);
}

proof fn lemma_tel_hide_developer_mode_keys_unique(k: Seq<char>)
    requires
        telephony_section_keys()[13].contains(k),
    ensures
        forall|l: int| 13 < l < 14 ==> !(#[trigger] telephony_section_keys()[l]).contains(k),
{
    reveal_strlit("persist.sys.developer_options");
    assert("persist.sys.developer_options"@.len() == 29);
    let i = choose|i: int| 0 <= i < 1 && telephony_section_keys()[13][i] == k;
    assert(i == 0);
}

/// The telephony key `persist.sys.developer_options` carries the value `0` when the flag is set.
pub proof fn lemma_tel_hide_developer_mode_keys_carry_value(m: MergedAppConfig, k: Seq<char>)
    requires
        m.telephony_config.hide_developer_mode,
        seq!["persist.sys.developer_options"@].contains(k),
    ensures
        property_map(m).contains_key(k),
        property_map(m)[k] == "0"@,
{
    assert(seq!["persist.sys.developer_options"@] == telephony_section_keys()[13]);
    lemma_tel_hide_developer_mode_keys_unique(k);
    let v = "0"@;
    assert(telephony_sections(m.telephony_config)[13] =~= writes_for(telephony_section_keys()[13], v));
    lemma_telephony_field_value(m, 13, v, k);
}

} // verus!
