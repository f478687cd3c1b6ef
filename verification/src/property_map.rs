//! The system property map that a merged profile asks for, and the list of
//! properties it asks to delete.
//!
//! The map is described as the sequence of writes that build it: each write
//! sets one key, and a later write to a key overrides an earlier one.

use vstd::prelude::*;
use vstd::string::*;

use crate::config::{Config, MergedAppConfig, TelephonyConfig};
use crate::keyed_map::{apply_pairs, lemma_apply_concat, lemma_apply_push, map_of_pairs, KeyedMap};
use crate::strings::{concat, concat3, decimal, filled, is_filled, str_eq, u32_to_decimal};

verus! {

/// A sequence of property writes: (key, value) by characters.
pub type Writes = Seq<(Seq<char>, Seq<char>)>;

/// The characters of each string.
pub open spec fn strings_of(v: Seq<String>) -> Seq<Seq<char>> {
    v.map_values(|s: String| s@)
}

/// One write of `v` to each key, in order.
pub open spec fn writes_for(keys: Seq<Seq<char>>, v: Seq<char>) -> Writes {
    keys.map_values(|k: Seq<char>| (k, v))
}

/// Writes of `v` to `keys` when `v` is present and not empty.
pub open spec fn when_filled(v: Option<String>, keys: Seq<Seq<char>>) -> Writes {
    if is_filled(v) {
        writes_for(keys, v->0@)
    } else {
        Seq::empty()
    }
}

/// A value that is present, not empty and not the delete marker.
pub open spec fn usable(v: Option<String>) -> bool {
    is_filled(v) && v->0@ != delete_marker()
}

/// Writes of `v` to `keys` when `v` is usable: present, not empty and not
/// the delete marker.
pub open spec fn when_usable(v: Option<String>, keys: Seq<Seq<char>>) -> Writes {
    if usable(v) {
        writes_for(keys, v->0@)
    } else {
        Seq::empty()
    }
}

/// Writes of `v` to `keys` when `v` is present.
pub open spec fn when_some(v: Option<String>, keys: Seq<Seq<char>>) -> Writes {
    match v {
        Some(s) => writes_for(keys, s@),
        None => Seq::empty(),
    }
}

/// A write of `"0"` to `key` when `flag` is set.
pub open spec fn when_flag(flag: bool, key: Seq<char>) -> Writes {
    if flag {
        seq![(key, "0"@)]
    } else {
        Seq::empty()
    }
}

/// Partition prefixes for which OnePlus/OPPO devices route product properties.
pub open spec fn partition_prefixes() -> Seq<Seq<char>> {
    seq!["odm"@, "vendor"@, "system"@, "system_ext"@, "product"@, "bootimage"@]
}

/// `ro.product.<field>` followed by `ro.product.<partition>.<field>` for each partition.
pub open spec fn product_keys(field: Seq<char>) -> Seq<Seq<char>> {
    seq!["ro.product."@ + field] + partition_prefixes().map_values(
        |p: Seq<char>| "ro.product."@ + p + "."@ + field,
    )
}

/// The four keys that carry the build ID.
pub open spec fn build_id_keys() -> Seq<Seq<char>> {
    seq!["ro.build.id"@, "ro.system.build.id"@, "ro.vendor.build.id"@, "ro.product.build.id"@]
}

/// The four keys that carry the Android release version.
pub open spec fn release_keys() -> Seq<Seq<char>> {
    seq![
        "ro.build.version.release"@,
        "ro.system.build.version.release"@,
        "ro.vendor.build.version.release"@,
        "ro.product.build.version.release"@,
    ]
}

/// The four keys that carry the SDK level.
pub open spec fn sdk_keys() -> Seq<Seq<char>> {
    seq![
        "ro.build.version.sdk"@,
        "ro.system.build.version.sdk"@,
        "ro.vendor.build.version.sdk"@,
        "ro.product.build.version.sdk"@,
    ]
}

/// The device writes: the device name when it is set and not empty (nothing
/// when it is the delete marker), else the product name.
pub open spec fn device_name_writes(m: MergedAppConfig) -> Writes {
    if is_filled(m.device) {
        when_usable(m.device, product_keys("device"@))
    } else {
        when_usable(m.name, product_keys("device"@))
    }
}

/// The SDK writes.
pub open spec fn sdk_writes(sdk: Option<u32>) -> Writes {
    match sdk {
        Some(n) => writes_for(sdk_keys(), decimal(n as nat)),
        None => Seq::empty(),
    }
}

/// Writes for the device identity fields. Empty values are skipped. A value
/// marked `__DELETE__` is skipped where the delete list has an entry for the
/// field; the Android release version has none, so its value is written as
/// it is.
pub open spec fn device_writes(m: MergedAppConfig) -> Writes {
    when_usable(m.manufacturer, product_keys("manufacturer"@))
        + when_usable(m.brand, product_keys("brand"@))
        + when_usable(m.marketname, seq!["ro.product.marketname"@, "ro.vendor.oplus.market.name"@])
        + when_usable(m.model, product_keys("model"@))
        + when_usable(m.name, product_keys("name"@))
        + device_name_writes(m)
        + when_usable(m.hardware, seq!["ro.hardware"@])
        + when_usable(m.fingerprint, seq!["ro.build.fingerprint"@])
        + when_usable(m.build_id, build_id_keys())
        + when_usable(m.characteristics, seq!["ro.build.characteristics"@])
        + when_filled(m.android_version, release_keys())
        + sdk_writes(m.sdk_int)
}

/// The marker that asks for a property to be deleted.
pub open spec fn delete_marker() -> Seq<char> {
    "__DELETE__"@
}

/// The marker that asks for a property to be set to the empty string.
pub open spec fn empty_marker() -> Seq<char> {
    "__EMPTY__"@
}

/// The write a custom entry asks for: none for the delete marker or an empty
/// value, the empty string for the empty marker, else the value itself.
pub open spec fn custom_entry_writes(p: (Seq<char>, Seq<char>)) -> Writes {
    if p.1 == delete_marker() || p.1.len() == 0 {
        Seq::empty()
    } else if p.1 == empty_marker() {
        seq![(p.0, Seq::<char>::empty())]
    } else {
        seq![p]
    }
}

/// Writes for custom properties, in entry order.
pub open spec fn custom_writes(ps: Writes) -> Writes
    decreases ps.len(),
{
    if ps.len() == 0 {
        Seq::empty()
    } else {
        custom_writes(ps.drop_last()) + custom_entry_writes(ps.last())
    }
}

/// Writes for an optional custom property map.
pub open spec fn custom_section(c: Option<KeyedMap<String>>) -> Writes {
    match c {
        Some(m) => custom_writes(m.str_pairs()),
        None => Seq::empty(),
    }
}

/// The operator numeric code writes, when both MCC and MNC are set and not empty.
pub open spec fn numeric_writes(mcc: Option<String>, mnc: Option<String>) -> Writes {
    if is_filled(mcc) && is_filled(mnc) {
        writes_for(seq!["gsm.sim.operator.numeric"@, "gsm.operator.numeric"@], mcc->0@ + mnc->0@)
    } else {
        Seq::empty()
    }
}

/// Writes for the telephony / SIM / country settings; empty values are
/// skipped. The delete list has no entry for these settings, so a value marked
/// `__DELETE__` is written as it is.
pub open spec fn telephony_writes(tc: TelephonyConfig) -> Writes {
    when_filled(tc.sim_country_iso, seq!["gsm.sim.operator.iso-country"@, "gsm.operator.iso-country"@])
        + when_filled(tc.mcc, seq!["gsm.sim.operator.mcc"@, "gsm.operator.mcc"@])
        + when_filled(tc.mnc, seq!["gsm.sim.operator.mnc"@, "gsm.operator.mnc"@])
        + numeric_writes(tc.mcc, tc.mnc)
        + when_filled(tc.operator_name, seq!["gsm.sim.operator.alpha"@, "gsm.operator.alpha"@])
        + when_filled(tc.timezone, seq!["persist.sys.timezone"@])
        + when_filled(tc.iccid, seq!["persist.radio.iccid"@])
        + when_filled(tc.soc_manufacturer, seq!["ro.soc.manufacturer"@])
        + when_filled(tc.soc_model, seq!["ro.soc.model"@, "ro.hardware.chipname"@])
        + when_filled(tc.bootloader, seq!["ro.bootloader"@])
        + when_filled(tc.baseband, seq!["ro.baseband"@])
        + when_filled(tc.device_serial, seq!["ro.serialno"@])
        + when_flag(tc.hide_airplane_mode, "persist.sys.airplane_mode_on"@)
        + when_flag(tc.hide_developer_mode, "persist.sys.developer_options"@)
}

/// All writes for a merged profile: device fields, then custom properties,
/// then telephony settings.
pub open spec fn property_writes(m: MergedAppConfig) -> Writes {
    device_writes(m) + custom_section(m.custom_props) + telephony_writes(m.telephony_config)
}

/// The property map a merged profile asks for.
pub open spec fn property_map(m: MergedAppConfig) -> Map<Seq<char>, Seq<char>> {
    map_of_pairs(property_writes(m))
}

// ── Building blocks ───────────────────────────────────────────────────────

fn keys1(a: &str) -> (v: Vec<String>)
    ensures
        strings_of(v@) == seq![a@],
{
    let mut v: Vec<String> = Vec::new();
    v.push(a.to_owned());
    assert(strings_of(v@) =~= seq![a@]);
    v
}

fn keys2(a: &str, b: &str) -> (v: Vec<String>)
    ensures
        strings_of(v@) == seq![a@, b@],
{
    let mut v: Vec<String> = Vec::new();
    v.push(a.to_owned());
    v.push(b.to_owned());
    assert(strings_of(v@) =~= seq![a@, b@]);
    v
}

fn keys4(a: &str, b: &str, c: &str, d: &str) -> (v: Vec<String>)
    ensures
        strings_of(v@) == seq![a@, b@, c@, d@],
{
    let mut v: Vec<String> = Vec::new();
    v.push(a.to_owned());
    v.push(b.to_owned());
    v.push(c.to_owned());
    v.push(d.to_owned());
    assert(strings_of(v@) =~= seq![a@, b@, c@, d@]);
    v
}

fn partition_key(prefix: &str, field: &str) -> (k: String)
    ensures
        k@ == "ro.product."@ + prefix@ + "."@ + field@,
{
    let mut k = concat3("ro.product.", prefix, ".");
    k.append(field);
    k
}

fn product_key_list(field: &str) -> (v: Vec<String>)
    ensures
        strings_of(v@) == product_keys(field@),
{
    let mut v: Vec<String> = Vec::new();
    v.push(concat("ro.product.", field));
    v.push(partition_key("odm", field));
    v.push(partition_key("vendor", field));
    v.push(partition_key("system", field));
    v.push(partition_key("system_ext", field));
    v.push(partition_key("product", field));
    v.push(partition_key("bootimage", field));
    assert(strings_of(v@) =~= product_keys(field@));
    v
}

/// Writes `value` to each key in order.
fn put_each(map: &mut KeyedMap<String>, keys: &Vec<String>, value: &String)
    ensures
        final(map).str_view() == apply_pairs(old(map).str_view(), writes_for(strings_of(keys@), value@)),
{
    let ghost start = map.str_view();
    let n = keys.len();
    let mut i: usize = 0;
    while i < n
        invariant
            n == keys@.len(),
            0 <= i <= n,
            map.str_view() == apply_pairs(start, writes_for(strings_of(keys@).take(i as int), value@)),
        decreases n - i,
    {
        let ghost before = writes_for(strings_of(keys@).take(i as int), value@);
        map.set(keys[i].clone(), value.clone());
        proof {
            let after = writes_for(strings_of(keys@).take(i + 1), value@);
            assert(after =~= before.push((keys@[i as int]@, value@)));
            lemma_apply_push(start, before, (keys@[i as int]@, value@));
        }
        i = i + 1;
    }
    assert(strings_of(keys@).take(n as int) =~= strings_of(keys@));
}

fn is_usable(v: &Option<String>) -> (b: bool)
    ensures
        b == usable(*v),
{
    match v {
        Some(s) => !s.as_str().is_empty() && !str_eq(s.as_str(), "__DELETE__"),
        None => false,
    }
}

fn put_when_usable(map: &mut KeyedMap<String>, value: &Option<String>, keys: Vec<String>)
    ensures
        final(map).str_view() == apply_pairs(old(map).str_view(), when_usable(*value, strings_of(keys@))),
{
    if is_usable(value) {
        put_each(map, &keys, value.as_ref().unwrap());
    }
}

fn put_when_flag(map: &mut KeyedMap<String>, flag: bool, key: &str)
    ensures
        final(map).str_view() == apply_pairs(old(map).str_view(), when_flag(flag, key@)),
{
    if flag {
        let ghost start = map.str_view();
        let zero = "0".to_owned();
        map.set(key.to_owned(), zero);
        proof {
            lemma_apply_push(start, Seq::empty(), (key@, "0"@));
            assert(Seq::<(Seq<char>, Seq<char>)>::empty().push((key@, "0"@)) =~= seq![(key@, "0"@)]);
        }
    }
}

fn put_when_filled(map: &mut KeyedMap<String>, value: &Option<String>, keys: Vec<String>)
    ensures
        final(map).str_view() == apply_pairs(old(map).str_view(), when_filled(*value, strings_of(keys@))),
{
    if filled(value) {
        put_each(map, &keys, value.as_ref().unwrap());
    }
}

/// Appends one section of writes to a map built from `start` by `acc`, and
/// gives back the writes made so far.
fn then_usable(
    map: &mut KeyedMap<String>,
    value: &Option<String>,
    keys: Vec<String>,
    Ghost(start): Ghost<Map<Seq<char>, Seq<char>>>,
    Ghost(acc): Ghost<Writes>,
) -> (r: Ghost<Writes>)
    requires
        old(map).str_view() == apply_pairs(start, acc),
    ensures
        r@ == acc + when_usable(*value, strings_of(keys@)),
        final(map).str_view() == apply_pairs(start, r@),
{
    let ghost sec = when_usable(*value, strings_of(keys@));
    put_when_usable(map, value, keys);
    proof {
        lemma_apply_concat(start, acc, sec);
    }
    Ghost(acc + sec)
}

/// As `then_usable`, for a value written whenever it is set and not empty.
fn then_filled(
    map: &mut KeyedMap<String>,
    value: &Option<String>,
    keys: Vec<String>,
    Ghost(start): Ghost<Map<Seq<char>, Seq<char>>>,
    Ghost(acc): Ghost<Writes>,
) -> (r: Ghost<Writes>)
    requires
        old(map).str_view() == apply_pairs(start, acc),
    ensures
        r@ == acc + when_filled(*value, strings_of(keys@)),
        final(map).str_view() == apply_pairs(start, r@),
{
    let ghost sec = when_filled(*value, strings_of(keys@));
    put_when_filled(map, value, keys);
    proof {
        lemma_apply_concat(start, acc, sec);
    }
    Ghost(acc + sec)
}

/// As `then_usable`, for a flag written as `"0"` when set.
fn then_flag(
    map: &mut KeyedMap<String>,
    flag: bool,
    key: &str,
    Ghost(start): Ghost<Map<Seq<char>, Seq<char>>>,
    Ghost(acc): Ghost<Writes>,
) -> (r: Ghost<Writes>)
    requires
        old(map).str_view() == apply_pairs(start, acc),
    ensures
        r@ == acc + when_flag(flag, key@),
        final(map).str_view() == apply_pairs(start, r@),
{
    let ghost sec = when_flag(flag, key@);
    put_when_flag(map, flag, key);
    proof {
        lemma_apply_concat(start, acc, sec);
    }
    Ghost(acc + sec)
}

fn put_device_props(map: &mut KeyedMap<String>, m: &MergedAppConfig)
    ensures
        final(map).str_view() == apply_pairs(old(map).str_view(), device_writes(*m)),
{
    let ghost start = map.str_view();
    put_when_usable(map, &m.manufacturer, product_key_list("manufacturer"));
    let ghost acc = when_usable(m.manufacturer, product_keys("manufacturer"@));
    let Ghost(acc) = then_usable(map, &m.brand, product_key_list("brand"), Ghost(start), Ghost(acc));
    let Ghost(acc) = then_usable(
        map,
        &m.marketname,
        keys2("ro.product.marketname", "ro.vendor.oplus.market.name"),
        Ghost(start),
        Ghost(acc),
    );
    let Ghost(acc) = then_usable(map, &m.model, product_key_list("model"), Ghost(start), Ghost(acc));
    let Ghost(acc) = then_usable(map, &m.name, product_key_list("name"), Ghost(start), Ghost(acc));
    let Ghost(acc) = if filled(&m.device) {
        then_usable(map, &m.device, product_key_list("device"), Ghost(start), Ghost(acc))
    } else {
        then_usable(map, &m.name, product_key_list("device"), Ghost(start), Ghost(acc))
    };
    let Ghost(acc) = then_usable(map, &m.hardware, keys1("ro.hardware"), Ghost(start), Ghost(acc));
    let Ghost(acc) = then_usable(map, &m.fingerprint, keys1("ro.build.fingerprint"), Ghost(start), Ghost(acc));
    let Ghost(acc) = then_usable(
        map,
        &m.build_id,
        keys4("ro.build.id", "ro.system.build.id", "ro.vendor.build.id", "ro.product.build.id"),
        Ghost(start),
        Ghost(acc),
    );
    let Ghost(acc) = then_usable(
        map,
        &m.characteristics,
        keys1("ro.build.characteristics"),
        Ghost(start),
        Ghost(acc),
    );
    let Ghost(acc) = then_filled(
        map,
        &m.android_version,
        keys4(
            "ro.build.version.release",
            "ro.system.build.version.release",
            "ro.vendor.build.version.release",
            "ro.product.build.version.release",
        ),
        Ghost(start),
        Ghost(acc),
    );
    let ghost sec = sdk_writes(m.sdk_int);
    if let Some(sdk) = m.sdk_int {
        let text = u32_to_decimal(sdk);
        put_each(
            map,
            &keys4(
                "ro.build.version.sdk",
                "ro.system.build.version.sdk",
                "ro.vendor.build.version.sdk",
                "ro.product.build.version.sdk",
            ),
            &text,
        );
    }
    proof {
        lemma_apply_concat(start, acc, sec);
        assert(acc + sec == device_writes(*m));
    }
}

fn put_custom_props(map: &mut KeyedMap<String>, custom: &Option<KeyedMap<String>>)
    ensures
        final(map).str_view() == apply_pairs(old(map).str_view(), custom_section(*custom)),
{
    let ghost start = map.str_view();
    if let Some(props) = custom {
        let ghost ps = props.str_pairs();
        let n = props.len();
        let mut i: usize = 0;
        while i < n
            invariant
                n == ps.len(),
                ps == props.str_pairs(),
                0 <= i <= n,
                map.str_view() == apply_pairs(start, custom_writes(ps.take(i as int))),
            decreases n - i,
        {
            let key = props.key_at(i);
            let value = props.value_at(i);
            let ghost before = custom_writes(ps.take(i as int));
            assert(ps.take(i + 1).drop_last() =~= ps.take(i as int));
            assert(ps[i as int] == (key@, value@));
            let ghost sec = custom_entry_writes(ps[i as int]);
            if !str_eq(value.as_str(), "__DELETE__") && !value.as_str().is_empty() {
                let v = if str_eq(value.as_str(), "__EMPTY__") {
                    String::new()
                } else {
                    value.clone()
                };
                map.set(key.clone(), v);
                proof {
                    lemma_apply_push(start, before, (key@, v@));
                    assert(before.push((key@, v@)) =~= before + sec);
                }
            } else {
                assert(before + sec =~= before);
            }
            i = i + 1;
        }
        assert(ps.take(n as int) =~= ps);
    }
}

fn put_telephony_props(map: &mut KeyedMap<String>, tc: &TelephonyConfig)
    ensures
        final(map).str_view() == apply_pairs(old(map).str_view(), telephony_writes(*tc)),
{
    let ghost start = map.str_view();
    put_when_filled(map, &tc.sim_country_iso, keys2("gsm.sim.operator.iso-country", "gsm.operator.iso-country"));
    let ghost acc = when_filled(tc.sim_country_iso, seq!["gsm.sim.operator.iso-country"@, "gsm.operator.iso-country"@]);
    let Ghost(acc) = then_filled(map, &tc.mcc, keys2("gsm.sim.operator.mcc", "gsm.operator.mcc"), Ghost(start), Ghost(acc));
    let Ghost(acc) = then_filled(map, &tc.mnc, keys2("gsm.sim.operator.mnc", "gsm.operator.mnc"), Ghost(start), Ghost(acc));
    let ghost sec = numeric_writes(tc.mcc, tc.mnc);
    if filled(&tc.mcc) && filled(&tc.mnc) {
        let mcc = tc.mcc.as_ref().unwrap();
        let mnc = tc.mnc.as_ref().unwrap();
        let numeric = concat(mcc.as_str(), mnc.as_str());
        put_each(map, &keys2("gsm.sim.operator.numeric", "gsm.operator.numeric"), &numeric);
    }
    proof {
        lemma_apply_concat(start, acc, sec);
    }
    let ghost acc = acc + sec;
    let Ghost(acc) = then_filled(
        map,
        &tc.operator_name,
        keys2("gsm.sim.operator.alpha", "gsm.operator.alpha"),
        Ghost(start),
        Ghost(acc),
    );
    let Ghost(acc) = then_filled(map, &tc.timezone, keys1("persist.sys.timezone"), Ghost(start), Ghost(acc));
    let Ghost(acc) = then_filled(map, &tc.iccid, keys1("persist.radio.iccid"), Ghost(start), Ghost(acc));
    let Ghost(acc) = then_filled(map, &tc.soc_manufacturer, keys1("ro.soc.manufacturer"), Ghost(start), Ghost(acc));
    let Ghost(acc) = then_filled(
        map,
        &tc.soc_model,
        keys2("ro.soc.model", "ro.hardware.chipname"),
        Ghost(start),
        Ghost(acc),
    );
    let Ghost(acc) = then_filled(map, &tc.bootloader, keys1("ro.bootloader"), Ghost(start), Ghost(acc));
    let Ghost(acc) = then_filled(map, &tc.baseband, keys1("ro.baseband"), Ghost(start), Ghost(acc));
    let Ghost(acc) = then_filled(map, &tc.device_serial, keys1("ro.serialno"), Ghost(start), Ghost(acc));
    let Ghost(acc) = then_flag(map, tc.hide_airplane_mode, "persist.sys.airplane_mode_on", Ghost(start), Ghost(acc));
    let Ghost(acc) = then_flag(map, tc.hide_developer_mode, "persist.sys.developer_options", Ghost(start), Ghost(acc));
    assert(acc == telephony_writes(*tc));
}

impl Config {
    /// Build the merged system property map of a profile. Empty values are
    /// ignored. A value marked `__DELETE__` is left out where the delete list
    /// carries the property (the device fields it lists, custom properties);
    /// the Android release version and the telephony settings have no entry
    /// there, and a marked value of theirs is written as it is. A custom
    /// `__EMPTY__` stands for the empty string.
    /// Device fields come first, then custom properties, then telephony
    /// settings, each later write overriding an earlier one.
    pub fn build_merged_property_map(merged: &MergedAppConfig) -> (map: KeyedMap<String>)
        ensures
            map.str_view() == property_map(*merged),
    {
        let mut map: KeyedMap<String> = KeyedMap::new();
        proof {
            assert(map.str_pairs() =~= Seq::<(Seq<char>, Seq<char>)>::empty());
        }
        let ghost start = map.str_view();
        put_device_props(&mut map, merged);
        let ghost a = device_writes(*merged);
        let ghost b = custom_section(merged.custom_props);
        put_custom_props(&mut map, &merged.custom_props);
        proof {
            lemma_apply_concat(start, a, b);
        }
        let ghost c = telephony_writes(merged.telephony_config);
        put_telephony_props(&mut map, &merged.telephony_config);
        proof {
            lemma_apply_concat(start, a + b, c);
        }
        map
    }
}

// ── Properties to delete ──────────────────────────────────────────────────

/// `keys` when `v` holds exactly the delete marker.
pub open spec fn delete_when(v: Option<String>, keys: Seq<Seq<char>>) -> Seq<Seq<char>> {
    if v is Some && v->0@ == delete_marker() {
        keys
    } else {
        Seq::empty()
    }
}

/// Keys of custom entries whose value is the delete marker, in entry order.
pub open spec fn custom_deletes(ps: Writes) -> Seq<Seq<char>>
    decreases ps.len(),
{
    if ps.len() == 0 {
        Seq::empty()
    } else {
        custom_deletes(ps.drop_last()) + if ps.last().1 == delete_marker() {
            seq![ps.last().0]
        } else {
            Seq::empty()
        }
    }
}

/// The properties a merged profile asks to delete.
pub open spec fn delete_props(m: MergedAppConfig) -> Seq<Seq<char>> {
    delete_when(m.brand, seq!["ro.product.brand"@])
        + delete_when(m.manufacturer, seq!["ro.product.manufacturer"@])
        + delete_when(m.model, seq!["ro.product.model"@])
        + delete_when(m.name, seq!["ro.product.name"@])
        + delete_when(m.device, seq!["ro.product.device"@])
        + delete_when(m.marketname, seq!["ro.product.marketname"@])
        + delete_when(m.fingerprint, seq!["ro.build.fingerprint"@])
        + delete_when(m.build_id, build_id_keys())
        + delete_when(m.characteristics, seq!["ro.build.characteristics"@])
        + delete_when(m.hardware, seq!["ro.hardware"@])
        + match m.custom_props {
        Some(c) => custom_deletes(c.str_pairs()),
        None => Seq::empty(),
    }
}

fn push_keys_when_deleted(out: &mut Vec<String>, v: &Option<String>, keys: Vec<String>)
    ensures
        strings_of(final(out)@) == strings_of(old(out)@) + delete_when(*v, strings_of(keys@)),
{
    let marked = match v {
        Some(s) => str_eq(s.as_str(), "__DELETE__"),
        None => false,
    };
    if marked {
        let ghost o = out@;
        let n = keys.len();
        let mut i: usize = 0;
        while i < n
            invariant
                n == keys@.len(),
                0 <= i <= n,
                strings_of(out@) == strings_of(o) + strings_of(keys@).take(i as int),
            decreases n - i,
        {
            let ghost prev = out@;
            out.push(keys[i].clone());
            assert(strings_of(out@) =~= strings_of(prev).push(keys@[i as int]@));
            assert(strings_of(keys@).take(i + 1) =~= strings_of(keys@).take(i as int).push(keys@[i as int]@));
            assert(strings_of(out@) =~= strings_of(o) + strings_of(keys@).take(i + 1));
            i = i + 1;
        }
        assert(strings_of(keys@).take(n as int) =~= strings_of(keys@));
    } else {
        assert(strings_of(out@) + Seq::<Seq<char>>::empty() =~= strings_of(out@));
    }
}

impl Config {
    /// Build the list of properties to delete (for companion mode): the
    /// primary key of each device field set to `__DELETE__` (all four build ID
    /// keys for the build ID), then each custom key whose value is `__DELETE__`.
    pub fn build_delete_props_list(merged: &MergedAppConfig) -> (v: Vec<String>)
        ensures
            strings_of(v@) == delete_props(*merged),
    {
        let mut out: Vec<String> = Vec::new();
        assert(strings_of(out@) =~= Seq::<Seq<char>>::empty());
        push_keys_when_deleted(&mut out, &merged.brand, keys1("ro.product.brand"));
        assert(Seq::<Seq<char>>::empty() + delete_when(merged.brand, seq!["ro.product.brand"@]) =~= delete_when(merged.brand, seq!["ro.product.brand"@]));
        push_keys_when_deleted(&mut out, &merged.manufacturer, keys1("ro.product.manufacturer"));
        push_keys_when_deleted(&mut out, &merged.model, keys1("ro.product.model"));
        push_keys_when_deleted(&mut out, &merged.name, keys1("ro.product.name"));
        push_keys_when_deleted(&mut out, &merged.device, keys1("ro.product.device"));
        push_keys_when_deleted(&mut out, &merged.marketname, keys1("ro.product.marketname"));
        push_keys_when_deleted(&mut out, &merged.fingerprint, keys1("ro.build.fingerprint"));
        push_keys_when_deleted(
            &mut out,
            &merged.build_id,
            keys4("ro.build.id", "ro.system.build.id", "ro.vendor.build.id", "ro.product.build.id"),
        );
        push_keys_when_deleted(&mut out, &merged.characteristics, keys1("ro.build.characteristics"));
        push_keys_when_deleted(&mut out, &merged.hardware, keys1("ro.hardware"));
        let ghost fixed = strings_of(out@);
        if let Some(props) = &merged.custom_props {
            let ghost ps = props.str_pairs();
            let n = props.len();
            let mut i: usize = 0;
            while i < n
                invariant
                    n == ps.len(),
                    ps == props.str_pairs(),
                    0 <= i <= n,
                    strings_of(out@) == fixed + custom_deletes(ps.take(i as int)),
                decreases n - i,
            {
                let key = props.key_at(i);
                let value = props.value_at(i);
                assert(ps.take(i + 1).drop_last() =~= ps.take(i as int));
                assert(ps[i as int] == (key@, value@));
                if str_eq(value.as_str(), "__DELETE__") {
                    let ghost prev = out@;
                    out.push(key.clone());
                    assert(strings_of(out@) =~= strings_of(prev).push(key@));
                    assert(strings_of(out@) =~= fixed + custom_deletes(ps.take(i + 1)));
                } else {
                    assert(strings_of(out@) =~= fixed + custom_deletes(ps.take(i + 1)));
                }
                i = i + 1;
            }
            assert(ps.take(n as int) =~= ps);
        } else {
            assert(strings_of(out@) =~= fixed + Seq::<Seq<char>>::empty());
        }
        out
    }
}

} // verus!
