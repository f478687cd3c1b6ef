use device_faker::config::{Config, MergedAppConfig, TelephonyConfig};
use device_faker::keyed_map::KeyedMap;

fn s(x: &str) -> Option<String> {
    Some(x.to_string())
}

fn merged() -> MergedAppConfig {
    MergedAppConfig {
        manufacturer: None,
        brand: None,
        marketname: None,
        model: None,
        name: None,
        device: None,
        product: None,
        hardware: None,
        fingerprint: None,
        build_id: None,
        characteristics: None,
        android_version: None,
        sdk_int: None,
        custom_props: None,
        force_denylist_unmount: false,
        cpu_spoof: None,
        cpu_spoof_custom: None,
        cpuinfo_content: None,
        hide_maps: Vec::new(),
        companion_resetprop: false,
        telephony_config: TelephonyConfig::new(),
    }
}

fn get(m: &KeyedMap<String>, k: &str) -> Option<String> {
    m.get(k).cloned()
}

#[test]
fn empty_profile_gives_empty_map() {
    let map = Config::build_merged_property_map(&merged());
    assert_eq!(map.len(), 0);
    assert!(Config::build_delete_props_list(&merged()).is_empty());
}

#[test]
fn manufacturer_goes_to_all_partitions() {
    let mut m = merged();
    m.manufacturer = s("Samsung");
    let map = Config::build_merged_property_map(&m);
    for k in [
        "ro.product.manufacturer",
        "ro.product.odm.manufacturer",
        "ro.product.vendor.manufacturer",
        "ro.product.system.manufacturer",
        "ro.product.system_ext.manufacturer",
        "ro.product.product.manufacturer",
        "ro.product.bootimage.manufacturer",
    ] {
        assert_eq!(get(&map, k), s("Samsung"), "{k}");
    }
    assert_eq!(map.len(), 7);
}

#[test]
fn empty_strings_are_ignored() {
    let mut m = merged();
    m.brand = s("");
    m.model = s("");
    m.hardware = s("");
    let map = Config::build_merged_property_map(&m);
    assert_eq!(map.len(), 0);
}

#[test]
fn device_falls_back_to_name() {
    let mut m = merged();
    m.name = s("husky");
    let map = Config::build_merged_property_map(&m);
    assert_eq!(get(&map, "ro.product.name"), s("husky"));
    assert_eq!(get(&map, "ro.product.device"), s("husky"));
    assert_eq!(get(&map, "ro.product.vendor.device"), s("husky"));
    m.device = s("shiba");
    let map = Config::build_merged_property_map(&m);
    assert_eq!(get(&map, "ro.product.device"), s("shiba"));
    assert_eq!(get(&map, "ro.product.odm.device"), s("shiba"));
}

#[test]
fn marketname_build_and_version_keys() {
    let mut m = merged();
    m.marketname = s("Galaxy S24");
    m.build_id = s("AP1A");
    m.android_version = s("15");
    m.sdk_int = Some(35);
    m.fingerprint = s("fp");
    m.characteristics = s("phone");
    m.hardware = s("qcom");
    let map = Config::build_merged_property_map(&m);
    assert_eq!(get(&map, "ro.product.marketname"), s("Galaxy S24"));
    assert_eq!(get(&map, "ro.vendor.oplus.market.name"), s("Galaxy S24"));
    for k in ["ro.build.id", "ro.system.build.id", "ro.vendor.build.id", "ro.product.build.id"] {
        assert_eq!(get(&map, k), s("AP1A"));
    }
    for k in [
        "ro.build.version.release",
        "ro.system.build.version.release",
        "ro.vendor.build.version.release",
        "ro.product.build.version.release",
    ] {
        assert_eq!(get(&map, k), s("15"));
    }
    for k in [
        "ro.build.version.sdk",
        "ro.system.build.version.sdk",
        "ro.vendor.build.version.sdk",
        "ro.product.build.version.sdk",
    ] {
        assert_eq!(get(&map, k), s("35"));
    }
    assert_eq!(get(&map, "ro.build.fingerprint"), s("fp"));
    assert_eq!(get(&map, "ro.build.characteristics"), s("phone"));
    assert_eq!(get(&map, "ro.hardware"), s("qcom"));
    assert_eq!(map.len(), 17);
}

#[test]
fn sdk_zero_and_large_values_are_written_in_decimal() {
    let mut m = merged();
    m.sdk_int = Some(0);
    assert_eq!(get(&Config::build_merged_property_map(&m), "ro.build.version.sdk"), s("0"));
    m.sdk_int = Some(4294967295);
    assert_eq!(get(&Config::build_merged_property_map(&m), "ro.build.version.sdk"), s("4294967295"));
}

#[test]
fn custom_props_override_and_markers() {
    let mut m = merged();
    m.model = s("Pixel 8");
    let mut c = KeyedMap::new();
    c.insert("ro.product.model".to_string(), "Custom".to_string());
    c.insert("ro.gone".to_string(), "__DELETE__".to_string());
    c.insert("ro.blank".to_string(), "__EMPTY__".to_string());
    c.insert("ro.extra".to_string(), "yes".to_string());
    m.custom_props = Some(c);
    let map = Config::build_merged_property_map(&m);
    assert_eq!(get(&map, "ro.product.model"), s("Custom"));
    assert_eq!(get(&map, "ro.product.vendor.model"), s("Pixel 8"));
    assert_eq!(get(&map, "ro.gone"), None);
    assert_eq!(get(&map, "ro.blank"), s(""));
    assert_eq!(get(&map, "ro.extra"), s("yes"));
    let deletes = Config::build_delete_props_list(&m);
    assert_eq!(deletes, vec!["ro.gone".to_string()]);
}

#[test]
fn telephony_props_are_written_last() {
    let mut m = merged();
    let mut c = KeyedMap::new();
    c.insert("persist.sys.timezone".to_string(), "Europe/Paris".to_string());
    m.custom_props = Some(c);
    let mut tc = TelephonyConfig::new();
    tc.sim_country_iso = s("US");
    tc.mcc = s("311");
    tc.mnc = s("480");
    tc.operator_name = s("Verizon");
    tc.timezone = s("America/Chicago");
    tc.iccid = s("8901");
    tc.soc_manufacturer = s("Qualcomm");
    tc.soc_model = s("SM8650");
    tc.bootloader = s("bl");
    tc.baseband = s("bb");
    tc.device_serial = s("SER");
    tc.hide_airplane_mode = true;
    tc.hide_developer_mode = true;
    m.telephony_config = tc;
    let map = Config::build_merged_property_map(&m);
    assert_eq!(get(&map, "persist.sys.timezone"), s("America/Chicago"));
    assert_eq!(get(&map, "gsm.sim.operator.iso-country"), s("US"));
    assert_eq!(get(&map, "gsm.operator.iso-country"), s("US"));
    assert_eq!(get(&map, "gsm.sim.operator.mcc"), s("311"));
    assert_eq!(get(&map, "gsm.operator.mnc"), s("480"));
    assert_eq!(get(&map, "gsm.sim.operator.numeric"), s("311480"));
    assert_eq!(get(&map, "gsm.operator.numeric"), s("311480"));
    assert_eq!(get(&map, "gsm.sim.operator.alpha"), s("Verizon"));
    assert_eq!(get(&map, "gsm.operator.alpha"), s("Verizon"));
    assert_eq!(get(&map, "persist.radio.iccid"), s("8901"));
    assert_eq!(get(&map, "ro.soc.manufacturer"), s("Qualcomm"));
    assert_eq!(get(&map, "ro.soc.model"), s("SM8650"));
    assert_eq!(get(&map, "ro.hardware.chipname"), s("SM8650"));
    assert_eq!(get(&map, "ro.bootloader"), s("bl"));
    assert_eq!(get(&map, "ro.baseband"), s("bb"));
    assert_eq!(get(&map, "ro.serialno"), s("SER"));
    assert_eq!(get(&map, "persist.sys.airplane_mode_on"), s("0"));
    assert_eq!(get(&map, "persist.sys.developer_options"), s("0"));
}

#[test]
fn numeric_needs_both_mcc_and_mnc() {
    let mut m = merged();
    m.telephony_config.mnc = s("01");
    let map = Config::build_merged_property_map(&m);
    assert_eq!(get(&map, "gsm.operator.mnc"), s("01"));
    assert_eq!(get(&map, "gsm.operator.numeric"), None);
}

#[test]
fn empty_telephony_values_are_ignored() {
    let mut m = merged();
    m.telephony_config.timezone = s("");
    let map = Config::build_merged_property_map(&m);
    assert_eq!(get(&map, "persist.sys.timezone"), None);
}

#[test]
fn empty_custom_and_telephony_values_give_an_empty_map() {
    let mut m = merged();
    let mut c = KeyedMap::new();
    c.insert("ro.foo".to_string(), "".to_string());
    m.custom_props = Some(c);
    m.telephony_config.sim_country_iso = s("");
    m.telephony_config.timezone = s("");
    let map = Config::build_merged_property_map(&m);
    assert!(map.is_empty());
}

#[test]
fn deleted_device_field_is_left_out_of_the_map() {
    let mut m = merged();
    m.brand = s("__DELETE__");
    let map = Config::build_merged_property_map(&m);
    assert!(map.is_empty());
    assert_eq!(Config::build_delete_props_list(&m), vec!["ro.product.brand".to_string()]);
}

#[test]
fn deleted_device_name_keeps_the_product_name_out() {
    let mut m = merged();
    m.name = s("husky");
    m.device = s("__DELETE__");
    let map = Config::build_merged_property_map(&m);
    assert_eq!(get(&map, "ro.product.name"), s("husky"));
    assert_eq!(get(&map, "ro.product.device"), None);
    assert_eq!(get(&map, "ro.product.bootimage.device"), None);
    m.device = s("");
    let map = Config::build_merged_property_map(&m);
    assert_eq!(get(&map, "ro.product.device"), s("husky"));
    assert_eq!(get(&map, "ro.product.system_ext.device"), s("husky"));
}

#[test]
fn marked_values_without_a_delete_entry_are_written() {
    let mut m = merged();
    m.android_version = s("__DELETE__");
    m.telephony_config.operator_name = s("__DELETE__");
    m.telephony_config.mcc = s("311");
    m.telephony_config.mnc = s("__DELETE__");
    let map = Config::build_merged_property_map(&m);
    assert_eq!(get(&map, "ro.build.version.release"), s("__DELETE__"));
    assert_eq!(get(&map, "ro.product.build.version.release"), s("__DELETE__"));
    assert_eq!(get(&map, "gsm.operator.alpha"), s("__DELETE__"));
    assert_eq!(get(&map, "gsm.sim.operator.mnc"), s("__DELETE__"));
    assert_eq!(get(&map, "gsm.operator.numeric"), s("311__DELETE__"));
    assert_eq!(get(&map, "gsm.operator.mcc"), s("311"));
    assert_eq!(map.len(), 4 + 2 + 2 + 2 + 2);
    assert!(Config::build_delete_props_list(&m).is_empty());
}

#[test]
fn cloned_profile_builds_the_same_map() {
    let mut m = merged();
    m.model = s("Pixel 8");
    let mut c = KeyedMap::new();
    c.insert("ro.extra".to_string(), "yes".to_string());
    m.custom_props = Some(c);
    m.telephony_config.mcc = s("311");
    let copy = m.clone();
    let a = Config::build_merged_property_map(&m);
    let b = Config::build_merged_property_map(&copy);
    assert_eq!(a.len(), b.len());
    assert_eq!(get(&b, "ro.product.model"), s("Pixel 8"));
    assert_eq!(get(&b, "ro.extra"), s("yes"));
    assert_eq!(get(&b, "gsm.operator.mcc"), s("311"));
}

#[test]
fn delete_list_for_marked_fields() {
    let mut m = merged();
    m.brand = s("__DELETE__");
    m.build_id = s("__DELETE__");
    m.hardware = s("__DELETE__");
    m.model = s("Keep");
    let deletes = Config::build_delete_props_list(&m);
    assert_eq!(
        deletes,
        vec![
            "ro.product.brand".to_string(),
            "ro.build.id".to_string(),
            "ro.system.build.id".to_string(),
            "ro.vendor.build.id".to_string(),
            "ro.product.build.id".to_string(),
            "ro.hardware".to_string(),
        ]
    );
    let map = Config::build_merged_property_map(&m);
    assert_eq!(get(&map, "ro.product.brand"), None);
    assert_eq!(get(&map, "ro.hardware"), None);
    assert_eq!(get(&map, "ro.product.model"), s("Keep"));
    assert_eq!(map.len(), 7);
}

#[test]
fn delete_list_covers_every_marked_field_in_order() {
    let mut m = merged();
    let d = s("__DELETE__");
    m.brand = d.clone();
    m.manufacturer = d.clone();
    m.model = d.clone();
    m.name = d.clone();
    m.device = d.clone();
    m.marketname = d.clone();
    m.fingerprint = d.clone();
    m.characteristics = d.clone();
    let deletes = Config::build_delete_props_list(&m);
    assert_eq!(
        deletes,
        vec![
            "ro.product.brand",
            "ro.product.manufacturer",
            "ro.product.model",
            "ro.product.name",
            "ro.product.device",
            "ro.product.marketname",
            "ro.build.fingerprint",
            "ro.build.characteristics",
        ]
    );
}
