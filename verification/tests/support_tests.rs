use device_faker::cow_props::{cow_candidates, is_build_area, is_hidden_mapping, text_contains};
use device_faker::config::{Config, MergedAppConfig, TelephonyConfig, AppConfig};
use device_faker::cpu_spoof::{check_companion_status, cpu_spoof_content};
use device_faker::frame::{decode_frame_len, encode_frame_len, frame_message};
use device_faker::keyed_map::KeyedMap;
use device_faker::specialize::{
    android_user_id, package_name_from, package_with_user_name, plan_app_specialize, props_for_companion,
    select_merged_config, should_call_companion,
};
use device_faker::state::ActiveResetSession;
use device_faker::strings::{str_eq_ignore_ascii_case, text_after_last, text_before_first, u32_to_decimal};

fn s(x: &str) -> Option<String> {
    Some(x.to_string())
}

#[test]
fn keyed_map_read_after_write_and_overwrite() {
    let mut m: KeyedMap<String> = KeyedMap::new();
    assert!(m.is_empty());
    m.insert("a".to_string(), "1".to_string());
    m.insert("b".to_string(), "2".to_string());
    m.insert("a".to_string(), "3".to_string());
    assert_eq!(m.len(), 2);
    assert_eq!(m.get("a"), Some(&"3".to_string()));
    assert_eq!(m.get("b"), Some(&"2".to_string()));
    assert_eq!(m.get("c"), None);
    assert_eq!(m.key_at(0), "a");
    assert_eq!(m.value_at(0), "3");
    assert!(m.contains_key("b"));
    assert!(!m.contains_key("z"));
    let d = m.clone();
    assert_eq!(d.len(), 2);
    assert_eq!(d.get_str("a"), Some(&"3".to_string()));
}

#[test]
fn decimal_strings() {
    assert_eq!(u32_to_decimal(0), "0");
    assert_eq!(u32_to_decimal(7), "7");
    assert_eq!(u32_to_decimal(10), "10");
    assert_eq!(u32_to_decimal(35), "35");
    assert_eq!(u32_to_decimal(u32::MAX), "4294967295");
}

#[test]
fn ascii_case_and_splitting() {
    assert!(str_eq_ignore_ascii_case("Us", "uS"));
    assert!(!str_eq_ignore_ascii_case("us", "usa"));
    assert!(!str_eq_ignore_ascii_case("ab", "a["));
    assert_eq!(text_after_last("/data/user/0/com.app", '/'), "com.app");
    assert_eq!(text_after_last("plain", '/'), "plain");
    assert_eq!(text_after_last("trailing/", '/'), "");
    assert_eq!(text_before_first("com.app:remote:x", ':'), "com.app");
    assert_eq!(text_before_first("com.app", ':'), "com.app");
}

#[test]
fn user_id_from_uid() {
    assert_eq!(android_user_id(10123), 0);
    assert_eq!(android_user_id(1010123), 10);
    assert_eq!(android_user_id(99999), 0);
    assert_eq!(android_user_id(100000), 1);
    assert_eq!(android_user_id(0), 0);
    assert_eq!(android_user_id(-5), 0);
}

#[test]
fn package_name_sources() {
    assert_eq!(package_name_from("/data/user/0/com.foo", "ignored"), "com.foo");
    assert_eq!(package_name_from("/data/user/0/", "com.bar:remote"), "com.bar");
    assert_eq!(package_name_from("", "com.baz"), "com.baz");
    assert_eq!(package_with_user_name("com.foo", 10), "com.foo@10");
}

#[test]
fn frame_header_little_endian() {
    assert_eq!(encode_frame_len(0x01020304), [4, 3, 2, 1]);
    assert_eq!(decode_frame_len([4, 3, 2, 1]), 0x01020304);
    for n in [0u32, 1, 255, 256, 65535, 1 << 24, u32::MAX] {
        assert_eq!(decode_frame_len(encode_frame_len(n as usize)), n);
    }
    assert_eq!(frame_message(&[9, 8]), vec![2, 0, 0, 0, 9, 8]);
    assert_eq!(frame_message(&[]), vec![0, 0, 0, 0]);
}

fn merged() -> MergedAppConfig {
    MergedAppConfig {
        manufacturer: None,
        brand: None,
        marketname: None,
        model: None,
        name: None,
        device: None,
        product: None,
        hardware: None,
        fingerprint: None,
        build_id: None,
        characteristics: None,
        android_version: None,
        sdk_int: None,
        custom_props: None,
        force_denylist_unmount: false,
        cpu_spoof: None,
        cpu_spoof_custom: None,
        cpuinfo_content: None,
        hide_maps: Vec::new(),
        companion_resetprop: false,
        telephony_config: TelephonyConfig::new(),
    }
}

#[test]
fn cpu_content_and_companion_status() {
    let mut m = merged();
    assert!(cpu_spoof_content(&m).is_none());
    m.cpuinfo_content = s("");
    assert!(cpu_spoof_content(&m).is_none());
    m.cpuinfo_content = s("Hardware: X");
    assert_eq!(cpu_spoof_content(&m), Some(&"Hardware: X".to_string()));
    assert_eq!(check_companion_status(0, s("ignored"), "failed"), Ok(()));
    assert_eq!(check_companion_status(1, s("no space"), "failed"), Err("no space".to_string()));
    assert_eq!(check_companion_status(-2, None, "companion cpu spoof failed"), Err("companion cpu spoof failed".to_string()));
}

fn app(pkg: &str, model: &str) -> AppConfig {
    AppConfig {
        package: pkg.to_string(),
        manufacturer: None,
        brand: None,
        marketname: None,
        model: s(model),
        name: None,
        device: None,
        product: None,
        hardware: None,
        fingerprint: None,
        build_id: None,
        characteristics: None,
        android_version: None,
        sdk_int: None,
        custom_props: None,
        force_denylist_unmount: None,
        cpu_spoof: None,
        cpu_spoof_custom: None,
        hide_maps: None,
        companion_resetprop: None,
        telephony: None,
    }
}

fn config() -> Config {
    Config {
        default_force_denylist_unmount: false,
        debug: false,
        templates: KeyedMap::new(),
        apps: Vec::new(),
        default_cpu_spoof: None,
        cpu_presets: KeyedMap::new(),
        default_hide_maps: Vec::new(),
        telephony: TelephonyConfig::new(),
    }
}

#[test]
fn per_user_profile_wins() {
    let mut c = config();
    c.apps.push(app("com.a", "Plain"));
    c.apps.push(app("com.a@10", "User10"));
    assert_eq!(select_merged_config(&c, "com.a", 10).unwrap().model, s("User10"));
    assert_eq!(select_merged_config(&c, "com.a", 0).unwrap().model, s("Plain"));
    assert!(select_merged_config(&c, "com.b", 0).is_none());
}

#[test]
fn plan_builds_maps_or_unloads() {
    let mut c = config();
    let mut a = app("com.a", "M1");
    let mut custom = KeyedMap::new();
    custom.insert("ro.x".to_string(), "__DELETE__".to_string());
    a.custom_props = Some(custom);
    c.apps.push(a);
    let plan = plan_app_specialize(&c, "com.a", 0).unwrap();
    assert_eq!(plan.prop_map.get("ro.product.model"), Some(&"M1".to_string()));
    assert_eq!(plan.delete_props, vec!["ro.x".to_string()]);
    assert!(plan_app_specialize(&c, "com.nope", 0).is_none());
}

#[test]
fn companion_gets_full_map_or_leftovers() {
    let mut c = config();
    let mut a = app("com.a", "M1");
    a.companion_resetprop = Some(true);
    c.apps.push(a);
    c.apps.push(app("com.b", "M2"));
    let full = plan_app_specialize(&c, "com.a", 0).unwrap();
    let unfound = vec![("k".to_string(), "1".to_string()), ("k".to_string(), "2".to_string())];
    let set = props_for_companion(&full, &unfound);
    assert_eq!(set.len(), full.prop_map.len());
    assert_eq!(set.get("ro.product.model"), Some(&"M1".to_string()));
    let cow = plan_app_specialize(&c, "com.b", 0).unwrap();
    let set = props_for_companion(&cow, &unfound);
    assert_eq!(set.len(), 1);
    assert_eq!(set.get("k"), Some(&"2".to_string()));
    assert!(should_call_companion(&set, &Vec::new()));
    let empty: KeyedMap<String> = KeyedMap::new();
    assert!(!should_call_companion(&empty, &Vec::new()));
    assert!(should_call_companion(&empty, &vec!["x".to_string()]));
}

#[test]
fn reset_session_starts_empty() {
    let session = ActiveResetSession::new("com.a".to_string());
    assert_eq!(session.package, "com.a");
    assert!(session.backups.is_empty());
}

#[test]
fn cow_selection_rules() {
    assert!(text_contains("abcdef", "cde"));
    assert!(text_contains("abc", ""));
    assert!(!text_contains("abc", "abcd"));
    assert!(!text_contains("abc", "acb"));
    assert!(is_build_area("/dev/__properties__/u:object_r:build_vendor_prop:s0"));
    assert!(is_build_area("/dev/__properties__/u:object_r:default_prop:s0"));
    assert!(!is_build_area("/dev/__properties__/u:object_r:radio_prop:s0"));
    let patterns = vec!["vendor".to_string()];
    assert!(is_hidden_mapping("7f00-7f10 r--s 00000000 00:12 3 /dev/__properties__/u:object_r:vendor_prop:s0", &patterns));
    assert!(!is_hidden_mapping("7f00-7f10 r--s 00000000 00:12 3 /dev/__properties__/u:object_r:radio_prop:s0", &patterns));
    assert!(!is_hidden_mapping("7f00-7f10 r-xp 00000000 00:12 3 /vendor/lib/libx.so", &patterns));
    assert!(!is_hidden_mapping("7f00-7f10 r--s 00000000 00:12 3 /dev/__properties__/vendor", &Vec::new()));
    let mut m: KeyedMap<String> = KeyedMap::new();
    m.insert("a".to_string(), "x".to_string());
    m.insert("b".to_string(), String::new());
    m.insert("c".to_string(), "y".repeat(92));
    m.insert("d".to_string(), "z".repeat(93));
    let c = cow_candidates(&m);
    assert_eq!(c, vec![("a".to_string(), "x".to_string()), ("c".to_string(), "y".repeat(92))]);
}
