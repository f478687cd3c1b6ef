use device_faker::config::{AppConfig, Config, CountryPreset, DeviceTemplate, MergedAppConfig, TelephonyConfig};
use device_faker::keyed_map::KeyedMap;

fn s(x: &str) -> Option<String> {
    Some(x.to_string())
}

fn app(pkg: &str) -> AppConfig {
    AppConfig {
        package: pkg.to_string(),
        manufacturer: None,
        brand: None,
        marketname: None,
        model: None,
        name: None,
        device: None,
        product: None,
        hardware: None,
        fingerprint: None,
        build_id: None,
        characteristics: None,
        android_version: None,
        sdk_int: None,
        custom_props: None,
        force_denylist_unmount: None,
        cpu_spoof: None,
        cpu_spoof_custom: None,
        hide_maps: None,
        companion_resetprop: None,
        telephony: None,
    }
}

fn template(pkgs: &[&str]) -> DeviceTemplate {
    DeviceTemplate {
        packages: pkgs.iter().map(|p| p.to_string()).collect(),
        manufacturer: None,
        brand: None,
        marketname: None,
        model: None,
        name: None,
        device: None,
        product: None,
        hardware: None,
        fingerprint: None,
        build_id: None,
        characteristics: None,
        android_version: None,
        sdk_int: None,
        custom_props: None,
        force_denylist_unmount: None,
        cpu_spoof: None,
        cpu_spoof_custom: None,
        hide_maps: None,
        companion_resetprop: None,
        telephony: None,
    }
}

fn config() -> Config {
    Config {
        default_force_denylist_unmount: false,
        debug: false,
        templates: KeyedMap::new(),
        apps: Vec::new(),
        default_cpu_spoof: None,
        cpu_presets: KeyedMap::new(),
        default_hide_maps: Vec::new(),
        telephony: TelephonyConfig::new(),
    }
}

#[test]
fn country_preset_find_ignores_ascii_case() {
    let p = CountryPreset::find("US").unwrap();
    assert_eq!(p.iso, "us");
    assert_eq!(p.mcc, "311");
    assert_eq!(p.mnc, "480");
    assert_eq!(p.timezone, "America/Chicago");
    assert_eq!(p.lat_e4, 418781);
    assert_eq!(p.lon_e4, -876298);
    assert_eq!(CountryPreset::find("mx").unwrap().mnc, "020");
    assert!(CountryPreset::find("zz").is_none());
    assert!(CountryPreset::find("").is_none());
    assert!(CountryPreset::find("usa").is_none());
}

#[test]
fn country_preset_table_has_all_entries() {
    let mut n = 0;
    while CountryPreset::at(n).is_some() {
        n += 1;
    }
    assert_eq!(n, 22);
    assert_eq!(CountryPreset::at(1).unwrap().label, "United Kingdom");
}

#[test]
fn apply_country_preset_fills_unset_fields() {
    let mut tc = TelephonyConfig::new();
    tc.country_iso = s("de");
    tc.apply_country_preset();
    assert_eq!(tc.mcc, s("262"));
    assert_eq!(tc.mnc, s("01"));
    assert_eq!(tc.sim_country_iso, s("de"));
    assert_eq!(tc.timezone, s("Europe/Berlin"));
}

#[test]
fn apply_country_preset_keeps_set_fields() {
    let mut tc = TelephonyConfig::new();
    tc.country_iso = s("JP");
    tc.mcc = s("999");
    tc.timezone = s("UTC");
    tc.apply_country_preset();
    assert_eq!(tc.mcc, s("999"));
    assert_eq!(tc.mnc, s("10"));
    assert_eq!(tc.sim_country_iso, s("jp"));
    assert_eq!(tc.timezone, s("UTC"));
}

#[test]
fn apply_country_preset_twice_is_once() {
    let mut tc = TelephonyConfig::new();
    tc.country_iso = s("gb");
    tc.apply_country_preset();
    let once = (tc.mcc.clone(), tc.mnc.clone(), tc.sim_country_iso.clone(), tc.timezone.clone());
    tc.apply_country_preset();
    assert_eq!((tc.mcc.clone(), tc.mnc.clone(), tc.sim_country_iso.clone(), tc.timezone.clone()), once);
}

#[test]
fn apply_country_preset_unknown_country_changes_nothing() {
    let mut tc = TelephonyConfig::new();
    tc.country_iso = s("xx");
    tc.apply_country_preset();
    assert!(tc.mcc.is_none() && tc.mnc.is_none() && tc.sim_country_iso.is_none() && tc.timezone.is_none());
    let mut none = TelephonyConfig::new();
    none.apply_country_preset();
    assert!(none.mcc.is_none());
}

#[test]
fn get_app_config_finds_first_match() {
    let mut c = config();
    let mut a = app("com.a");
    a.model = s("first");
    let mut b = app("com.a");
    b.model = s("second");
    c.apps.push(app("com.other"));
    c.apps.push(a);
    c.apps.push(b);
    assert_eq!(c.get_app_config("com.a").unwrap().model, s("first"));
    assert!(c.get_app_config("com.none").is_none());
}

#[test]
fn find_template_for_package_uses_package_lists() {
    let mut c = config();
    let mut t1 = template(&["com.x", "com.y"]);
    t1.brand = s("One");
    let mut t2 = template(&["com.z"]);
    t2.brand = s("Two");
    c.templates.insert("t1".to_string(), t1);
    c.templates.insert("t2".to_string(), t2);
    assert_eq!(c.find_template_for_package("com.y").unwrap().brand, s("One"));
    assert_eq!(c.find_template_for_package("com.z").unwrap().brand, s("Two"));
    assert!(c.find_template_for_package("com.w").is_none());
}

#[test]
fn merged_config_prefers_direct_app_config() {
    let mut c = config();
    let mut t = template(&["com.a"]);
    t.model = s("FromTemplate");
    c.templates.insert("t".to_string(), t);
    let mut a = app("com.a");
    a.model = s("FromApp");
    c.apps.push(a);
    let m = c.get_merged_config("com.a").unwrap();
    assert_eq!(m.model, s("FromApp"));
}

#[test]
fn merged_config_from_template_and_defaults() {
    let mut c = config();
    c.default_force_denylist_unmount = true;
    c.default_hide_maps = vec!["vendor".to_string()];
    c.telephony.country_iso = s("fr");
    let mut t = template(&["com.t"]);
    t.manufacturer = s("Google");
    t.sdk_int = Some(34);
    c.templates.insert("pixel".to_string(), t);
    let m = c.get_merged_config("com.t").unwrap();
    assert_eq!(m.manufacturer, s("Google"));
    assert_eq!(m.sdk_int, Some(34));
    assert!(m.force_denylist_unmount);
    assert_eq!(m.hide_maps, vec!["vendor".to_string()]);
    assert!(!m.companion_resetprop);
    assert_eq!(m.telephony_config.mcc, s("208"));
    assert_eq!(m.telephony_config.sim_country_iso, s("fr"));
    assert!(c.get_merged_config("com.unknown").is_none());
}

#[test]
fn merged_config_entry_values_override_globals() {
    let mut c = config();
    c.default_force_denylist_unmount = true;
    c.default_hide_maps = vec!["vendor".to_string()];
    let mut a = app("com.a");
    a.force_denylist_unmount = Some(false);
    a.hide_maps = Some(vec![]);
    a.companion_resetprop = Some(true);
    let mut tc = TelephonyConfig::new();
    tc.operator_name = s("Carrier");
    a.telephony = Some(tc);
    c.telephony.operator_name = s("Global");
    c.apps.push(a);
    let m = c.get_merged_config("com.a").unwrap();
    assert!(!m.force_denylist_unmount);
    assert!(m.hide_maps.is_empty());
    assert!(m.companion_resetprop);
    assert_eq!(m.telephony_config.operator_name, s("Carrier"));
}

#[test]
fn merged_config_copies_custom_props() {
    let mut c = config();
    let mut a = app("com.a");
    let mut props = KeyedMap::new();
    props.insert("ro.x".to_string(), "1".to_string());
    a.custom_props = Some(props);
    c.apps.push(a);
    let m = c.get_merged_config("com.a").unwrap();
    let cp = m.custom_props.unwrap();
    assert_eq!(cp.len(), 1);
    assert_eq!(cp.get("ro.x"), Some(&"1".to_string()));
}

fn merged_with_cpu(custom: Option<String>, preset: Option<String>) -> MergedAppConfig {
    let mut c = config();
    let mut a = app("com.a");
    a.cpu_spoof_custom = custom;
    a.cpu_spoof = preset;
    c.apps.push(a);
    c.get_merged_config("com.a").unwrap()
}

#[test]
fn resolve_cpuinfo_priorities() {
    let mut c = config();
    c.cpu_presets.insert("sd8g3".to_string(), "Hardware: SM8650".to_string());
    c.cpu_presets.insert("tensor".to_string(), "Hardware: Tensor".to_string());
    let m = merged_with_cpu(s("custom text"), s("sd8g3"));
    assert_eq!(m.resolve_cpuinfo(&c), s("custom text"));
    let m = merged_with_cpu(s(""), s("sd8g3"));
    assert_eq!(m.resolve_cpuinfo(&c), s("Hardware: SM8650"));
    let m = merged_with_cpu(None, None);
    assert_eq!(m.resolve_cpuinfo(&c), None);
    c.default_cpu_spoof = s("tensor");
    assert_eq!(m.resolve_cpuinfo(&c), s("Hardware: Tensor"));
    let m = merged_with_cpu(None, s("missing"));
    assert_eq!(m.resolve_cpuinfo(&c), None);
}

#[test]
fn merged_config_resolves_cpuinfo() {
    let mut c = config();
    c.cpu_presets.insert("p".to_string(), "cpu".to_string());
    let mut a = app("com.a");
    a.cpu_spoof = s("p");
    c.apps.push(a);
    assert_eq!(c.get_merged_config("com.a").unwrap().cpuinfo_content, s("cpu"));
}

#[test]
fn us_preset_keeps_the_lower_case_sim_country() {
    let mut tc = TelephonyConfig::new();
    tc.country_iso = Some("us".to_string());
    tc.apply_country_preset();
    assert_eq!(tc.sim_country_iso, Some("us".to_string()));
    assert_eq!(tc.mcc, Some("311".to_string()));
    assert_eq!(tc.mnc, Some("480".to_string()));
    assert_eq!(tc.timezone, Some("America/Chicago".to_string()));
    let copy = tc.clone();
    assert_eq!(copy.sim_country_iso, tc.sim_country_iso);
    assert_eq!(copy.timezone, tc.timezone);
}
