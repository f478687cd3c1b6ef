use device_faker::build_hooks::plan_build_fields;
use device_faker::config::{MergedAppConfig, TelephonyConfig};
use device_faker::hooks::{
    air_h, build_all_telephony_props, dev_h, java_icu4, loc_h, sim_h, soc_h, sub_h, tele_sh, ten_h, tmzn_h,
};

fn s(x: &str) -> Option<String> {
    Some(x.to_string())
}

fn p(k: &str, v: &str) -> (String, String) {
    (k.to_string(), v.to_string())
}

fn full() -> TelephonyConfig {
    let mut tc = TelephonyConfig::new();
    tc.sim_country_iso = s("US");
    tc.mcc = s("311");
    tc.mnc = s("480");
    tc.operator_name = s("Verizon");
    tc.sim_serial = s("SIM1");
    tc.timezone = s("America/Chicago");
    tc.iccid = s("ICC");
    tc.soc_manufacturer = s("Qualcomm");
    tc.soc_model = s("SM8650");
    tc.hide_airplane_mode = true;
    tc.hide_developer_mode = true;
    tc
}

#[test]
fn per_class_property_lists() {
    let tc = full();
    assert_eq!(sim_h::build_property_map(&tc), vec![p("persist.radio.iccid", "SIM1")]);
    assert_eq!(
        sub_h::build_property_map(&tc),
        vec![
            p("persist.radio.iccid", "ICC"),
            p("gsm.sim.operator.mcc", "311"),
            p("gsm.sim.operator.mnc", "480"),
            p("gsm.sim.operator.alpha", "Verizon"),
        ]
    );
    assert_eq!(
        ten_h::build_property_map(&tc),
        vec![p("gsm.operator.iso-country", "US"), p("gsm.operator.mcc", "311"), p("gsm.operator.mnc", "480")]
    );
    assert_eq!(
        loc_h::build_property_map(&tc),
        vec![p("gsm.operator.iso-country", "US"), p("gsm.sim.operator.iso-country", "US")]
    );
    assert_eq!(tmzn_h::build_property_map(&tc), vec![p("persist.sys.timezone", "America/Chicago")]);
    assert_eq!(
        java_icu4::build_property_map(&tc),
        vec![
            p("gsm.operator.iso-country", "US"),
            p("ro.product.locale.region", "US"),
            p("gsm.operator.mcc", "311"),
            p("gsm.operator.mnc", "480"),
            p("persist.sys.timezone", "America/Chicago"),
        ]
    );
    assert_eq!(
        soc_h::build_property_map(&tc),
        vec![p("ro.soc.manufacturer", "Qualcomm"), p("ro.soc.model", "SM8650")]
    );
    assert_eq!(air_h::build_property_map(&tc), vec![p("persist.sys.airplane_mode_on", "0")]);
    assert_eq!(
        dev_h::build_property_map(&tc),
        vec![
            p("persist.sys.developer_options", "0"),
            p("init.svc.adbd", "stopped"),
            p("sys.usb.config", "mtp"),
            p("persist.sys.usb.config", "mtp"),
        ]
    );
}

#[test]
fn empty_config_gives_no_properties() {
    let tc = TelephonyConfig::new();
    assert!(build_all_telephony_props(&tc).is_empty());
    assert_eq!(tele_sh::build_property_map(&tc).len(), 0);
}

#[test]
fn all_telephony_props_concatenate_in_module_order() {
    let tc = full();
    let mut expected = Vec::new();
    expected.extend(sim_h::build_property_map(&tc));
    expected.extend(sub_h::build_property_map(&tc));
    expected.extend(ten_h::build_property_map(&tc));
    expected.extend(loc_h::build_property_map(&tc));
    expected.extend(tmzn_h::build_property_map(&tc));
    expected.extend(java_icu4::build_property_map(&tc));
    expected.extend(soc_h::build_property_map(&tc));
    expected.extend(air_h::build_property_map(&tc));
    expected.extend(dev_h::build_property_map(&tc));
    let all = build_all_telephony_props(&tc);
    assert_eq!(all, expected);
    assert_eq!(all.len(), 1 + 4 + 3 + 2 + 1 + 5 + 2 + 1 + 4);
}

#[test]
fn tele_sh_numeric_and_alpha() {
    let tc = full();
    let m = tele_sh::build_property_map(&tc);
    assert_eq!(m.get("gsm.sim.operator.iso-country"), Some(&"US".to_string()));
    assert_eq!(m.get("gsm.operator.numeric"), Some(&"311480".to_string()));
    assert_eq!(m.get("gsm.sim.operator.numeric"), Some(&"311480".to_string()));
    assert_eq!(m.get("gsm.sim.operator.alpha"), Some(&"Verizon".to_string()));
    assert_eq!(m.get("gsm.operator.alpha"), Some(&"Verizon".to_string()));
    assert_eq!(m.len(), 6);
    let mut no_country = full();
    no_country.sim_country_iso = None;
    let m = tele_sh::build_property_map(&no_country);
    assert_eq!(m.get("gsm.operator.numeric"), Some(&"311480".to_string()));
    assert_eq!(m.get("gsm.operator.iso-country"), None);
}

fn merged() -> MergedAppConfig {
    MergedAppConfig {
        manufacturer: None,
        brand: None,
        marketname: None,
        model: None,
        name: None,
        device: None,
        product: None,
        hardware: None,
        fingerprint: None,
        build_id: None,
        characteristics: None,
        android_version: None,
        sdk_int: None,
        custom_props: None,
        force_denylist_unmount: false,
        cpu_spoof: None,
        cpu_spoof_custom: None,
        cpuinfo_content: None,
        hide_maps: Vec::new(),
        companion_resetprop: false,
        telephony_config: TelephonyConfig::new(),
    }
}

#[test]
fn build_field_plan_skips_empty_values() {
    let mut m = merged();
    m.manufacturer = s("Google");
    m.brand = s("");
    m.product = s("husky");
    m.build_id = s("AP4A");
    m.android_version = s("");
    m.sdk_int = Some(35);
    let plan = plan_build_fields(&m);
    assert_eq!(plan.build_fields, vec![p("MANUFACTURER", "Google"), p("PRODUCT", "husky"), p("ID", "AP4A")]);
    assert_eq!(plan.version_release, None);
    assert_eq!(plan.sdk_int, Some(35));
    m.android_version = s("15");
    m.sdk_int = Some(4294967295);
    let plan = plan_build_fields(&m);
    assert_eq!(plan.version_release, s("15"));
    assert_eq!(plan.sdk_int, Some(-1));
}

#[test]
fn tele_sh_operator_name_alone() {
    let mut tc = TelephonyConfig::new();
    tc.operator_name = Some("Verizon".to_string());
    let m = tele_sh::build_property_map(&tc);
    assert_eq!(m.len(), 2);
    assert_eq!(m.get("gsm.sim.operator.alpha"), Some(&"Verizon".to_string()));
    assert_eq!(m.get("gsm.operator.alpha"), Some(&"Verizon".to_string()));
}

#[test]
fn ten_h_spoofs_country_mcc_and_mnc() {
    let mut tc = TelephonyConfig::new();
    tc.sim_country_iso = Some("us".to_string());
    tc.mcc = Some("311".to_string());
    tc.mnc = Some("480".to_string());
    assert_eq!(
        ten_h::build_property_map(&tc),
        vec![
            ("gsm.operator.iso-country".to_string(), "us".to_string()),
            ("gsm.operator.mcc".to_string(), "311".to_string()),
            ("gsm.operator.mnc".to_string(), "480".to_string()),
        ]
    );
}
