//! Configuration model: device templates, per-app overrides, telephony
//! settings, and the rules that merge them into one profile for an app.

use vstd::prelude::*;
use vstd::string::*;

use crate::keyed_map::KeyedMap;
use crate::strings::{filled, is_filled, eq_ignore_ascii_case, str_eq_ignore_ascii_case};

verus! {

/// The characters of an optional string.
pub open spec fn opt_chars(o: Option<String>) -> Option<Seq<char>> {
    match o {
        Some(s) => Some(s@),
        None => None,
    }
}

/// Device profile template.
#[derive(Debug, Clone)]
pub struct DeviceTemplate {
    /// Package names that use this template.
    pub packages: Vec<String>,
    pub manufacturer: Option<String>,
    pub brand: Option<String>,
    pub marketname: Option<String>,
    pub model: Option<String>,
    pub name: Option<String>,
    pub device: Option<String>,
    pub product: Option<String>,
    pub hardware: Option<String>,
    pub fingerprint: Option<String>,
    pub build_id: Option<String>,
    pub characteristics: Option<String>,
    /// Android version to report (e.g. "15", "14").
    pub android_version: Option<String>,
    /// SDK version to report (e.g. 35, 34).
    pub sdk_int: Option<u32>,
    /// Custom property map.
    pub custom_props: Option<KeyedMap<String>>,
    /// Force FORCE_DENYLIST_UNMOUNT for matching apps (default: inherit global).
    pub force_denylist_unmount: Option<bool>,
    /// CPU spoof preset name (references `cpu_presets`).
    pub cpu_spoof: Option<String>,
    /// Custom CPU spoof content (takes precedence over `cpu_spoof`).
    pub cpu_spoof_custom: Option<String>,
    /// Property area patterns to clear from /proc/self/maps (default: inherit global).
    pub hide_maps: Option<Vec<String>>,
    /// Skip COW property spoofing and hand all props to the companion's resetprop.
    pub companion_resetprop: Option<bool>,
    /// Telephony spoofing config for this template.
    pub telephony: Option<TelephonyConfig>,
}

/// Per-app configuration.
#[derive(Debug, Clone)]
pub struct AppConfig {
    pub package: String,
    pub manufacturer: Option<String>,
    pub brand: Option<String>,
    pub marketname: Option<String>,
    pub model: Option<String>,
    pub name: Option<String>,
    pub device: Option<String>,
    pub product: Option<String>,
    pub hardware: Option<String>,
    pub fingerprint: Option<String>,
    pub build_id: Option<String>,
    pub characteristics: Option<String>,
    /// Android version to report (e.g. "15", "14").
    pub android_version: Option<String>,
    /// SDK version to report (e.g. 35, 34).
    pub sdk_int: Option<u32>,
    /// Custom property map.
    pub custom_props: Option<KeyedMap<String>>,
    /// Force FORCE_DENYLIST_UNMOUNT for this app (default: inherit global setting).
    pub force_denylist_unmount: Option<bool>,
    /// CPU spoof preset name (references `cpu_presets`).
    pub cpu_spoof: Option<String>,
    /// Custom CPU spoof content (takes precedence over `cpu_spoof`).
    pub cpu_spoof_custom: Option<String>,
    /// Property area patterns to clear from /proc/self/maps (default: inherit global).
    pub hide_maps: Option<Vec<String>>,
    /// Skip COW property spoofing and hand all props to the companion's resetprop.
    pub companion_resetprop: Option<bool>,
    /// Telephony spoofing config for this app.
    pub telephony: Option<TelephonyConfig>,
}

/// The whole configuration file.
#[derive(Debug)]
pub struct Config {
    /// Enable FORCE_DENYLIST_UNMOUNT by default.
    pub default_force_denylist_unmount: bool,
    /// Enable debug logging.
    pub debug: bool,
    /// Device profile templates by name.
    pub templates: KeyedMap<DeviceTemplate>,
    /// Application configurations.
    pub apps: Vec<AppConfig>,
    /// Global default CPU spoof preset name.
    pub default_cpu_spoof: Option<String>,
    /// CPU spoof presets by name.
    pub cpu_presets: KeyedMap<String>,
    /// Property area patterns to clear from /proc/self/maps.
    pub default_hide_maps: Vec<String>,
    /// Global telephony / SIM spoofing configuration.
    pub telephony: TelephonyConfig,
}

/// Configuration for telephony, SIM, and network identity spoofing.
#[derive(Debug)]
pub struct TelephonyConfig {
    /// Selected country ISO code (e.g. "us", "gb").
    pub country_iso: Option<String>,
    /// SIM country ISO (e.g. "us").
    pub sim_country_iso: Option<String>,
    /// Mobile Country Code (e.g. "311").
    pub mcc: Option<String>,
    /// Mobile Network Code (e.g. "480").
    pub mnc: Option<String>,
    /// Operator / carrier display name.
    pub operator_name: Option<String>,
    /// SIM serial number.
    pub sim_serial: Option<String>,
    /// Timezone ID (e.g. "America/Chicago").
    pub timezone: Option<String>,
    /// Device serial number.
    pub device_serial: Option<String>,
    /// SoC manufacturer.
    pub soc_manufacturer: Option<String>,
    /// SoC model.
    pub soc_model: Option<String>,
    /// Bootloader version string.
    pub bootloader: Option<String>,
    /// Baseband version string.
    pub baseband: Option<String>,
    /// ICCID value.
    pub iccid: Option<String>,
    /// IP address to report.
    pub ip_address: Option<String>,
    /// Always report airplane mode as off.
    pub hide_airplane_mode: bool,
    /// Hide developer options and USB debugging.
    pub hide_developer_mode: bool,
    /// Country source (e.g. "network", "sim", "locale").
    pub country_source: Option<String>,
}

fn copy_opt(o: &Option<String>) -> (r: Option<String>)
    ensures
        r == *o,
{
    match o {
        Some(s) => Some(s.clone()),
        None => None,
    }
}

fn copy_strings(v: &Vec<String>) -> (r: Vec<String>)
    ensures
        r@ == v@,
{
    let mut out: Vec<String> = Vec::new();
    let n = v.len();
    let mut i: usize = 0;
    while i < n
        invariant
            n == v@.len(),
            0 <= i <= n,
            out@.len() == i,
            forall|j: int| 0 <= j < i ==> #[trigger] out@[j] == v@[j],
        decreases n - i,
    {
        out.push(v[i].clone());
        i = i + 1;
    }
    assert(out@ =~= v@);
    out
}

impl TelephonyConfig {
    /// An empty telephony configuration: nothing set, nothing hidden.
    pub fn new() -> (t: Self)
        ensures
            t == Self::spec_empty(),
    {
        TelephonyConfig {
            country_iso: None,
            sim_country_iso: None,
            mcc: None,
            mnc: None,
            operator_name: None,
            sim_serial: None,
            timezone: None,
            device_serial: None,
            soc_manufacturer: None,
            soc_model: None,
            bootloader: None,
            baseband: None,
            iccid: None,
            ip_address: None,
            hide_airplane_mode: false,
            hide_developer_mode: false,
            country_source: None,
        }
    }

    /// The empty telephony configuration.
    pub open spec fn spec_empty() -> Self {
        TelephonyConfig {
            country_iso: None,
            sim_country_iso: None,
            mcc: None,
            mnc: None,
            operator_name: None,
            sim_serial: None,
            timezone: None,
            device_serial: None,
            soc_manufacturer: None,
            soc_model: None,
            bootloader: None,
            baseband: None,
            iccid: None,
            ip_address: None,
            hide_airplane_mode: false,
            hide_developer_mode: false,
            country_source: None,
        }
    }
}

impl Clone for TelephonyConfig {
    /// A copy with the same values.
    fn clone(&self) -> (t: Self)
        ensures
            t == *self,
    {
        TelephonyConfig {
            country_iso: copy_opt(&self.country_iso),
            sim_country_iso: copy_opt(&self.sim_country_iso),
            mcc: copy_opt(&self.mcc),
            mnc: copy_opt(&self.mnc),
            operator_name: copy_opt(&self.operator_name),
            sim_serial: copy_opt(&self.sim_serial),
            timezone: copy_opt(&self.timezone),
            device_serial: copy_opt(&self.device_serial),
            soc_manufacturer: copy_opt(&self.soc_manufacturer),
            soc_model: copy_opt(&self.soc_model),
            bootloader: copy_opt(&self.bootloader),
            baseband: copy_opt(&self.baseband),
            iccid: copy_opt(&self.iccid),
            ip_address: copy_opt(&self.ip_address),
            hide_airplane_mode: self.hide_airplane_mode,
            hide_developer_mode: self.hide_developer_mode,
            country_source: copy_opt(&self.country_source),
        }
    }
}

// ── Country presets ───────────────────────────────────────────────────────

/// Country preset: ISO code, label, MCC, MNC, timezone and a location given in
/// ten-thousandths of a degree.
#[derive(Debug, Clone, Copy)]
pub struct CountryPreset {
    pub iso: &'static str,
    pub label: &'static str,
    pub mcc: &'static str,
    pub mnc: &'static str,
    pub timezone: &'static str,
    /// Latitude in units of 1/10000 degree.
    pub lat_e4: i32,
    /// Longitude in units of 1/10000 degree.
    pub lon_e4: i32,
}

/// Number of built-in country presets.
pub const COUNTRY_PRESET_COUNT: usize = 22;

/// The built-in country presets, in lookup order.
pub open spec fn preset_entry(i: int) -> Option<CountryPreset> {
    if i == 0 {
        Some(CountryPreset { iso: "us", label: "United States", mcc: "311", mnc: "480", timezone: "America/Chicago", lat_e4: 418781, lon_e4: -876298i32 })
    } else if i == 1 {
        Some(CountryPreset { iso: "gb", label: "United Kingdom", mcc: "234", mnc: "15", timezone: "Europe/London", lat_e4: 515074, lon_e4: -1278i32 })
    } else if i == 2 {
        Some(CountryPreset { iso: "de", label: "Germany", mcc: "262", mnc: "01", timezone: "Europe/Berlin", lat_e4: 525200, lon_e4: 134050 })
    } else if i == 3 {
        Some(CountryPreset { iso: "ca", label: "Canada", mcc: "302", mnc: "720", timezone: "America/Toronto", lat_e4: 436532, lon_e4: -793832i32 })
    } else if i == 4 {
        Some(CountryPreset { iso: "ch", label: "Switzerland", mcc: "228", mnc: "01", timezone: "Europe/Zurich", lat_e4: 473769, lon_e4: 85417 })
    } else if i == 5 {
        Some(CountryPreset { iso: "kr", label: "South Korea", mcc: "450", mnc: "05", timezone: "Asia/Seoul", lat_e4: 375665, lon_e4: 1269780 })
    } else if i == 6 {
        Some(CountryPreset { iso: "jp", label: "Japan", mcc: "440", mnc: "10", timezone: "Asia/Tokyo", lat_e4: 356762, lon_e4: 1396503 })
    } else if i == 7 {
        Some(CountryPreset { iso: "fr", label: "France", mcc: "208", mnc: "01", timezone: "Europe/Paris", lat_e4: 488566, lon_e4: 23522 })
    } else if i == 8 {
        Some(CountryPreset { iso: "au", label: "Australia", mcc: "505", mnc: "01", timezone: "Australia/Sydney", lat_e4: -338688i32, lon_e4: 1512093 })
    } else if i == 9 {
        Some(CountryPreset { iso: "br", label: "Brazil", mcc: "724", mnc: "05", timezone: "America/Sao_Paulo", lat_e4: -235505i32, lon_e4: -466333i32 })
    } else if i == 10 {
        Some(CountryPreset { iso: "in", label: "India", mcc: "405", mnc: "01", timezone: "Asia/Kolkata", lat_e4: 286139, lon_e4: 772090 })
    } else if i == 11 {
        Some(CountryPreset { iso: "ru", label: "Russia", mcc: "250", mnc: "01", timezone: "Europe/Moscow", lat_e4: 557558, lon_e4: 376173 })
    } else if i == 12 {
        Some(CountryPreset { iso: "it", label: "Italy", mcc: "222", mnc: "01", timezone: "Europe/Rome", lat_e4: 419028, lon_e4: 124964 })
    } else if i == 13 {
        Some(CountryPreset { iso: "es", label: "Spain", mcc: "214", mnc: "01", timezone: "Europe/Madrid", lat_e4: 404168, lon_e4: -37038i32 })
    } else if i == 14 {
        Some(CountryPreset { iso: "nl", label: "Netherlands", mcc: "204", mnc: "04", timezone: "Europe/Amsterdam", lat_e4: 523676, lon_e4: 49041 })
    } else if i == 15 {
        Some(CountryPreset { iso: "se", label: "Sweden", mcc: "240", mnc: "01", timezone: "Europe/Stockholm", lat_e4: 593293, lon_e4: 180686 })
    } else if i == 16 {
        Some(CountryPreset { iso: "no", label: "Norway", mcc: "242", mnc: "01", timezone: "Europe/Oslo", lat_e4: 599139, lon_e4: 107522 })
    } else if i == 17 {
        Some(CountryPreset { iso: "sg", label: "Singapore", mcc: "525", mnc: "01", timezone: "Asia/Singapore", lat_e4: 13521, lon_e4: 1038198 })
    } else if i == 18 {
        Some(CountryPreset { iso: "ae", label: "UAE", mcc: "424", mnc: "02", timezone: "Asia/Dubai", lat_e4: 252048, lon_e4: 552708 })
    } else if i == 19 {
        Some(CountryPreset { iso: "sa", label: "Saudi Arabia", mcc: "420", mnc: "01", timezone: "Asia/Riyadh", lat_e4: 247136, lon_e4: 466753 })
    } else if i == 20 {
        Some(CountryPreset { iso: "tr", label: "Turkey", mcc: "286", mnc: "01", timezone: "Europe/Istanbul", lat_e4: 410082, lon_e4: 289784 })
    } else if i == 21 {
        Some(CountryPreset { iso: "mx", label: "Mexico", mcc: "334", mnc: "020", timezone: "America/Mexico_City", lat_e4: 194326, lon_e4: -991332i32 })
    } else {
        None
    }
}

/// The first preset at index `i` or later whose ISO code equals `iso` up to ASCII case.
pub open spec fn find_preset_from(iso: Seq<char>, i: int) -> Option<CountryPreset>
    decreases 22 - i,
{
    if i < 0 || i >= 22 {
        None
    } else if eq_ignore_ascii_case(preset_entry(i).unwrap().iso@, iso) {
        preset_entry(i)
    } else {
        find_preset_from(iso, i + 1)
    }
}

/// The first built-in preset whose ISO code equals `iso` up to ASCII case.
pub open spec fn find_preset(iso: Seq<char>) -> Option<CountryPreset> {
    find_preset_from(iso, 0)
}

impl CountryPreset {
    /// The `i`-th built-in preset.
    pub fn at(i: usize) -> (p: Option<CountryPreset>)
        ensures
            p == preset_entry(i as int),
    {
        match i {
            0 => Some(CountryPreset { iso: "us", label: "United States", mcc: "311", mnc: "480", timezone: "America/Chicago", lat_e4: 418781, lon_e4: -876298 }),
            1 => Some(CountryPreset { iso: "gb", label: "United Kingdom", mcc: "234", mnc: "15", timezone: "Europe/London", lat_e4: 515074, lon_e4: -1278 }),
            2 => Some(CountryPreset { iso: "de", label: "Germany", mcc: "262", mnc: "01", timezone: "Europe/Berlin", lat_e4: 525200, lon_e4: 134050 }),
            3 => Some(CountryPreset { iso: "ca", label: "Canada", mcc: "302", mnc: "720", timezone: "America/Toronto", lat_e4: 436532, lon_e4: -793832 }),
            4 => Some(CountryPreset { iso: "ch", label: "Switzerland", mcc: "228", mnc: "01", timezone: "Europe/Zurich", lat_e4: 473769, lon_e4: 85417 }),
            5 => Some(CountryPreset { iso: "kr", label: "South Korea", mcc: "450", mnc: "05", timezone: "Asia/Seoul", lat_e4: 375665, lon_e4: 1269780 }),
            6 => Some(CountryPreset { iso: "jp", label: "Japan", mcc: "440", mnc: "10", timezone: "Asia/Tokyo", lat_e4: 356762, lon_e4: 1396503 }),
            7 => Some(CountryPreset { iso: "fr", label: "France", mcc: "208", mnc: "01", timezone: "Europe/Paris", lat_e4: 488566, lon_e4: 23522 }),
            8 => Some(CountryPreset { iso: "au", label: "Australia", mcc: "505", mnc: "01", timezone: "Australia/Sydney", lat_e4: -338688, lon_e4: 1512093 }),
            9 => Some(CountryPreset { iso: "br", label: "Brazil", mcc: "724", mnc: "05", timezone: "America/Sao_Paulo", lat_e4: -235505, lon_e4: -466333 }),
            10 => Some(CountryPreset { iso: "in", label: "India", mcc: "405", mnc: "01", timezone: "Asia/Kolkata", lat_e4: 286139, lon_e4: 772090 }),
            11 => Some(CountryPreset { iso: "ru", label: "Russia", mcc: "250", mnc: "01", timezone: "Europe/Moscow", lat_e4: 557558, lon_e4: 376173 }),
            12 => Some(CountryPreset { iso: "it", label: "Italy", mcc: "222", mnc: "01", timezone: "Europe/Rome", lat_e4: 419028, lon_e4: 124964 }),
            13 => Some(CountryPreset { iso: "es", label: "Spain", mcc: "214", mnc: "01", timezone: "Europe/Madrid", lat_e4: 404168, lon_e4: -37038 }),
            14 => Some(CountryPreset { iso: "nl", label: "Netherlands", mcc: "204", mnc: "04", timezone: "Europe/Amsterdam", lat_e4: 523676, lon_e4: 49041 }),
            15 => Some(CountryPreset { iso: "se", label: "Sweden", mcc: "240", mnc: "01", timezone: "Europe/Stockholm", lat_e4: 593293, lon_e4: 180686 }),
            16 => Some(CountryPreset { iso: "no", label: "Norway", mcc: "242", mnc: "01", timezone: "Europe/Oslo", lat_e4: 599139, lon_e4: 107522 }),
            17 => Some(CountryPreset { iso: "sg", label: "Singapore", mcc: "525", mnc: "01", timezone: "Asia/Singapore", lat_e4: 13521, lon_e4: 1038198 }),
            18 => Some(CountryPreset { iso: "ae", label: "UAE", mcc: "424", mnc: "02", timezone: "Asia/Dubai", lat_e4: 252048, lon_e4: 552708 }),
            19 => Some(CountryPreset { iso: "sa", label: "Saudi Arabia", mcc: "420", mnc: "01", timezone: "Asia/Riyadh", lat_e4: 247136, lon_e4: 466753 }),
            20 => Some(CountryPreset { iso: "tr", label: "Turkey", mcc: "286", mnc: "01", timezone: "Europe/Istanbul", lat_e4: 410082, lon_e4: 289784 }),
            21 => Some(CountryPreset { iso: "mx", label: "Mexico", mcc: "334", mnc: "020", timezone: "America/Mexico_City", lat_e4: 194326, lon_e4: -991332 }),
            _ => None,
        }
    }

    /// The first built-in preset whose ISO code equals `iso`, ignoring ASCII case.
    pub fn find(iso: &str) -> (p: Option<CountryPreset>)
        ensures
            p == find_preset(iso@),
    {
        let mut i: usize = 0;
        while i < COUNTRY_PRESET_COUNT
            invariant
                0 <= i <= 22,
                find_preset(iso@) == find_preset_from(iso@, i as int),
            decreases 22 - i,
        {
            let entry = CountryPreset::at(i).unwrap();
            if str_eq_ignore_ascii_case(entry.iso, iso) {
                return Some(entry);
            }
            i = i + 1;
        }
        None
    }
}

/// `after` is `before` with the optional `fill` written in only where `before` is `None`.
pub open spec fn fills_gap(before: Option<String>, after: Option<String>, fill: Option<Seq<char>>) -> bool {
    match fill {
        Some(v) => if before is None {
            after is Some && after->0@ == v
        } else {
            after == before
        },
        None => after == before,
    }
}

/// What `TelephonyConfig::apply_country_preset` makes of `b`: when its country
/// names a built-in preset, MCC, MNC, SIM country (the preset's lower-case
/// code) and timezone that are unset take the preset's values; nothing else
/// changes.
pub open spec fn preset_applied(b: TelephonyConfig, a: TelephonyConfig) -> bool {
    let p = match b.country_iso {
        Some(iso) => find_preset(iso@),
        None => None,
    };
    &&& a.country_iso == b.country_iso
    &&& a.operator_name == b.operator_name
    &&& a.sim_serial == b.sim_serial
    &&& a.device_serial == b.device_serial
    &&& a.soc_manufacturer == b.soc_manufacturer
    &&& a.soc_model == b.soc_model
    &&& a.bootloader == b.bootloader
    &&& a.baseband == b.baseband
    &&& a.iccid == b.iccid
    &&& a.ip_address == b.ip_address
    &&& a.hide_airplane_mode == b.hide_airplane_mode
    &&& a.hide_developer_mode == b.hide_developer_mode
    &&& a.country_source == b.country_source
    &&& fills_gap(b.mcc, a.mcc, match p { Some(p) => Some(p.mcc@), None => None })
    &&& fills_gap(b.mnc, a.mnc, match p { Some(p) => Some(p.mnc@), None => None })
    &&& fills_gap(b.sim_country_iso, a.sim_country_iso, match p { Some(p) => Some(p.iso@), None => None })
    &&& fills_gap(b.timezone, a.timezone, match p { Some(p) => Some(p.timezone@), None => None })
}

impl TelephonyConfig {
    /// Merge country preset values into this config if `country_iso` is set.
    pub fn apply_country_preset(&mut self)
        ensures
            preset_applied(*old(self), *final(self)),
    {
        let found = match &self.country_iso {
            Some(iso) => CountryPreset::find(iso.as_str()),
            None => None,
        };
        if let Some(preset) = found {
            if self.mcc.is_none() {
                self.mcc = Some(preset.mcc.to_owned());
            }
            if self.mnc.is_none() {
                self.mnc = Some(preset.mnc.to_owned());
            }
            if self.sim_country_iso.is_none() {
                self.sim_country_iso = Some(preset.iso.to_owned());
            }
            if self.timezone.is_none() {
                self.timezone = Some(preset.timezone.to_owned());
            }
        }
    }
}

/// Applying the country preset a second time changes nothing.
pub proof fn lemma_apply_country_preset_idempotent(a: TelephonyConfig, b: TelephonyConfig, c: TelephonyConfig)
    requires
        preset_applied(a, b),
        preset_applied(b, c),
    ensures
        c == b,
{
}

/// A value that the configuration already sets is never replaced by a preset value.
pub proof fn lemma_apply_country_preset_keeps_set_values(a: TelephonyConfig, b: TelephonyConfig)
    requires
        preset_applied(a, b),
    ensures
        a.mcc is Some ==> b.mcc == a.mcc,
        a.mnc is Some ==> b.mnc == a.mnc,
        a.sim_country_iso is Some ==> b.sim_country_iso == a.sim_country_iso,
        a.timezone is Some ==> b.timezone == a.timezone,
{
}

// ── Looking up an app's configuration ─────────────────────────────────────

/// Whether `list` names `pkg`.
pub open spec fn lists_package(list: Seq<String>, pkg: Seq<char>) -> bool {
    exists|j: int| 0 <= j < list.len() && #[trigger] list[j]@ == pkg
}

fn list_contains(list: &Vec<String>, pkg: &str) -> (b: bool)
    ensures
        b == lists_package(list@, pkg@),
{
    let target = pkg.to_owned();
    let n = list.len();
    let mut i: usize = 0;
    while i < n
        invariant
            n == list@.len(),
            0 <= i <= n,
            target@ == pkg@,
            forall|j: int| 0 <= j < i ==> #[trigger] list@[j]@ != pkg@,
        decreases n - i,
    {
        if list[i] == target {
            assert(list@[i as int]@ == pkg@);
            return true;
        }
        i = i + 1;
    }
    false
}

/// The first app configuration at index `i` or later whose package is `pkg`.
pub open spec fn app_for_from(apps: Seq<AppConfig>, pkg: Seq<char>, i: int) -> Option<AppConfig>
    decreases apps.len() - i,
{
    if i < 0 || i >= apps.len() {
        None
    } else if apps[i].package@ == pkg {
        Some(apps[i])
    } else {
        app_for_from(apps, pkg, i + 1)
    }
}

/// The first app configuration whose package is `pkg`.
pub open spec fn app_for(apps: Seq<AppConfig>, pkg: Seq<char>) -> Option<AppConfig> {
    app_for_from(apps, pkg, 0)
}

/// The first template at index `i` or later (in table order) that lists `pkg`.
pub open spec fn template_for_from(ts: Seq<(Seq<char>, DeviceTemplate)>, pkg: Seq<char>, i: int) -> Option<
    DeviceTemplate,
>
    decreases ts.len() - i,
{
    if i < 0 || i >= ts.len() {
        None
    } else if lists_package(ts[i].1.packages@, pkg) {
        Some(ts[i].1)
    } else {
        template_for_from(ts, pkg, i + 1)
    }
}

/// The first template (in table order) that lists `pkg`.
pub open spec fn template_for(ts: Seq<(Seq<char>, DeviceTemplate)>, pkg: Seq<char>) -> Option<
    DeviceTemplate,
> {
    template_for_from(ts, pkg, 0)
}

/// The CPU info content for a profile: its custom content when that is
/// present and not empty; otherwise the preset named by the profile, or by the
/// global default when the profile names none, if that preset exists.
pub open spec fn resolved_cpuinfo(custom: Option<String>, preset: Option<String>, config: Config) -> Option<
    Seq<char>,
> {
    if is_filled(custom) {
        Some(custom->0@)
    } else {
        let name = if preset is Some {
            preset
        } else {
            config.default_cpu_spoof
        };
        match name {
            Some(n) => if config.cpu_presets.str_view().contains_key(n@) {
                Some(config.cpu_presets.str_view()[n@])
            } else {
                None
            },
            None => None,
        }
    }
}

/// Two optional property maps with the same entries in the same order.
pub open spec fn same_props(a: Option<KeyedMap<String>>, b: Option<KeyedMap<String>>) -> bool {
    match (a, b) {
        (Some(x), Some(y)) => x.pairs() == y.pairs(),
        (None, None) => true,
        _ => false,
    }
}

fn copy_props(o: &Option<KeyedMap<String>>) -> (r: Option<KeyedMap<String>>)
    ensures
        same_props(r, *o),
{
    match o {
        Some(m) => Some(m.clone()),
        None => None,
    }
}

/// Merged app config (template or direct configuration, with defaults filled in).
#[derive(Debug, Clone)]
pub struct MergedAppConfig {
    pub manufacturer: Option<String>,
    pub brand: Option<String>,
    pub marketname: Option<String>,
    pub model: Option<String>,
    pub name: Option<String>,
    pub device: Option<String>,
    pub product: Option<String>,
    pub hardware: Option<String>,
    pub fingerprint: Option<String>,
    pub build_id: Option<String>,
    pub characteristics: Option<String>,
    pub android_version: Option<String>,
    pub sdk_int: Option<u32>,
    pub custom_props: Option<KeyedMap<String>>,
    pub force_denylist_unmount: bool,
    /// CPU spoof preset name.
    pub cpu_spoof: Option<String>,
    /// Custom CPU spoof content.
    pub cpu_spoof_custom: Option<String>,
    /// Final content to bind-mount over /proc/cpuinfo.
    pub cpuinfo_content: Option<String>,
    /// Property area patterns to clear from /proc/self/maps.
    pub hide_maps: Vec<String>,
    /// Skip COW; all props go through the companion's resetprop.
    pub companion_resetprop: bool,
    /// Telephony / SIM / country spoofing configuration.
    pub telephony_config: TelephonyConfig,
}

/// `m` is what `Config::get_merged_config` builds from the app configuration `app`.
pub open spec fn merged_from_app(m: MergedAppConfig, app: AppConfig, config: Config) -> bool {
    &&& m.manufacturer == app.manufacturer
    &&& m.brand == app.brand
    &&& m.marketname == app.marketname
    &&& m.model == app.model
    &&& m.name == app.name
    &&& m.device == app.device
    &&& m.product == app.product
    &&& m.hardware == app.hardware
    &&& m.fingerprint == app.fingerprint
    &&& m.build_id == app.build_id
    &&& m.characteristics == app.characteristics
    &&& m.android_version == app.android_version
    &&& m.sdk_int == app.sdk_int
    &&& same_props(m.custom_props, app.custom_props)
    &&& m.force_denylist_unmount == match app.force_denylist_unmount {
        Some(b) => b,
        None => config.default_force_denylist_unmount,
    }
    &&& m.cpu_spoof == app.cpu_spoof
    &&& m.cpu_spoof_custom == app.cpu_spoof_custom
    &&& m.hide_maps@ == match app.hide_maps {
        Some(h) => h@,
        None => config.default_hide_maps@,
    }
    &&& m.companion_resetprop == match app.companion_resetprop {
        Some(b) => b,
        None => false,
    }
    &&& preset_applied(
        match app.telephony {
            Some(t) => t,
            None => config.telephony,
        },
        m.telephony_config,
    )
    &&& opt_chars(m.cpuinfo_content) == resolved_cpuinfo(m.cpu_spoof_custom, m.cpu_spoof, config)
}

/// `m` is what `Config::get_merged_config` builds from the template `t`.
pub open spec fn merged_from_template(m: MergedAppConfig, t: DeviceTemplate, config: Config) -> bool {
    &&& m.manufacturer == t.manufacturer
    &&& m.brand == t.brand
    &&& m.marketname == t.marketname
    &&& m.model == t.model
    &&& m.name == t.name
    &&& m.device == t.device
    &&& m.product == t.product
    &&& m.hardware == t.hardware
    &&& m.fingerprint == t.fingerprint
    &&& m.build_id == t.build_id
    &&& m.characteristics == t.characteristics
    &&& m.android_version == t.android_version
    &&& m.sdk_int == t.sdk_int
    &&& same_props(m.custom_props, t.custom_props)
    &&& m.force_denylist_unmount == match t.force_denylist_unmount {
        Some(b) => b,
        None => config.default_force_denylist_unmount,
    }
    &&& m.cpu_spoof == t.cpu_spoof
    &&& m.cpu_spoof_custom == t.cpu_spoof_custom
    &&& m.hide_maps@ == match t.hide_maps {
        Some(h) => h@,
        None => config.default_hide_maps@,
    }
    &&& m.companion_resetprop == match t.companion_resetprop {
        Some(b) => b,
        None => false,
    }
    &&& preset_applied(
        match t.telephony {
            Some(tc) => tc,
            None => config.telephony,
        },
        m.telephony_config,
    )
    &&& opt_chars(m.cpuinfo_content) == resolved_cpuinfo(m.cpu_spoof_custom, m.cpu_spoof, config)
}

/// What `Config::get_merged_config` returns for `pkg`: the direct app
/// configuration first, then a template that lists the package, else nothing.
pub open spec fn merged_config_for(config: Config, pkg: Seq<char>, r: Option<MergedAppConfig>) -> bool {
    match app_for(config.apps@, pkg) {
        Some(app) => r is Some && merged_from_app(r->0, app, config),
        None => match template_for(config.templates.pairs(), pkg) {
            Some(t) => r is Some && merged_from_template(r->0, t, config),
            None => r is None,
        },
    }
}

impl MergedAppConfig {
    /// Compute the final CPU spoof content.
    pub fn resolve_cpuinfo(&self, config: &Config) -> (r: Option<String>)
        ensures
            opt_chars(r) == resolved_cpuinfo(self.cpu_spoof_custom, self.cpu_spoof, *config),
    {
        if filled(&self.cpu_spoof_custom) {
            return copy_opt(&self.cpu_spoof_custom);
        }
        let preset_name = match &self.cpu_spoof {
            Some(n) => n,
            None => match &config.default_cpu_spoof {
                Some(n) => n,
                None => return None,
            },
        };
        match config.cpu_presets.get_str(preset_name.as_str()) {
            Some(v) => Some(v.clone()),
            None => None,
        }
    }
}

impl Config {
    /// Find the direct configuration of a package.
    pub fn get_app_config(&self, package_name: &str) -> (r: Option<&AppConfig>)
        ensures
            match r {
                Some(a) => app_for(self.apps@, package_name@) == Some(*a),
                None => app_for(self.apps@, package_name@) is None,
            },
    {
        let target = package_name.to_owned();
        let n = self.apps.len();
        let mut i: usize = 0;
        while i < n
            invariant
                n == self.apps@.len(),
                0 <= i <= n,
                target@ == package_name@,
                app_for(self.apps@, package_name@) == app_for_from(self.apps@, package_name@, i as int),
            decreases n - i,
        {
            if self.apps[i].package == target {
                return Some(&self.apps[i]);
            }
            i = i + 1;
        }
        None
    }

    /// Find the first template (in table order) whose package list names the package.
    pub fn find_template_for_package(&self, package_name: &str) -> (r: Option<&DeviceTemplate>)
        ensures
            match r {
                Some(t) => template_for(self.templates.pairs(), package_name@) == Some(*t),
                None => template_for(self.templates.pairs(), package_name@) is None,
            },
    {
        let n = self.templates.len();
        let mut i: usize = 0;
        while i < n
            invariant
                n == self.templates.pairs().len(),
                0 <= i <= n,
                template_for(self.templates.pairs(), package_name@) == template_for_from(
                    self.templates.pairs(),
                    package_name@,
                    i as int,
                ),
            decreases n - i,
        {
            let t = self.templates.value_at(i);
            if list_contains(&t.packages, package_name) {
                return Some(t);
            }
            i = i + 1;
        }
        None
    }

    /// Get the merged config for a package: a direct app configuration first,
    /// then a template that lists the package.
    pub fn get_merged_config(&self, package_name: &str) -> (r: Option<MergedAppConfig>)
        ensures
            merged_config_for(*self, package_name@, r),
    {
        if let Some(app) = self.get_app_config(package_name) {
            let mut merged = MergedAppConfig {
                manufacturer: copy_opt(&app.manufacturer),
                brand: copy_opt(&app.brand),
                marketname: copy_opt(&app.marketname),
                model: copy_opt(&app.model),
                name: copy_opt(&app.name),
                device: copy_opt(&app.device),
                product: copy_opt(&app.product),
                hardware: copy_opt(&app.hardware),
                fingerprint: copy_opt(&app.fingerprint),
                build_id: copy_opt(&app.build_id),
                characteristics: copy_opt(&app.characteristics),
                android_version: copy_opt(&app.android_version),
                sdk_int: app.sdk_int,
                custom_props: copy_props(&app.custom_props),
                force_denylist_unmount: match app.force_denylist_unmount {
                    Some(b) => b,
                    None => self.default_force_denylist_unmount,
                },
                cpu_spoof: copy_opt(&app.cpu_spoof),
                cpu_spoof_custom: copy_opt(&app.cpu_spoof_custom),
                cpuinfo_content: None,
                hide_maps: match &app.hide_maps {
                    Some(h) => copy_strings(h),
                    None => copy_strings(&self.default_hide_maps),
                },
                companion_resetprop: match app.companion_resetprop {
                    Some(b) => b,
                    None => false,
                },
                telephony_config: match &app.telephony {
                    Some(t) => t.clone(),
                    None => self.telephony.clone(),
                },
            };
            merged.telephony_config.apply_country_preset();
            merged.cpuinfo_content = merged.resolve_cpuinfo(self);
            return Some(merged);
        }
        if let Some(template) = self.find_template_for_package(package_name) {
            let mut merged = MergedAppConfig {
                manufacturer: copy_opt(&template.manufacturer),
                brand: copy_opt(&template.brand),
                marketname: copy_opt(&template.marketname),
                model: copy_opt(&template.model),
                name: copy_opt(&template.name),
                device: copy_opt(&template.device),
                product: copy_opt(&template.product),
                hardware: copy_opt(&template.hardware),
                fingerprint: copy_opt(&template.fingerprint),
                build_id: copy_opt(&template.build_id),
                characteristics: copy_opt(&template.characteristics),
                android_version: copy_opt(&template.android_version),
                sdk_int: template.sdk_int,
                custom_props: copy_props(&template.custom_props),
                force_denylist_unmount: match template.force_denylist_unmount {
                    Some(b) => b,
                    None => self.default_force_denylist_unmount,
                },
                cpu_spoof: copy_opt(&template.cpu_spoof),
                cpu_spoof_custom: copy_opt(&template.cpu_spoof_custom),
                cpuinfo_content: None,
                hide_maps: match &template.hide_maps {
                    Some(h) => copy_strings(h),
                    None => copy_strings(&self.default_hide_maps),
                },
                companion_resetprop: match template.companion_resetprop {
                    Some(b) => b,
                    None => false,
                },
                telephony_config: match &template.telephony {
                    Some(t) => t.clone(),
                    None => self.telephony.clone(),
                },
            };
            merged.telephony_config.apply_country_preset();
            merged.cpuinfo_content = merged.resolve_cpuinfo(self);
            return Some(merged);
        }
        None
    }
}

// ── Inherited settings ────────────────────────────────────────────────────

proof fn lemma_app_for_first(apps: Seq<AppConfig>, pkg: Seq<char>, i: int, s: int)
    requires
        0 <= s <= i < apps.len(),
        apps[i].package@ == pkg,
        forall|j: int| s <= j < i ==> #[trigger] apps[j].package@ != pkg,
    ensures
        app_for_from(apps, pkg, s) == Some(apps[i]),
    decreases i - s,
{
    if s < i {
        lemma_app_for_first(apps, pkg, i, s + 1);
    }
}

proof fn lemma_app_for_none(apps: Seq<AppConfig>, pkg: Seq<char>, s: int)
    requires
        0 <= s,
        forall|j: int| 0 <= j < apps.len() ==> #[trigger] apps[j].package@ != pkg,
    ensures
        app_for_from(apps, pkg, s) is None,
    decreases apps.len() - s,
{
    if s < apps.len() {
        lemma_app_for_none(apps, pkg, s + 1);
    }
}

proof fn lemma_template_for_first(ts: Seq<(Seq<char>, DeviceTemplate)>, pkg: Seq<char>, i: int, s: int)
    requires
        0 <= s <= i < ts.len(),
        lists_package(ts[i].1.packages@, pkg),
        forall|j: int| s <= j < i ==> !lists_package(#[trigger] ts[j].1.packages@, pkg),
    ensures
        template_for_from(ts, pkg, s) == Some(ts[i].1),
    decreases i - s,
{
    if s < i {
        lemma_template_for_first(ts, pkg, i, s + 1);
    }
}

/// A direct app entry (the first one for the package) decides the merged
/// profile, and the settings it leaves unset are inherited: denylist unmount
/// and hidden maps from the global defaults, companion resetprop off.
pub proof fn lemma_app_entry_inherits_defaults(config: Config, pkg: Seq<char>, r: Option<MergedAppConfig>, i: int)
    requires
        merged_config_for(config, pkg, r),
        0 <= i < config.apps@.len(),
        config.apps@[i].package@ == pkg,
        forall|j: int| 0 <= j < i ==> #[trigger] config.apps@[j].package@ != pkg,
    ensures
        r is Some,
        config.apps@[i].force_denylist_unmount is None ==> r->0.force_denylist_unmount
            == config.default_force_denylist_unmount,
        config.apps@[i].force_denylist_unmount is Some ==> r->0.force_denylist_unmount
            == config.apps@[i].force_denylist_unmount->0,
        config.apps@[i].hide_maps is None ==> r->0.hide_maps@ == config.default_hide_maps@,
        config.apps@[i].hide_maps is Some ==> r->0.hide_maps@ == config.apps@[i].hide_maps->0@,
        config.apps@[i].companion_resetprop is None ==> !r->0.companion_resetprop,
        r->0.model == config.apps@[i].model,
{
    lemma_app_for_first(config.apps@, pkg, i, 0);
}

/// With no direct app entry for the package, the first template that lists it
/// decides the merged profile, and the settings it leaves unset are
/// inherited: denylist unmount and hidden maps from the global defaults,
/// companion resetprop off.
pub proof fn lemma_template_inherits_defaults(config: Config, pkg: Seq<char>, r: Option<MergedAppConfig>, i: int)
    requires
        merged_config_for(config, pkg, r),
        forall|j: int| 0 <= j < config.apps@.len() ==> #[trigger] config.apps@[j].package@ != pkg,
        0 <= i < config.templates.pairs().len(),
        lists_package(config.templates.pairs()[i].1.packages@, pkg),
        forall|j: int| 0 <= j < i ==> !lists_package(#[trigger] config.templates.pairs()[j].1.packages@, pkg),
    ensures
        r is Some,
        config.templates.pairs()[i].1.force_denylist_unmount is None ==> r->0.force_denylist_unmount
            == config.default_force_denylist_unmount,
        config.templates.pairs()[i].1.force_denylist_unmount is Some ==> r->0.force_denylist_unmount
            == config.templates.pairs()[i].1.force_denylist_unmount->0,
        config.templates.pairs()[i].1.hide_maps is None ==> r->0.hide_maps@ == config.default_hide_maps@,
        config.templates.pairs()[i].1.companion_resetprop is None ==> !r->0.companion_resetprop,
        r->0.model == config.templates.pairs()[i].1.model,
{
    lemma_app_for_none(config.apps@, pkg, 0);
    lemma_template_for_first(config.templates.pairs(), pkg, i, 0);
}

} // verus!
