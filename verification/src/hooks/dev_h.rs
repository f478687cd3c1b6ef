//! DevH — developer mode and USB debugging: `DEVELOPMENT_SETTINGS_ENABLED` and
//! `ADB_ENABLED` read as off.

use vstd::prelude::*;

use crate::config::TelephonyConfig;
use crate::hooks::pair_strings;
use crate::property_map::Writes;

verus! {

/// The properties DevH sets.
pub open spec fn dev_props(c: TelephonyConfig) -> Writes {
    if c.hide_developer_mode {
        seq![
            ("persist.sys.developer_options"@, "0"@),
            ("init.svc.adbd"@, "stopped"@),
            ("sys.usb.config"@, "mtp"@),
            ("persist.sys.usb.config"@, "mtp"@),
        ]
    } else {
        Seq::empty()
    }
}

/// The properties to set for DevH: developer options off, adbd stopped and
/// USB in MTP mode, when developer mode is to be hidden.
pub fn build_property_map(config: &TelephonyConfig) -> (props: Vec<(String, String)>)
    ensures
        pair_strings(props@) == dev_props(*config),
{
    let mut props: Vec<(String, String)> = Vec::new();
    if config.hide_developer_mode {
        props.push(("persist.sys.developer_options".to_owned(), "0".to_owned()));
        props.push(("init.svc.adbd".to_owned(), "stopped".to_owned()));
        props.push(("sys.usb.config".to_owned(), "mtp".to_owned()));
        props.push(("persist.sys.usb.config".to_owned(), "mtp".to_owned()));
    }
    assert(pair_strings(props@) =~= dev_props(*config));
    props
}

} // verus!
