# device_faker

A Zygisk module that makes selected Android apps see another device: build
properties, `android.os.Build` fields, telephony/SIM/country settings and
`/proc/cpuinfo`.

`src/` is the verified library (Verus):

- `config` — configuration model, country presets, profile merging
- `property_map` — the property map and delete list a profile asks for
- `property_laws` — laws of the property map: empty values never reach it,
  nor `__DELETE__` values of the properties the delete list carries (the
  Android release version and the telephony settings have no delete entry and
  keep their values), custom properties override device fields, telephony
  settings are written last, the device keys follow the device name, then
  the product name
- `hooks`, `hooks/*` — per-class telephony property lists (TeleSH with the
  law of which keys it sets)
- `build_hooks` — which `Build` fields a profile overrides
- `specialize` — package/user resolution and the per-process plan
- `cow_props` — selection rules of the in-process property patcher
- `frame`, `cpu_spoof` — companion message framing and replies
- `keyed_map`, `strings`, `state` — supporting types

`app/` holds the unverified glue: TOML reading, JNI calls, the companion
socket and the Zygisk entry points.
