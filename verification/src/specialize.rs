//! Decisions taken while an app process is specialized: which package and
//! user it is, which profile applies, and what goes to the companion.

use vstd::prelude::*;

use crate::config::{app_for, merged_config_for, template_for, Config, MergedAppConfig};
use crate::hooks::pair_strings;
use crate::keyed_map::{apply_pairs, lemma_apply_push, map_of_pairs, KeyedMap};
use crate::property_map::{delete_props, property_map, strings_of};
use crate::strings::{after_last, before_first, concat3, decimal, text_after_last, text_before_first, u32_to_decimal};

verus! {

/// Android app UIDs are `user_id * 100000 + app_id`.
pub const AID_USER_OFFSET: u32 = 100000;

/// The Android user a UID belongs to (0 for a UID that is not positive).
pub open spec fn user_of_uid(uid: i32) -> int {
    if uid <= 0 {
        0
    } else {
        uid as int / 100000
    }
}

/// The Android user of an app UID.
pub fn android_user_id(uid: i32) -> (u: u32)
    ensures
        u as int == user_of_uid(uid),
{
    if uid <= 0 {
        return 0;
    }
    (uid as u32) / AID_USER_OFFSET
}

/// A UID built from a user and an app ID gives that user back.
pub proof fn lemma_user_of_uid(user: int, app_id: int)
    requires
        0 <= app_id < 100000,
        0 <= user,
        0 < user * 100000 + app_id <= i32::MAX,
    ensures
        user_of_uid((user * 100000 + app_id) as i32) == user,
{
    assert((user * 100000 + app_id) / 100000 == user) by (nonlinear_arith)
        requires
            0 <= app_id < 100000,
            0 <= user,
    ;
}

/// The package of a process: the last path segment of its data directory,
/// or, when that is empty, its nice name up to the first `:`.
pub open spec fn package_of(app_data_dir: Seq<char>, nice_name: Seq<char>) -> Seq<char> {
    if after_last(app_data_dir, '/').len() > 0 {
        after_last(app_data_dir, '/')
    } else {
        before_first(nice_name, ':')
    }
}

/// The package name of a process being specialized.
pub fn package_name_from(app_data_dir: &str, nice_name: &str) -> (p: String)
    ensures
        p@ == package_of(app_data_dir@, nice_name@),
{
    let last = text_after_last(app_data_dir, '/');
    if !last.as_str().is_empty() {
        return last;
    }
    text_before_first(nice_name, ':')
}

/// `package@user`, the key under which a per-user profile is configured.
pub open spec fn package_with_user(pkg: Seq<char>, user: u32) -> Seq<char> {
    pkg + "@"@ + decimal(user as nat)
}

/// `package@user`.
pub fn package_with_user_name(package_name: &str, user_id: u32) -> (s: String)
    ensures
        s@ == package_with_user(package_name@, user_id),
{
    let user = u32_to_decimal(user_id);
    concat3(package_name, "@", user.as_str())
}

/// Whether the configuration has a profile for `pkg`, directly or by template.
pub open spec fn has_profile(config: Config, pkg: Seq<char>) -> bool {
    app_for(config.apps@, pkg) is Some || template_for(config.templates.pairs(), pkg) is Some
}

/// The profile for a process: the one for `package@user` when there is one,
/// else the one for the package.
pub open spec fn selected_profile(config: Config, pkg: Seq<char>, user: u32, r: Option<MergedAppConfig>) -> bool {
    if has_profile(config, package_with_user(pkg, user)) {
        merged_config_for(config, package_with_user(pkg, user), r)
    } else {
        merged_config_for(config, pkg, r)
    }
}

/// The merged profile for a process: the per-user entry first, then the package.
pub fn select_merged_config(config: &Config, package_name: &str, user_id: u32) -> (r: Option<MergedAppConfig>)
    ensures
        selected_profile(*config, package_name@, user_id, r),
        r is Some <==> (has_profile(*config, package_with_user(package_name@, user_id)) || has_profile(
            *config,
            package_name@,
        )),
{
    let with_user = package_with_user_name(package_name, user_id);
    match config.get_merged_config(with_user.as_str()) {
        Some(m) => Some(m),
        None => config.get_merged_config(package_name),
    }
}

/// What a process asks for once its profile is known.
pub struct SpecializePlan {
    /// The merged profile.
    pub merged: MergedAppConfig,
    /// The system properties to set.
    pub prop_map: KeyedMap<String>,
    /// The system properties to delete.
    pub delete_props: Vec<String>,
}

/// The plan for a process, or `None` when no profile applies (the module
/// then unloads itself).
pub fn plan_app_specialize(config: &Config, package_name: &str, user_id: u32) -> (r: Option<SpecializePlan>)
    ensures
        r is None <==> !(has_profile(*config, package_with_user(package_name@, user_id)) || has_profile(
            *config,
            package_name@,
        )),
        r matches Some(p) ==> {
            &&& selected_profile(*config, package_name@, user_id, Some(p.merged))
            &&& p.prop_map.str_view() == property_map(p.merged)
            &&& strings_of(p.delete_props@) == delete_props(p.merged)
        },
{
    match select_merged_config(config, package_name, user_id) {
        Some(merged) => {
            let prop_map = Config::build_merged_property_map(&merged);
            let delete_props = Config::build_delete_props_list(&merged);
            Some(SpecializePlan { merged, prop_map, delete_props })
        },
        None => None,
    }
}

/// The properties to hand to the companion's resetprop: the whole property
/// map in companion mode, else the properties that in-process patching could
/// not place (a later pair with the same key wins).
pub fn props_for_companion(plan: &SpecializePlan, unfound: &Vec<(String, String)>) -> (r: KeyedMap<
    String,
>)
    ensures
        plan.merged.companion_resetprop ==> r.str_view() == plan.prop_map.str_view(),
        !plan.merged.companion_resetprop ==> r.str_view() == map_of_pairs(pair_strings(unfound@)),
{
    if plan.merged.companion_resetprop {
        return plan.prop_map.clone();
    }
    let mut m: KeyedMap<String> = KeyedMap::new();
    assert(m.str_pairs() =~= Seq::<(Seq<char>, Seq<char>)>::empty());
    let ghost start = m.str_view();
    let n = unfound.len();
    let mut i: usize = 0;
    while i < n
        invariant
            n == unfound@.len(),
            0 <= i <= n,
            start == Map::<Seq<char>, Seq<char>>::empty(),
            m.str_view() == apply_pairs(start, pair_strings(unfound@.take(i as int))),
        decreases n - i,
    {
        let ghost before = pair_strings(unfound@.take(i as int));
        let k = unfound[i].0.clone();
        let v = unfound[i].1.clone();
        m.set(k, v);
        proof {
            assert(pair_strings(unfound@.take(i + 1)) =~= before.push((unfound@[i as int].0@, unfound@[i as int].1@)));
            lemma_apply_push(start, before, (unfound@[i as int].0@, unfound@[i as int].1@));
        }
        i = i + 1;
    }
    assert(unfound@.take(n as int) =~= unfound@);
    m
}

/// The companion is called only when there is something to set or delete.
pub fn should_call_companion(set: &KeyedMap<String>, deletes: &Vec<String>) -> (b: bool)
    ensures
        b == (set.str_pairs().len() > 0 || deletes@.len() > 0),
{
    !set.is_empty() || deletes.len() > 0
}

} // verus!
