//! Which static fields of `android.os.Build` and `android.os.Build.VERSION`
//! a merged profile overrides, and with what.

use vstd::prelude::*;

use crate::config::MergedAppConfig;
use crate::hooks::pair_strings;
use crate::keyed_map::has_key;
use crate::property_laws::lemma_has_key_concat;
use crate::property_map::{when_filled, Writes};
use crate::strings::is_filled;

verus! {

/// The field assignments a profile asks for.
pub struct BuildFieldPlan {
    /// `android.os.Build` string fields and their new values, in order.
    pub build_fields: Vec<(String, String)>,
    /// New value of `Build.VERSION.RELEASE`, if any.
    pub version_release: Option<String>,
    /// New value of `Build.VERSION.SDK_INT`, if any.
    pub sdk_int: Option<i32>,
}

/// The `android.os.Build` string fields set, in order; empty values are skipped.
pub open spec fn build_field_writes(m: MergedAppConfig) -> Writes {
    when_filled(m.manufacturer, seq!["MANUFACTURER"@])
        + when_filled(m.brand, seq!["BRAND"@])
        + when_filled(m.model, seq!["MODEL"@])
        + when_filled(m.device, seq!["DEVICE"@])
        + when_filled(m.product, seq!["PRODUCT"@])
        + when_filled(m.hardware, seq!["HARDWARE"@])
        + when_filled(m.fingerprint, seq!["FINGERPRINT"@])
        + when_filled(m.build_id, seq!["ID"@])
}

fn push_filled(fields: &mut Vec<(String, String)>, value: &Option<String>, field: &str)
    ensures
        pair_strings(final(fields)@) == pair_strings(old(fields)@) + when_filled(*value, seq![field@]),
{
    let ghost prev = fields@;
    match value {
        Some(v) => {
            if !v.as_str().is_empty() {
                fields.push((field.to_owned(), v.clone()));
                assert(pair_strings(fields@) =~= pair_strings(prev) + when_filled(*value, seq![field@]));
            } else {
                assert(pair_strings(fields@) =~= pair_strings(prev) + when_filled(*value, seq![field@]));
            }
        },
        None => {
            assert(pair_strings(fields@) =~= pair_strings(prev) + when_filled(*value, seq![field@]));
        },
    }
}

/// The `Build` and `Build.VERSION` field values a profile overrides: string
/// fields only when the profile gives a non-empty value, `SDK_INT` as the
/// 32-bit signed reinterpretation of the configured level.
pub fn plan_build_fields(merged: &MergedAppConfig) -> (plan: BuildFieldPlan)
    ensures
        pair_strings(plan.build_fields@) == build_field_writes(*merged),
        plan.version_release == (if merged.android_version is Some && merged.android_version->0@.len()
            > 0 {
            merged.android_version
        } else {
            None
        }),
        plan.sdk_int == match merged.sdk_int {
            Some(n) => Some(n as i32),
            None => None,
        },
{
    let mut fields: Vec<(String, String)> = Vec::new();
    let ghost mut acc = Seq::<(Seq<char>, Seq<char>)>::empty();
    assert(pair_strings(fields@) =~= acc);
    push_filled(&mut fields, &merged.manufacturer, "MANUFACTURER");
    proof { acc = acc + when_filled(merged.manufacturer, seq!["MANUFACTURER"@]); }
    push_filled(&mut fields, &merged.brand, "BRAND");
    proof { acc = acc + when_filled(merged.brand, seq!["BRAND"@]); }
    push_filled(&mut fields, &merged.model, "MODEL");
    proof { acc = acc + when_filled(merged.model, seq!["MODEL"@]); }
    push_filled(&mut fields, &merged.device, "DEVICE");
    proof { acc = acc + when_filled(merged.device, seq!["DEVICE"@]); }
    push_filled(&mut fields, &merged.product, "PRODUCT");
    proof { acc = acc + when_filled(merged.product, seq!["PRODUCT"@]); }
    push_filled(&mut fields, &merged.hardware, "HARDWARE");
    proof { acc = acc + when_filled(merged.hardware, seq!["HARDWARE"@]); }
    push_filled(&mut fields, &merged.fingerprint, "FINGERPRINT");
    proof { acc = acc + when_filled(merged.fingerprint, seq!["FINGERPRINT"@]); }
    push_filled(&mut fields, &merged.build_id, "ID");
    proof { acc = acc + when_filled(merged.build_id, seq!["ID"@]); }
    assert(acc =~= build_field_writes(*merged));
    let version_release = match &merged.android_version {
        Some(v) => if !v.as_str().is_empty() {
            Some(v.clone())
        } else {
            None
        },
        None => None,
    };
    let sdk_int = match merged.sdk_int {
        Some(n) => Some(n as i32),
        None => None,
    };
    BuildFieldPlan { build_fields: fields, version_release, sdk_int }
}

// ── Which fields are set ──────────────────────────────────────────────────

/// In `ws`, the field `name` is set exactly when `v` is present and not
/// empty, and every assignment to it gives `v`.
pub open spec fn sets_field_to(ws: Writes, name: Seq<char>, v: Option<String>) -> bool {
    &&& has_key(ws, name) == is_filled(v)
    &&& forall|i: int| 0 <= i < ws.len() && #[trigger] ws[i].0 == name ==> ws[i].1 == v->0@
}

/// Assignments of the filled values among `cs`, in order.
spec fn filled_fold(cs: Seq<(Seq<char>, Option<String>)>) -> Writes
    decreases cs.len(),
{
    if cs.len() == 0 {
        Seq::empty()
    } else {
        filled_fold(cs.drop_last()) + when_filled(cs.last().1, seq![cs.last().0])
    }
}

proof fn lemma_fold_keys(cs: Seq<(Seq<char>, Option<String>)>, k: Seq<char>)
    requires
        has_key(filled_fold(cs), k),
    ensures
        exists|a: int| 0 <= a < cs.len() && #[trigger] cs[a].0 == k,
    decreases cs.len(),
{
    let front = cs.drop_last();
    let w = when_filled(cs.last().1, seq![cs.last().0]);
    lemma_has_key_concat(filled_fold(front), w, k);
    if has_key(filled_fold(front), k) {
        lemma_fold_keys(front, k);
        let a = choose|a: int| 0 <= a < front.len() && #[trigger] front[a].0 == k;
        assert(cs[a].0 == k);
    } else {
        let i = choose|i: int| 0 <= i < w.len() && #[trigger] w[i].0 == k;
        assert(cs[cs.len() - 1].0 == k);
    }
}

proof fn lemma_fold_field(cs: Seq<(Seq<char>, Option<String>)>, j: int)
    requires
        0 <= j < cs.len(),
        forall|a: int, b: int| 0 <= a < b < cs.len() ==> #[trigger] cs[a].0 != #[trigger] cs[b].0,
    ensures
        sets_field_to(filled_fold(cs), cs[j].0, cs[j].1),
    decreases cs.len(),
{
    let front = cs.drop_last();
    let last = cs.len() - 1;
    let name = cs[j].0;
    let f = filled_fold(front);
    let w = when_filled(cs.last().1, seq![cs.last().0]);
    let ws = filled_fold(cs);
    assert(ws == f + w);
    lemma_has_key_concat(f, w, name);
    if j == last {
        if has_key(f, name) {
            lemma_fold_keys(front, name);
            let a = choose|a: int| 0 <= a < front.len() && #[trigger] front[a].0 == name;
            assert(cs[a].0 == cs[last].0);
        }
        assert(has_key(w, name) == is_filled(cs[j].1)) by {
            if is_filled(cs[j].1) {
                assert(w[0].0 == name);
            }
        }
        assert forall|i: int| 0 <= i < ws.len() && #[trigger] ws[i].0 == name implies ws[i].1 == cs[j].1->0@ by {
            if i < f.len() {
                assert(ws[i] == f[i]);
                assert(has_key(f, name));
            } else {
                assert(ws[i] == w[i - f.len()]);
            }
        }
    } else {
        assert forall|a: int, b: int| 0 <= a < b < front.len() implies #[trigger] front[a].0 != #[trigger] front[b].0 by {
            assert(front[a] == cs[a] && front[b] == cs[b]);
        }
        assert(front[j] == cs[j]);
        lemma_fold_field(front, j);
        assert(cs[last].0 != name);
        assert(!has_key(w, name));
        assert forall|i: int| 0 <= i < ws.len() && #[trigger] ws[i].0 == name implies ws[i].1 == cs[j].1->0@ by {
            if i < f.len() {
                assert(ws[i] == f[i]);
            } else {
                assert(ws[i] == w[i - f.len()]);
                assert(w[i - f.len()].0 == name);
            }
        }
    }
}

/// Each `Build` field that a profile names is set exactly when the profile's
/// value is present and not empty, and then to that value: `MANUFACTURER`,
/// `BRAND`, `MODEL`, `DEVICE`, `PRODUCT`, `HARDWARE`, `FINGERPRINT` and `ID`.
pub proof fn lemma_build_fields_follow_profile(m: MergedAppConfig)
    ensures
        sets_field_to(build_field_writes(m), "MANUFACTURER"@, m.manufacturer),
        sets_field_to(build_field_writes(m), "BRAND"@, m.brand),
        sets_field_to(build_field_writes(m), "MODEL"@, m.model),
        sets_field_to(build_field_writes(m), "DEVICE"@, m.device),
        sets_field_to(build_field_writes(m), "PRODUCT"@, m.product),
        sets_field_to(build_field_writes(m), "HARDWARE"@, m.hardware),
        sets_field_to(build_field_writes(m), "FINGERPRINT"@, m.fingerprint),
        sets_field_to(build_field_writes(m), "ID"@, m.build_id),
{
    reveal_strlit("MANUFACTURER");
    reveal_strlit("BRAND");
    reveal_strlit("MODEL");
    reveal_strlit("DEVICE");
    reveal_strlit("PRODUCT");
    reveal_strlit("HARDWARE");
    reveal_strlit("FINGERPRINT");
    reveal_strlit("ID");
    let cs = seq![
        ("MANUFACTURER"@, m.manufacturer),
        ("BRAND"@, m.brand),
        ("MODEL"@, m.model),
        ("DEVICE"@, m.device),
        ("PRODUCT"@, m.product),
        ("HARDWARE"@, m.hardware),
        ("FINGERPRINT"@, m.fingerprint),
        ("ID"@, m.build_id),
    ];
    assert(filled_fold(cs) == build_field_writes(m)) by {
        reveal_with_fuel(filled_fold, 9);
        assert(cs.drop_last().drop_last().drop_last().drop_last().drop_last().drop_last().drop_last().drop_last()
            =~= Seq::<(Seq<char>, Option<String>)>::empty());
        assert(filled_fold(cs) =~= build_field_writes(m));
    }
    assert("MANUFACTURER"@.len() != "BRAND"@.len());
    assert("MANUFACTURER"@.len() != "MODEL"@.len());
    assert("MANUFACTURER"@.len() != "DEVICE"@.len());
    assert("MANUFACTURER"@.len() != "PRODUCT"@.len());
    assert("MANUFACTURER"@.len() != "HARDWARE"@.len());
    assert("MANUFACTURER"@.len() != "FINGERPRINT"@.len());
    assert("MANUFACTURER"@.len() != "ID"@.len());
    assert("BRAND"@[0] != "MODEL"@[0]);
    assert("BRAND"@.len() != "DEVICE"@.len());
    assert("BRAND"@.len() != "PRODUCT"@.len());
    assert("BRAND"@.len() != "HARDWARE"@.len());
    assert("BRAND"@.len() != "FINGERPRINT"@.len());
    assert("BRAND"@.len() != "ID"@.len());
    assert("MODEL"@.len() != "DEVICE"@.len());
    assert("MODEL"@.len() != "PRODUCT"@.len());
    assert("MODEL"@.len() != "HARDWARE"@.len());
    assert("MODEL"@.len() != "FINGERPRINT"@.len());
    assert("MODEL"@.len() != "ID"@.len());
    assert("DEVICE"@.len() != "PRODUCT"@.len());
    assert("DEVICE"@.len() != "HARDWARE"@.len());
    assert("DEVICE"@.len() != "FINGERPRINT"@.len());
    assert("DEVICE"@.len() != "ID"@.len());
    assert("PRODUCT"@.len() != "HARDWARE"@.len());
    assert("PRODUCT"@.len() != "FINGERPRINT"@.len());
    assert("PRODUCT"@.len() != "ID"@.len());
    assert("HARDWARE"@.len() != "FINGERPRINT"@.len());
    assert("HARDWARE"@.len() != "ID"@.len());
    assert("FINGERPRINT"@.len() != "ID"@.len());
    assert forall|a: int, b: int| 0 <= a < b < cs.len() implies #[trigger] cs[a].0 != #[trigger] cs[b].0 by {
        assert(a == 0 || a == 1 || a == 2 || a == 3 || a == 4 || a == 5 || a == 6);
        assert(b == 1 || b == 2 || b == 3 || b == 4 || b == 5 || b == 6 || b == 7);
    }
    lemma_fold_field(cs, 0);
    lemma_fold_field(cs, 1);
    lemma_fold_field(cs, 2);
    lemma_fold_field(cs, 3);
    lemma_fold_field(cs, 4);
    lemma_fold_field(cs, 5);
    lemma_fold_field(cs, 6);
    lemma_fold_field(cs, 7);
}

} // verus!
