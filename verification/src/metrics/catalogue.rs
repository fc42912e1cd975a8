//! The families of the exposition: what they are called and what they say, and
//! that no two of them share a name.

use vstd::prelude::*;

use crate::double::{fixed_text, Binary};
use crate::metrics::exposition::{
    all_families, copy_latency, cpu_plan_outcomes, decode_families, families_text,
    histogram_family, kv_families, labelled, lookup_families, mixed_fallbacks,
    mixed_outcomes, model_labels, outcome_families, pages_by_placement, phase_families,
    pipeline_families, placement_families, prometheus_text, request_families, routes_by_locality,
    scheduler_families, speculation_families, ticks_by_plan, tier_families, FamilyView,
};
use crate::metrics::lines::{
    families_named, is_name, is_plain, law_histograms_state_their_type_once, lemma_families,
    lemma_joined, lemma_label, lemma_model_labels, lemma_numbers_one_line, one_line, same_name,
    type_lines, whole_lines,
};
use crate::metrics::server::ServerMetrics;
use crate::text::{decimal, signed_decimal};

verus! {

/// The characters from `a` to before `b` are neither blanks nor line breaks.
spec fn unbroken(s: Seq<char>, a: int, b: int) -> bool
    decreases b - a,
{
    if b - a <= 1 {
        a < b ==> s[a] != '\n' && s[a] != ' '
    } else {
        unbroken(s, a, (a + b) / 2) && unbroken(s, (a + b) / 2, b)
    }
}

/// The characters from `a` to before `b` are no line breaks.
spec fn in_line(s: Seq<char>, a: int, b: int) -> bool
    decreases b - a,
{
    if b - a <= 1 {
        a < b ==> s[a] != '\n'
    } else {
        in_line(s, a, (a + b) / 2) && in_line(s, (a + b) / 2, b)
    }
}

/// The sum of the characters from `a` to before `b`.
spec fn total(s: Seq<char>, a: int, b: int) -> int
    decreases b - a,
{
    if b <= a {
        0
    } else if b == a + 1 {
        s[a] as int
    } else {
        total(s, a, (a + b) / 2) + total(s, (a + b) / 2, b)
    }
}

/// A number that tells the names of the families apart: the sum of their
/// characters, and the first letter after the common prefix.
spec fn weight(s: Seq<char>) -> int {
    128 * total(s, 0, s.len() as int) + s[6] as int
}

proof fn lemma_unbroken(s: Seq<char>, a: int, b: int)
    requires
        unbroken(s, a, b),
    ensures
        forall|i: int| a <= i < b ==> s[i] != '\n' && s[i] != ' ',
    decreases b - a,
{
    if b - a > 1 {
        lemma_unbroken(s, a, (a + b) / 2);
        lemma_unbroken(s, (a + b) / 2, b);
    }
}

proof fn lemma_in_line(s: Seq<char>, a: int, b: int)
    requires
        in_line(s, a, b),
    ensures
        forall|i: int| a <= i < b ==> s[i] != '\n',
    decreases b - a,
{
    if b - a > 1 {
        lemma_in_line(s, a, (a + b) / 2);
        lemma_in_line(s, (a + b) / 2, b);
    }
}

/// The place of a name in the list of all families, found by its weight.
spec fn place(weight: int) -> nat {
    match weight as u64 {
        276850 => 0,
        380020 => 1,
        345588 => 2,
        367474 => 3,
        358512 => 4,
        314864 => 5,
        284784 => 6,
        438128 => 7,
        538864 => 8,
        299376 => 9,
        396400 => 10,
        410992 => 11,
        437235 => 12,
        452467 => 13,
        660083 => 14,
        539760 => 15,
        365805 => 16,
        369266 => 17,
        547056 => 18,
        479216 => 19,
        436976 => 20,
        502256 => 21,
        354544 => 22,
        382320 => 23,
        399088 => 24,
        553588 => 25,
        551156 => 26,
        579956 => 27,
        515316 => 28,
        414068 => 29,
        374516 => 30,
        336612 => 31,
        457188 => 32,
        371556 => 33,
        327780 => 34,
        426733 => 35,
        495725 => 36,
        484845 => 37,
        586605 => 38,
        599917 => 39,
        565229 => 40,
        288114 => 41,
        303346 => 42,
        391667 => 43,
        393715 => 44,
        407155 => 45,
        497651 => 46,
        515315 => 47,
        390259 => 48,
        407923 => 49,
        362867 => 50,
        448371 => 51,
        665075 => 52,
        637299 => 53,
        619635 => 54,
        596467 => 55,
        611443 => 56,
        556659 => 57,
        531315 => 58,
        383216 => 59,
        465648 => 60,
        521456 => 61,
        626547 => 62,
        622707 => 63,
        775155 => 64,
        648307 => 65,
        527859 => 66,
        454130 => 67,
        375026 => 68,
        372722 => 69,
        438770 => 70,
        413682 => 71,
        411890 => 72,
        504818 => 73,
        506354 => 74,
        596978 => 75,
        497138 => 76,
        443506 => 77,
        509170 => 78,
        455538 => 79,
        415218 => 80,
        423027 => 81,
        410354 => 82,
        383346 => 83,
        509426 => 84,
        436723 => 85,
        489331 => 86,
        483571 => 87,
        352243 => 88,
        484336 => 89,
        600944 => 90,
        393843 => 91,
        434419 => 92,
        431731 => 93,
        465779 => 94,
        346099 => 95,
        476267 => 96,
        350955 => 97,
        298475 => 98,
        355435 => 99,
        412139 => 100,
        409579 => 101,
        365547 => 102,
        394347 => 103,
        365419 => 104,
        369899 => 105,
        391540 => 106,
        396020 => 107,
        331115 => 108,
        323307 => 109,
        339947 => 110,
        341741 => 111,
        313709 => 112,
        324333 => 113,
        327025 => 114,
        339809 => 115,
        246260 => 116,
        246900 => 117,
        285043 => 118,
        220901 => 119,
        380403 => 120,
        354291 => 121,
        _ => 122,
    }
}

/// The texts of a family break no line, and its name stands at place `k`.
#[verifier::opaque]
spec fn spelled(name: Seq<char>, help: Seq<char>, k: nat) -> bool {
    is_name(name) && one_line(help) && place(weight(name)) == k
}

proof fn lemma_spelled(name: Seq<char>, n: int, w: int, help: Seq<char>, h: int)
    requires
        n == name.len() > 0,
        name[0] != '#',
        unbroken(name, 0, n),
        128 * total(name, 0, n) + name[6] as int == w,
        h == help.len(),
        in_line(help, 0, h),
    ensures
        spelled(name, help, place(w)),
{
    reveal(spelled);
    lemma_unbroken(name, 0, n);
    lemma_in_line(help, 0, h);
}

/// A family with a single sample that no label tells apart.
spec fn is_single(f: FamilyView) -> bool {
    &&& f.samples.len() == 1
    &&& f.samples[0].label.len() == 0
    &&& one_line(f.samples[0].value)
}

/// No sample of the family breaks a line.
spec fn has_plain_samples(f: FamilyView) -> bool {
    forall|i: int|
        0 <= i < f.samples.len() ==> one_line((#[trigger] f.samples[i]).label) && one_line(
            f.samples[i].value,
        )
}

/// The family breaks no line, and its name stands at place `k`.
spec fn is_entry(f: FamilyView, k: nat) -> bool {
    &&& spelled(f.name, f.help, k)
    &&& one_line(f.kind)
    &&& is_single(f) || has_plain_samples(f)
}

proof fn lemma_kinds()
    ensures
        one_line("counter"@),
        one_line("gauge"@),
{
    reveal_strlit("counter");
    reveal_strlit("gauge");
    reveal_with_fuel(in_line, 5);
    lemma_in_line("counter"@, 0, 7);
    lemma_in_line("gauge"@, 0, 5);
}

/// The first `n` families stand at the places from `from` on.
spec fn listed(fs: Seq<FamilyView>, from: nat, n: nat) -> bool
    decreases n,
{
    n == 0 || (is_entry(fs[n - 1], (from + n - 1) as nat) && listed(fs, from, (n - 1) as nat))
}

/// The place of a family's name.
spec fn place_of(f: FamilyView) -> nat {
    place(weight(f.name))
}

/// All families are plain, and their names stand at ascending places from `from`
/// to before `to`.
spec fn ascends(fs: Seq<FamilyView>, from: nat, to: nat) -> bool {
    &&& forall|i: int|
        0 <= i < fs.len() ==> is_plain(#[trigger] fs[i]) && from <= place_of(fs[i]) < to
    &&& forall|i: int, j: int|
        0 <= i < j < fs.len() ==> place_of(#[trigger] fs[i]) < place_of(#[trigger] fs[j])
}

proof fn lemma_listed(fs: Seq<FamilyView>, from: nat, n: nat)
    requires
        listed(fs, from, n),
        n <= fs.len(),
    ensures
        forall|i: int|
            0 <= i < n ==> is_plain(#[trigger] fs[i]) && place_of(fs[i]) == from + i,
    decreases n,
{
    if n > 0 {
        reveal(spelled);
        lemma_listed(fs, from, (n - 1) as nat);
    }
}

proof fn lemma_ascends(fs: Seq<FamilyView>, from: nat, n: nat)
    requires
        listed(fs, from, n),
        n == fs.len(),
    ensures
        ascends(fs, from, from + n),
{
    lemma_listed(fs, from, n);
}

proof fn lemma_ascends_on(
    a: Seq<FamilyView>,
    b: Seq<FamilyView>,
    from: nat,
    middle: nat,
    to: nat,
)
    requires
        ascends(a, from, middle),
        ascends(b, middle, to),
        from <= middle <= to,
    ensures
        ascends(a + b, from, to),
{
    let fs = a + b;
    assert forall|i: int| 0 <= i < fs.len() implies is_plain(#[trigger] fs[i]) && from <= place_of(
        fs[i],
    ) < to by {
        if i < a.len() {
            assert(fs[i] == a[i]);
        } else {
            assert(fs[i] == b[i - a.len()]);
        }
    }
    assert forall|i: int, j: int| 0 <= i < j < fs.len() implies place_of(#[trigger] fs[i])
        < place_of(#[trigger] fs[j]) by {
        if j < a.len() {
            assert(fs[i] == a[i] && fs[j] == a[j]);
        } else if i < a.len() {
            assert(fs[i] == a[i] && fs[j] == b[j - a.len()]);
        } else {
            assert(fs[i] == b[i - a.len()] && fs[j] == b[j - a.len()]);
        }
    }
}

proof fn lemma_numbers()
    ensures
        forall|n: nat| one_line(#[trigger] decimal(n)),
        forall|z: int| one_line(#[trigger] signed_decimal(z)),
        forall|x: Binary, places: nat| one_line(#[trigger] fixed_text(x, places)),
{
    let none = Binary { mantissa: 0, exponent: 0 };
    assert forall|n: nat| one_line(#[trigger] decimal(n)) by {
        lemma_numbers_one_line(n, 0, none, 0);
    }
    assert forall|z: int| one_line(#[trigger] signed_decimal(z)) by {
        lemma_numbers_one_line(0, z, none, 0);
    }
    assert forall|x: Binary, places: nat| one_line(#[trigger] fixed_text(x, places)) by {
        lemma_numbers_one_line(0, 0, x, places);
    }
}

/// A sample that a label tells apart breaks no line.
proof fn lemma_labelled(key: Seq<char>, k: int, label: Seq<char>, l: int, value: nat)
    requires
        k == key.len(),
        in_line(key, 0, k),
        l == label.len(),
        in_line(label, 0, l),
    ensures
        one_line(labelled(key, label, value).label),
        one_line(labelled(key, label, value).value),
{
    lemma_in_line(key, 0, k);
    lemma_in_line(label, 0, l);
    lemma_label(key, label);
    lemma_numbers();
}

proof fn lemma_cpu_plan_outcomes(m: ServerMetrics)
    ensures
        is_entry(cpu_plan_outcomes(m), 66),
{
    reveal_with_fuel(unbroken, 8);
    reveal_with_fuel(total, 8);
    reveal_with_fuel(in_line, 8);
    lemma_kinds();
    let name = "infer_scheduler_pipeline_cpu_plan_total"@;
    let help = "Scheduler CPU candidate-plan validation outcomes."@;
    assert(spelled(name, help, 66)) by {
        reveal_strlit("infer_scheduler_pipeline_cpu_plan_total");
        reveal_strlit("Scheduler CPU candidate-plan validation outcomes.");
        lemma_spelled(name, 39, 527859, help, 49);
    }
    reveal_strlit("outcome");
    let f = cpu_plan_outcomes(m);
    assert(one_line(f.samples[0].label) && one_line(f.samples[0].value)) by {
        reveal_strlit("accept");
        lemma_labelled(
            "outcome"@,
            7,
            "accept"@,
            6,
            m.scheduler_pipeline_cpu_plan_accept_total as nat,
        );
    }
    assert(one_line(f.samples[1].label) && one_line(f.samples[1].value)) by {
        reveal_strlit("stale");
        lemma_labelled(
            "outcome"@,
            7,
            "stale"@,
            5,
            m.scheduler_pipeline_cpu_plan_stale_total as nat,
        );
    }
    assert forall|i: int| 0 <= i < f.samples.len() implies one_line(
        (#[trigger] f.samples[i]).label,
    ) && one_line(f.samples[i].value) by {
        assert(i == 0 || i == 1);
    }
}

proof fn lemma_pages_by_placement(m: ServerMetrics)
    ensures
        is_entry(pages_by_placement(m), 83),
{
    reveal_with_fuel(unbroken, 8);
    reveal_with_fuel(total, 8);
    reveal_with_fuel(in_line, 8);
    lemma_kinds();
    let name = "infer_runtime_numastat_pages"@;
    let help = "Process memory pages by runtime placement locality."@;
    assert(spelled(name, help, 83)) by {
        reveal_strlit("infer_runtime_numastat_pages");
        reveal_strlit("Process memory pages by runtime placement locality.");
        lemma_spelled(name, 28, 383346, help, 51);
    }
    reveal_strlit("placement");
    let f = pages_by_placement(m);
    assert(one_line(f.samples[0].label) && one_line(f.samples[0].value)) by {
        reveal_strlit("local");
        lemma_labelled(
            "placement"@,
            9,
            "local"@,
            5,
            m.runtime_topology.numastat_local_pages as nat,
        );
    }
    assert(one_line(f.samples[1].label) && one_line(f.samples[1].value)) by {
        reveal_strlit("remote");
        lemma_labelled(
            "placement"@,
            9,
            "remote"@,
            6,
            m.runtime_topology.numastat_remote_pages as nat,
        );
    }
    assert(one_line(f.samples[2].label) && one_line(f.samples[2].value)) by {
        reveal_strlit("total");
        lemma_labelled(
            "placement"@,
            9,
            "total"@,
            5,
            m.runtime_topology.numastat_total_pages as nat,
        );
    }
    assert forall|i: int| 0 <= i < f.samples.len() implies one_line(
        (#[trigger] f.samples[i]).label,
    ) && one_line(f.samples[i].value) by {
        assert(i == 0 || i == 1 || i == 2);
    }
}

proof fn lemma_copy_latency(m: ServerMetrics)
    ensures
        is_entry(copy_latency(m), 84),
{
    reveal_with_fuel(unbroken, 8);
    reveal_with_fuel(total, 8);
    reveal_with_fuel(in_line, 8);
    lemma_kinds();
    let name = "infer_runtime_h2d_latency_microseconds"@;
    let help = "Host-to-device copy latency."@;
    assert(spelled(name, help, 84)) by {
        reveal_strlit("infer_runtime_h2d_latency_microseconds");
        reveal_strlit("Host-to-device copy latency.");
        lemma_spelled(name, 38, 509426, help, 28);
    }
    reveal_strlit("stat");
    let f = copy_latency(m);
    assert(one_line(f.samples[0].label) && one_line(f.samples[0].value)) by {
        reveal_strlit("last");
        lemma_labelled("stat"@, 4, "last"@, 4, m.runtime_topology.h2d_latency_last_us as nat);
    }
    assert(one_line(f.samples[1].label) && one_line(f.samples[1].value)) by {
        reveal_strlit("max");
        lemma_labelled("stat"@, 4, "max"@, 3, m.runtime_topology.h2d_latency_max_us as nat);
    }
    assert forall|i: int| 0 <= i < f.samples.len() implies one_line(
        (#[trigger] f.samples[i]).label,
    ) && one_line(f.samples[i].value) by {
        assert(i == 0 || i == 1);
    }
}

proof fn lemma_routes_by_locality(m: ServerMetrics)
    ensures
        is_entry(routes_by_locality(m), 85),
{
    reveal_with_fuel(unbroken, 8);
    reveal_with_fuel(total, 8);
    reveal_with_fuel(in_line, 8);
    lemma_kinds();
    let name = "infer_scheduler_numa_route_total"@;
    let help = "NUMA router decisions by locality outcome."@;
    assert(spelled(name, help, 85)) by {
        reveal_strlit("infer_scheduler_numa_route_total");
        reveal_strlit("NUMA router decisions by locality outcome.");
        lemma_spelled(name, 32, 436723, help, 42);
    }
    reveal_strlit("outcome");
    let f = routes_by_locality(m);
    assert(one_line(f.samples[0].label) && one_line(f.samples[0].value)) by {
        reveal_strlit("local");
        lemma_labelled(
            "outcome"@,
            7,
            "local"@,
            5,
            m.runtime_topology.numa_route_local_total as nat,
        );
    }
    assert(one_line(f.samples[1].label) && one_line(f.samples[1].value)) by {
        reveal_strlit("cross");
        lemma_labelled(
            "outcome"@,
            7,
            "cross"@,
            5,
            m.runtime_topology.numa_route_cross_total as nat,
        );
    }
    assert(one_line(f.samples[2].label) && one_line(f.samples[2].value)) by {
        reveal_strlit("unknown");
        lemma_labelled(
            "outcome"@,
            7,
            "unknown"@,
            7,
            m.runtime_topology.numa_route_unknown_total as nat,
        );
    }
    assert forall|i: int| 0 <= i < f.samples.len() implies one_line(
        (#[trigger] f.samples[i]).label,
    ) && one_line(f.samples[i].value) by {
        assert(i == 0 || i == 1 || i == 2);
    }
}

proof fn lemma_ticks_by_plan(m: ServerMetrics)
    ensures
        is_entry(ticks_by_plan(m), 88),
{
    reveal_with_fuel(unbroken, 8);
    reveal_with_fuel(total, 8);
    reveal_with_fuel(in_line, 8);
    lemma_kinds();
    let name = "infer_scheduler_plan_total"@;
    let help = "Scheduler ticks by selected plan label."@;
    assert(spelled(name, help, 88)) by {
        reveal_strlit("infer_scheduler_plan_total");
        reveal_strlit("Scheduler ticks by selected plan label.");
        lemma_spelled(name, 26, 352243, help, 39);
    }
    reveal_strlit("plan");
    let f = ticks_by_plan(m);
    assert(one_line(f.samples[0].label) && one_line(f.samples[0].value)) by {
        reveal_strlit("idle");
        lemma_labelled("plan"@, 4, "idle"@, 4, m.scheduler_plan_idle_total as nat);
    }
    assert(one_line(f.samples[1].label) && one_line(f.samples[1].value)) by {
        reveal_strlit("decode");
        lemma_labelled("plan"@, 4, "decode"@, 6, m.scheduler_plan_decode_total as nat);
    }
    assert(one_line(f.samples[2].label) && one_line(f.samples[2].value)) by {
        reveal_strlit("prefill");
        lemma_labelled("plan"@, 4, "prefill"@, 7, m.scheduler_plan_prefill_total as nat);
    }
    assert(one_line(f.samples[3].label) && one_line(f.samples[3].value)) by {
        reveal_strlit("split");
        lemma_labelled("plan"@, 4, "split"@, 5, m.scheduler_plan_split_total as nat);
    }
    assert(one_line(f.samples[4].label) && one_line(f.samples[4].value)) by {
        reveal_strlit("mixed");
        lemma_labelled("plan"@, 4, "mixed"@, 5, m.scheduler_plan_mixed_total as nat);
    }
    assert forall|i: int| 0 <= i < f.samples.len() implies one_line(
        (#[trigger] f.samples[i]).label,
    ) && one_line(f.samples[i].value) by {
        assert(i == 0 || i == 1 || i == 2 || i == 3 || i == 4);
    }
}

proof fn lemma_mixed_outcomes(m: ServerMetrics)
    ensures
        is_entry(mixed_outcomes(m), 89),
{
    reveal_with_fuel(unbroken, 8);
    reveal_with_fuel(total, 8);
    reveal_with_fuel(in_line, 8);
    lemma_kinds();
    let name = "infer_prefill_path_mixed_batch_total"@;
    let help = "Mixed decode+prefill path outcomes."@;
    assert(spelled(name, help, 89)) by {
        reveal_strlit("infer_prefill_path_mixed_batch_total");
        reveal_strlit("Mixed decode+prefill path outcomes.");
        lemma_spelled(name, 36, 484336, help, 35);
    }
    reveal_strlit("outcome");
    let f = mixed_outcomes(m);
    assert(one_line(f.samples[0].label) && one_line(f.samples[0].value)) by {
        reveal_strlit("ok_true");
        lemma_labelled("outcome"@, 7, "ok_true"@, 7, m.prefill_path_mixed_ok_true_total as nat);
    }
    assert(one_line(f.samples[1].label) && one_line(f.samples[1].value)) by {
        reveal_strlit("ok_false");
        lemma_labelled("outcome"@, 7, "ok_false"@, 8, m.prefill_path_mixed_ok_false_total as nat);
    }
    assert forall|i: int| 0 <= i < f.samples.len() implies one_line(
        (#[trigger] f.samples[i]).label,
    ) && one_line(f.samples[i].value) by {
        assert(i == 0 || i == 1);
    }
}

proof fn lemma_mixed_fallbacks(m: ServerMetrics)
    ensures
        is_entry(mixed_fallbacks(m), 90),
{
    reveal_with_fuel(unbroken, 8);
    reveal_with_fuel(total, 8);
    reveal_with_fuel(in_line, 8);
    lemma_kinds();
    let name = "infer_prefill_path_mixed_batch_fallback_total"@;
    let help = "Mixed decode+prefill fallback reasons."@;
    assert(spelled(name, help, 90)) by {
        reveal_strlit("infer_prefill_path_mixed_batch_fallback_total");
        reveal_strlit("Mixed decode+prefill fallback reasons.");
        lemma_spelled(name, 45, 600944, help, 38);
    }
    reveal_strlit("reason");
    let f = mixed_fallbacks(m);
    assert(one_line(f.samples[0].label) && one_line(f.samples[0].value)) by {
        reveal_strlit("decode_slot_count_mismatch");
        lemma_labelled(
            "reason"@,
            6,
            "decode_slot_count_mismatch"@,
            26,
            m.prefill_path_mixed_decode_slot_count_mismatch_total as nat,
        );
    }
    assert(one_line(f.samples[1].label) && one_line(f.samples[1].value)) by {
        reveal_strlit("duplicate_prefill_slot");
        lemma_labelled(
            "reason"@,
            6,
            "duplicate_prefill_slot"@,
            22,
            m.prefill_path_mixed_duplicate_prefill_slot_total as nat,
        );
    }
    assert(one_line(f.samples[2].label) && one_line(f.samples[2].value)) by {
        reveal_strlit("empty_decode_batch");
        lemma_labelled(
            "reason"@,
            6,
            "empty_decode_batch"@,
            18,
            m.prefill_path_mixed_empty_decode_batch_total as nat,
        );
    }
    assert(one_line(f.samples[3].label) && one_line(f.samples[3].value)) by {
        reveal_strlit("empty_prefill_batch");
        lemma_labelled(
            "reason"@,
            6,
            "empty_prefill_batch"@,
            19,
            m.prefill_path_mixed_empty_prefill_batch_total as nat,
        );
    }
    assert(one_line(f.samples[4].label) && one_line(f.samples[4].value)) by {
        reveal_strlit("empty_prefill_tokens");
        lemma_labelled(
            "reason"@,
            6,
            "empty_prefill_tokens"@,
            20,
            m.prefill_path_mixed_empty_prefill_tokens_total as nat,
        );
    }
    assert(one_line(f.samples[5].label) && one_line(f.samples[5].value)) by {
        reveal_strlit("inactive_paged_pool");
        lemma_labelled(
            "reason"@,
            6,
            "inactive_paged_pool"@,
            19,
            m.prefill_path_mixed_inactive_paged_pool_total as nat,
        );
    }
    assert(one_line(f.samples[6].label) && one_line(f.samples[6].value)) by {
        reveal_strlit("lora_enabled");
        lemma_labelled(
            "reason"@,
            6,
            "lora_enabled"@,
            12,
            m.prefill_path_mixed_lora_enabled_total as nat,
        );
    }
    assert(one_line(f.samples[7].label) && one_line(f.samples[7].value)) by {
        reveal_strlit("prefill_seq_len_mismatch");
        lemma_labelled(
            "reason"@,
            6,
            "prefill_seq_len_mismatch"@,
            24,
            m.prefill_path_mixed_prefill_seq_len_mismatch_total as nat,
        );
    }
    assert(one_line(f.samples[8].label) && one_line(f.samples[8].value)) by {
        reveal_strlit("prefill_slot_in_decode_batch");
        lemma_labelled(
            "reason"@,
            6,
            "prefill_slot_in_decode_batch"@,
            28,
            m.prefill_path_mixed_prefill_slot_in_decode_batch_total as nat,
        );
    }
    assert(one_line(f.samples[9].label) && one_line(f.samples[9].value)) by {
        reveal_strlit("prefill_start_position_count_mismatch");
        lemma_labelled(
            "reason"@,
            6,
            "prefill_start_position_count_mismatch"@,
            37,
            m.prefill_path_mixed_prefill_start_position_count_mismatch_total as nat,
        );
    }
    assert(one_line(f.samples[10].label) && one_line(f.samples[10].value)) by {
        reveal_strlit("scheduler_pre_dispatch_fallback");
        lemma_labelled(
            "reason"@,
            6,
            "scheduler_pre_dispatch_fallback"@,
            31,
            m.prefill_path_mixed_scheduler_pre_dispatch_fallback_total as nat,
        );
    }
    assert(one_line(f.samples[11].label) && one_line(f.samples[11].value)) by {
        reveal_strlit("unsupported_kv_format");
        lemma_labelled(
            "reason"@,
            6,
            "unsupported_kv_format"@,
            21,
            m.prefill_path_mixed_unsupported_kv_format_total as nat,
        );
    }
    assert(one_line(f.samples[12].label) && one_line(f.samples[12].value)) by {
        reveal_strlit("unsupported_model");
        lemma_labelled(
            "reason"@,
            6,
            "unsupported_model"@,
            17,
            m.prefill_path_mixed_unsupported_model_total as nat,
        );
    }
    assert forall|i: int| 0 <= i < f.samples.len() implies one_line(
        (#[trigger] f.samples[i]).label,
    ) && one_line(f.samples[i].value) by {
        assert(i == 0 || i == 1 || i == 2 || i == 3 || i == 4 || i == 5 || i == 6 || i == 7 || i
            == 8 || i == 9 || i == 10 || i == 11 || i == 12);
    }
}

#[verifier::rlimit(60)]
proof fn lemma_request_families(m: ServerMetrics)
    ensures
        ascends(request_families(m), 0, 20),
{
    reveal_with_fuel(unbroken, 8);
    reveal_with_fuel(total, 8);
    reveal_with_fuel(in_line, 8);
    let name = "infer_requests_total"@;
    let help = "Total completed inference requests."@;
    assert(spelled(name, help, 0)) by {
        reveal_strlit("infer_requests_total");
        reveal_strlit("Total completed inference requests.");
        lemma_spelled(name, 20, 276850, help, 35);
    }
    let name = "infer_tokens_generated_total"@;
    let help = "Total output tokens generated."@;
    assert(spelled(name, help, 1)) by {
        reveal_strlit("infer_tokens_generated_total");
        reveal_strlit("Total output tokens generated.");
        lemma_spelled(name, 28, 380020, help, 30);
    }
    let name = "infer_tokens_prompt_total"@;
    let help = "Total prompt tokens processed."@;
    assert(spelled(name, help, 2)) by {
        reveal_strlit("infer_tokens_prompt_total");
        reveal_strlit("Total prompt tokens processed.");
        lemma_spelled(name, 25, 345588, help, 30);
    }
    let name = "infer_requests_failed_total"@;
    let help = "Total failed inference requests."@;
    assert(spelled(name, help, 3)) by {
        reveal_strlit("infer_requests_failed_total");
        reveal_strlit("Total failed inference requests.");
        lemma_spelled(name, 27, 367474, help, 32);
    }
    let name = "infer_prefix_lookups_total"@;
    let help = "Total prefix-cache lookups."@;
    assert(spelled(name, help, 4)) by {
        reveal_strlit("infer_prefix_lookups_total");
        reveal_strlit("Total prefix-cache lookups.");
        lemma_spelled(name, 26, 358512, help, 27);
    }
    let name = "infer_prefix_hits_total"@;
    let help = "Total reusable prefix-cache hits."@;
    assert(spelled(name, help, 5)) by {
        reveal_strlit("infer_prefix_hits_total");
        reveal_strlit("Total reusable prefix-cache hits.");
        lemma_spelled(name, 23, 314864, help, 33);
    }
    let name = "infer_prefix_hit_rate"@;
    let help = "Reusable prefix-cache hit rate [0,1]."@;
    assert(spelled(name, help, 6)) by {
        reveal_strlit("infer_prefix_hit_rate");
        reveal_strlit("Reusable prefix-cache hit rate [0,1].");
        lemma_spelled(name, 21, 284784, help, 37);
    }
    let name = "infer_prefix_reused_tokens_total"@;
    let help = "Prefix tokens skipped by reuse."@;
    assert(spelled(name, help, 7)) by {
        reveal_strlit("infer_prefix_reused_tokens_total");
        reveal_strlit("Prefix tokens skipped by reuse.");
        lemma_spelled(name, 32, 438128, help, 31);
    }
    let name = "infer_prefix_lookup_prompt_tokens_total"@;
    let help = "Prompt tokens seen by prefix lookup."@;
    assert(spelled(name, help, 8)) by {
        reveal_strlit("infer_prefix_lookup_prompt_tokens_total");
        reveal_strlit("Prompt tokens seen by prefix lookup.");
        lemma_spelled(name, 39, 538864, help, 36);
    }
    let name = "infer_prefix_skip_rate"@;
    let help = "Fraction of prompt tokens skipped by prefix reuse [0,1]."@;
    assert(spelled(name, help, 9)) by {
        reveal_strlit("infer_prefix_skip_rate");
        reveal_strlit("Fraction of prompt tokens skipped by prefix reuse [0,1].");
        lemma_spelled(name, 22, 299376, help, 56);
    }
    let name = "infer_prefix_request_hit_rate"@;
    let help = "Prefix-cache hit rate for the most recent lookup [0,1]."@;
    assert(spelled(name, help, 10)) by {
        reveal_strlit("infer_prefix_request_hit_rate");
        reveal_strlit("Prefix-cache hit rate for the most recent lookup [0,1].");
        lemma_spelled(name, 29, 396400, help, 55);
    }
    let name = "infer_prefix_request_skip_rate"@;
    let help = "Prefix-token skip rate for the most recent lookup [0,1]."@;
    assert(spelled(name, help, 11)) by {
        reveal_strlit("infer_prefix_request_skip_rate");
        reveal_strlit("Prefix-token skip rate for the most recent lookup [0,1].");
        lemma_spelled(name, 30, 410992, help, 56);
    }
    let name = "infer_session_affinity_hit_total"@;
    let help = "Session-tagged requests that reused a prefix."@;
    assert(spelled(name, help, 12)) by {
        reveal_strlit("infer_session_affinity_hit_total");
        reveal_strlit("Session-tagged requests that reused a prefix.");
        lemma_spelled(name, 32, 437235, help, 45);
    }
    let name = "infer_session_affinity_miss_total"@;
    let help = "Session-tagged requests without prefix reuse."@;
    assert(spelled(name, help, 13)) by {
        reveal_strlit("infer_session_affinity_miss_total");
        reveal_strlit("Session-tagged requests without prefix reuse.");
        lemma_spelled(name, 33, 452467, help, 45);
    }
    let name = "infer_session_slot_pressure_evictions_hard_total"@;
    let help = "Inactive session slots evicted under hard pressure."@;
    assert(spelled(name, help, 14)) by {
        reveal_strlit("infer_session_slot_pressure_evictions_hard_total");
        reveal_strlit("Inactive session slots evicted under hard pressure.");
        lemma_spelled(name, 48, 660083, help, 51);
    }
    let name = "infer_prefix_aware_admit_deferrals_total"@;
    let help = "Cold admission candidates deferred by PrefixAware soft-cap."@;
    assert(spelled(name, help, 15)) by {
        reveal_strlit("infer_prefix_aware_admit_deferrals_total");
        reveal_strlit("Cold admission candidates deferred by PrefixAware soft-cap.");
        lemma_spelled(name, 40, 539760, help, 59);
    }
    let name = "infer_matched_prefix_tokens"@;
    let help = "Matched prefix tokens for the most recent lookup."@;
    assert(spelled(name, help, 16)) by {
        reveal_strlit("infer_matched_prefix_tokens");
        reveal_strlit("Matched prefix tokens for the most recent lookup.");
        lemma_spelled(name, 27, 365805, help, 49);
    }
    let name = "infer_resume_prefill_tokens"@;
    let help = "Effective prefill tokens for the most recent lookup."@;
    assert(spelled(name, help, 17)) by {
        reveal_strlit("infer_resume_prefill_tokens");
        reveal_strlit("Effective prefill tokens for the most recent lookup.");
        lemma_spelled(name, 27, 369266, help, 52);
    }
    let name = "infer_prefix_lookup_latency_microseconds"@;
    let help = "Latency of the most recent scheduler prefix lookup."@;
    assert(spelled(name, help, 18)) by {
        reveal_strlit("infer_prefix_lookup_latency_microseconds");
        reveal_strlit("Latency of the most recent scheduler prefix lookup.");
        lemma_spelled(name, 40, 547056, help, 51);
    }
    let name = "infer_prefix_lookup_reusable_tokens"@;
    let help = "Reusable tokens selected by the most recent scheduler prefix lookup."@;
    assert(spelled(name, help, 19)) by {
        reveal_strlit("infer_prefix_lookup_reusable_tokens");
        reveal_strlit("Reusable tokens selected by the most recent scheduler prefix lookup.");
        lemma_spelled(name, 35, 479216, help, 68);
    }
    lemma_kinds();
    lemma_numbers();
    reveal(request_families);
    reveal_with_fuel(listed, 21);
    lemma_ascends(request_families(m), 0, 20);
}

#[verifier::rlimit(60)]
proof fn lemma_lookup_families(m: ServerMetrics)
    ensures
        ascends(lookup_families(m), 20, 25),
{
    reveal_with_fuel(unbroken, 8);
    reveal_with_fuel(total, 8);
    reveal_with_fuel(in_line, 8);
    let name = "infer_prefix_lookup_ready_on_gpu"@;
    let help = "Whether the most recent scheduler prefix lookup was fully ready on GPU."@;
    assert(spelled(name, help, 20)) by {
        reveal_strlit("infer_prefix_lookup_ready_on_gpu");
        reveal_strlit("Whether the most recent scheduler prefix lookup was fully ready on GPU.");
        lemma_spelled(name, 32, 436976, help, 71);
    }
    let name = "infer_prefix_lookup_direct_gpu_attach"@;
    let help = "Whether the most recent scheduler prefix lookup selected direct GPU attachment."@;
    assert(spelled(name, help, 21)) by {
        reveal_strlit("infer_prefix_lookup_direct_gpu_attach");
        reveal_strlit(
            "Whether the most recent scheduler prefix lookup selected direct GPU attachment.",
        );
        lemma_spelled(name, 37, 502256, help, 79);
    }
    let name = "infer_prefix_lookup_staged"@;
    let help = "Whether the most recent scheduler prefix lookup selected staged readmission."@;
    assert(spelled(name, help, 22)) by {
        reveal_strlit("infer_prefix_lookup_staged");
        reveal_strlit(
            "Whether the most recent scheduler prefix lookup selected staged readmission.",
        );
        lemma_spelled(name, 26, 354544, help, 76);
    }
    let name = "infer_prefix_lookup_prefetch"@;
    let help = "Whether the most recent staged prefix lookup queued prefetch."@;
    assert(spelled(name, help, 23)) by {
        reveal_strlit("infer_prefix_lookup_prefetch");
        reveal_strlit("Whether the most recent staged prefix lookup queued prefetch.");
        lemma_spelled(name, 28, 382320, help, 61);
    }
    let name = "infer_prefix_lookup_recompute"@;
    let help = "Whether the most recent scheduler prefix lookup advised recompute."@;
    assert(spelled(name, help, 24)) by {
        reveal_strlit("infer_prefix_lookup_recompute");
        reveal_strlit("Whether the most recent scheduler prefix lookup advised recompute.");
        lemma_spelled(name, 29, 399088, help, 66);
    }
    lemma_kinds();
    lemma_numbers();
    reveal(lookup_families);
    reveal_with_fuel(listed, 6);
    lemma_ascends(lookup_families(m), 20, 5);
}

#[verifier::rlimit(60)]
proof fn lemma_tier_families(m: ServerMetrics)
    ensures
        ascends(tier_families(m), 25, 31),
{
    reveal_with_fuel(unbroken, 8);
    reveal_with_fuel(total, 8);
    reveal_with_fuel(in_line, 8);
    let name = "infer_tier_fetch_staged_host_blocks_total"@;
    let help = "Request-weighted staged blocks found in T1."@;
    assert(spelled(name, help, 25)) by {
        reveal_strlit("infer_tier_fetch_staged_host_blocks_total");
        reveal_strlit("Request-weighted staged blocks found in T1.");
        lemma_spelled(name, 41, 553588, help, 43);
    }
    let name = "infer_tier_fetch_staged_disk_blocks_total"@;
    let help = "Request-weighted staged blocks found in T2."@;
    assert(spelled(name, help, 26)) by {
        reveal_strlit("infer_tier_fetch_staged_disk_blocks_total");
        reveal_strlit("Request-weighted staged blocks found in T2.");
        lemma_spelled(name, 41, 551156, help, 43);
    }
    let name = "infer_tier_fetch_staged_remote_blocks_total"@;
    let help = "Request-weighted staged blocks found in T3."@;
    assert(spelled(name, help, 27)) by {
        reveal_strlit("infer_tier_fetch_staged_remote_blocks_total");
        reveal_strlit("Request-weighted staged blocks found in T3.");
        lemma_spelled(name, 43, 579956, help, 43);
    }
    let name = "infer_tier_fetch_promoted_blocks_total"@;
    let help = "Staged blocks promoted back into T0."@;
    assert(spelled(name, help, 28)) by {
        reveal_strlit("infer_tier_fetch_promoted_blocks_total");
        reveal_strlit("Staged blocks promoted back into T0.");
        lemma_spelled(name, 38, 515316, help, 36);
    }
    let name = "infer_tier_fetch_fallback_total"@;
    let help = "Staged-prefix fallbacks back to cold prefill."@;
    assert(spelled(name, help, 29)) by {
        reveal_strlit("infer_tier_fetch_fallback_total");
        reveal_strlit("Staged-prefix fallbacks back to cold prefill.");
        lemma_spelled(name, 31, 414068, help, 45);
    }
    let name = "infer_tier_fetch_recall_rate"@;
    let help = "Promoted staged blocks divided by staged blocks [0,1]."@;
    assert(spelled(name, help, 30)) by {
        reveal_strlit("infer_tier_fetch_recall_rate");
        reveal_strlit("Promoted staged blocks divided by staged blocks [0,1].");
        lemma_spelled(name, 28, 374516, help, 54);
    }
    lemma_kinds();
    lemma_numbers();
    reveal(tier_families);
    reveal_with_fuel(listed, 7);
    lemma_ascends(tier_families(m), 25, 6);
}

#[verifier::rlimit(60)]
proof fn lemma_decode_families(m: ServerMetrics)
    ensures
        ascends(decode_families(m), 31, 41),
{
    reveal_with_fuel(unbroken, 8);
    reveal_with_fuel(total, 8);
    reveal_with_fuel(in_line, 8);
    let name = "infer_dflash_blocks_total"@;
    let help = "Total DFlash speculative blocks executed."@;
    assert(spelled(name, help, 31)) by {
        reveal_strlit("infer_dflash_blocks_total");
        reveal_strlit("Total DFlash speculative blocks executed.");
        lemma_spelled(name, 25, 336612, help, 41);
    }
    let name = "infer_dflash_accepted_tokens_total"@;
    let help = "Total tokens accepted from DFlash speculative blocks."@;
    assert(spelled(name, help, 32)) by {
        reveal_strlit("infer_dflash_accepted_tokens_total");
        reveal_strlit("Total tokens accepted from DFlash speculative blocks.");
        lemma_spelled(name, 34, 457188, help, 53);
    }
    let name = "infer_dflash_acceptance_rate"@;
    let help = "DFlash acceptance rate: fraction of generated tokens from draft [0,1]."@;
    assert(spelled(name, help, 33)) by {
        reveal_strlit("infer_dflash_acceptance_rate");
        reveal_strlit("DFlash acceptance rate: fraction of generated tokens from draft [0,1].");
        lemma_spelled(name, 28, 371556, help, 70);
    }
    let name = "infer_dflash_utilization"@;
    let help = "DFlash speculative capacity utilization [0,1]."@;
    assert(spelled(name, help, 34)) by {
        reveal_strlit("infer_dflash_utilization");
        reveal_strlit("DFlash speculative capacity utilization [0,1].");
        lemma_spelled(name, 24, 327780, help, 46);
    }
    let name = "infer_metal_decode_batches_total"@;
    let help = "Metal decode batches executed on a batched GPU path."@;
    assert(spelled(name, help, 35)) by {
        reveal_strlit("infer_metal_decode_batches_total");
        reveal_strlit("Metal decode batches executed on a batched GPU path.");
        lemma_spelled(name, 32, 426733, help, 52);
    }
    let name = "infer_metal_decode_batched_rows_total"@;
    let help = "Metal decode rows executed on a batched GPU path."@;
    assert(spelled(name, help, 36)) by {
        reveal_strlit("infer_metal_decode_batched_rows_total");
        reveal_strlit("Metal decode rows executed on a batched GPU path.");
        lemma_spelled(name, 37, 495725, help, 49);
    }
    let name = "infer_metal_decode_scalar_rows_total"@;
    let help = "Metal decode rows executed by the scalar per-request path."@;
    assert(spelled(name, help, 37)) by {
        reveal_strlit("infer_metal_decode_scalar_rows_total");
        reveal_strlit("Metal decode rows executed by the scalar per-request path.");
        lemma_spelled(name, 36, 484845, help, 58);
    }
    let name = "infer_metal_decode_batch_fallback_rows_total"@;
    let help = "Metal decode rows scheduled together but forced to scalar fallback."@;
    assert(spelled(name, help, 38)) by {
        reveal_strlit("infer_metal_decode_batch_fallback_rows_total");
        reveal_strlit("Metal decode rows scheduled together but forced to scalar fallback.");
        lemma_spelled(name, 44, 586605, help, 67);
    }
    let name = "infer_metal_qwen35_packed_decode_batches_total"@;
    let help = "Qwen3.5 packed decode batches executed."@;
    assert(spelled(name, help, 39)) by {
        reveal_strlit("infer_metal_qwen35_packed_decode_batches_total");
        reveal_strlit("Qwen3.5 packed decode batches executed.");
        lemma_spelled(name, 46, 599917, help, 39);
    }
    let name = "infer_metal_qwen35_packed_decode_rows_total"@;
    let help = "Qwen3.5 packed decode rows executed."@;
    assert(spelled(name, help, 40)) by {
        reveal_strlit("infer_metal_qwen35_packed_decode_rows_total");
        reveal_strlit("Qwen3.5 packed decode rows executed.");
        lemma_spelled(name, 43, 565229, help, 36);
    }
    lemma_kinds();
    lemma_numbers();
    reveal(decode_families);
    reveal_with_fuel(listed, 11);
    lemma_ascends(decode_families(m), 31, 10);
}

#[verifier::rlimit(60)]
proof fn lemma_scheduler_families(m: ServerMetrics)
    ensures
        ascends(scheduler_families(m), 41, 52),
{
    reveal_with_fuel(unbroken, 8);
    reveal_with_fuel(total, 8);
    reveal_with_fuel(in_line, 8);
    let name = "infer_requests_active"@;
    let help = "Currently running requests."@;
    assert(spelled(name, help, 41)) by {
        reveal_strlit("infer_requests_active");
        reveal_strlit("Currently running requests.");
        lemma_spelled(name, 21, 288114, help, 27);
    }
    let name = "infer_requests_waiting"@;
    let help = "Requests waiting in queue."@;
    assert(spelled(name, help, 42)) by {
        reveal_strlit("infer_requests_waiting");
        reveal_strlit("Requests waiting in queue.");
        lemma_spelled(name, 22, 303346, help, 26);
    }
    let name = "infer_scheduler_running_batch"@;
    let help = "Requests currently held in the running decode batch."@;
    assert(spelled(name, help, 43)) by {
        reveal_strlit("infer_scheduler_running_batch");
        reveal_strlit("Requests currently held in the running decode batch.");
        lemma_spelled(name, 29, 391667, help, 52);
    }
    let name = "infer_scheduler_prefill_queue"@;
    let help = "Requests currently queued for prefill continuation."@;
    assert(spelled(name, help, 44)) by {
        reveal_strlit("infer_scheduler_prefill_queue");
        reveal_strlit("Requests currently queued for prefill continuation.");
        lemma_spelled(name, 29, 393715, help, 51);
    }
    let name = "infer_scheduler_scheduled_rows"@;
    let help = "Rows scheduled in the most recent scheduler tick."@;
    assert(spelled(name, help, 45)) by {
        reveal_strlit("infer_scheduler_scheduled_rows");
        reveal_strlit("Rows scheduled in the most recent scheduler tick.");
        lemma_spelled(name, 30, 407155, help, 49);
    }
    let name = "infer_scheduler_scheduled_decode_rows"@;
    let help = "Decode rows scheduled in the most recent scheduler tick."@;
    assert(spelled(name, help, 46)) by {
        reveal_strlit("infer_scheduler_scheduled_decode_rows");
        reveal_strlit("Decode rows scheduled in the most recent scheduler tick.");
        lemma_spelled(name, 37, 497651, help, 56);
    }
    let name = "infer_scheduler_scheduled_prefill_rows"@;
    let help = "Prefill rows scheduled in the most recent scheduler tick."@;
    assert(spelled(name, help, 47)) by {
        reveal_strlit("infer_scheduler_scheduled_prefill_rows");
        reveal_strlit("Prefill rows scheduled in the most recent scheduler tick.");
        lemma_spelled(name, 38, 515315, help, 57);
    }
    let name = "infer_scheduler_decode_tokens"@;
    let help = "Decode tokens advanced in the most recent scheduler tick."@;
    assert(spelled(name, help, 48)) by {
        reveal_strlit("infer_scheduler_decode_tokens");
        reveal_strlit("Decode tokens advanced in the most recent scheduler tick.");
        lemma_spelled(name, 29, 390259, help, 57);
    }
    let name = "infer_scheduler_prefill_tokens"@;
    let help = "Prefill tokens advanced in the most recent scheduler tick."@;
    assert(spelled(name, help, 49)) by {
        reveal_strlit("infer_scheduler_prefill_tokens");
        reveal_strlit("Prefill tokens advanced in the most recent scheduler tick.");
        lemma_spelled(name, 30, 407923, help, 58);
    }
    let name = "infer_scheduler_batch_width"@;
    let help = "Total GPU batch width in the most recent scheduler tick."@;
    assert(spelled(name, help, 50)) by {
        reveal_strlit("infer_scheduler_batch_width");
        reveal_strlit("Total GPU batch width in the most recent scheduler tick.");
        lemma_spelled(name, 27, 362867, help, 56);
    }
    let name = "infer_scheduler_step_last_seconds"@;
    let help = "Most recent end-to-end scheduler tick latency."@;
    assert(spelled(name, help, 51)) by {
        reveal_strlit("infer_scheduler_step_last_seconds");
        reveal_strlit("Most recent end-to-end scheduler tick latency.");
        lemma_spelled(name, 33, 448371, help, 46);
    }
    lemma_kinds();
    lemma_numbers();
    reveal(scheduler_families);
    reveal_with_fuel(listed, 12);
    lemma_ascends(scheduler_families(m), 41, 11);
}

#[verifier::rlimit(60)]
proof fn lemma_phase_families(m: ServerMetrics)
    ensures
        ascends(phase_families(m), 52, 59),
{
    reveal_with_fuel(unbroken, 8);
    reveal_with_fuel(total, 8);
    reveal_with_fuel(in_line, 8);
    let name = "infer_scheduler_step_phase_admission_microseconds"@;
    let help = "EMA scheduler tick admission phase duration."@;
    assert(spelled(name, help, 52)) by {
        reveal_strlit("infer_scheduler_step_phase_admission_microseconds");
        reveal_strlit("EMA scheduler tick admission phase duration.");
        lemma_spelled(name, 49, 665075, help, 44);
    }
    let name = "infer_scheduler_step_phase_prefill_microseconds"@;
    let help = "EMA scheduler tick prefill phase duration."@;
    assert(spelled(name, help, 53)) by {
        reveal_strlit("infer_scheduler_step_phase_prefill_microseconds");
        reveal_strlit("EMA scheduler tick prefill phase duration.");
        lemma_spelled(name, 47, 637299, help, 42);
    }
    let name = "infer_scheduler_step_phase_decode_microseconds"@;
    let help = "EMA scheduler tick decode phase duration."@;
    assert(spelled(name, help, 54)) by {
        reveal_strlit("infer_scheduler_step_phase_decode_microseconds");
        reveal_strlit("EMA scheduler tick decode phase duration.");
        lemma_spelled(name, 46, 619635, help, 41);
    }
    let name = "infer_scheduler_step_phase_emit_microseconds"@;
    let help = "EMA scheduler tick emit phase duration."@;
    assert(spelled(name, help, 55)) by {
        reveal_strlit("infer_scheduler_step_phase_emit_microseconds");
        reveal_strlit("EMA scheduler tick emit phase duration.");
        lemma_spelled(name, 44, 596467, help, 39);
    }
    let name = "infer_scheduler_step_phase_total_microseconds"@;
    let help = "EMA scheduler tick total duration."@;
    assert(spelled(name, help, 56)) by {
        reveal_strlit("infer_scheduler_step_phase_total_microseconds");
        reveal_strlit("EMA scheduler tick total duration.");
        lemma_spelled(name, 45, 611443, help, 34);
    }
    let name = "infer_scheduler_step_cleanup_microseconds"@;
    let help = "EMA scheduler cleanup duration after GPU step dispatch/readback."@;
    assert(spelled(name, help, 57)) by {
        reveal_strlit("infer_scheduler_step_cleanup_microseconds");
        reveal_strlit("EMA scheduler cleanup duration after GPU step dispatch/readback.");
        lemma_spelled(name, 41, 556659, help, 64);
    }
    let name = "infer_scheduler_loop_total_microseconds"@;
    let help = "EMA full scheduler loop duration including cleanup."@;
    assert(spelled(name, help, 58)) by {
        reveal_strlit("infer_scheduler_loop_total_microseconds");
        reveal_strlit("EMA full scheduler loop duration including cleanup.");
        lemma_spelled(name, 39, 531315, help, 51);
    }
    lemma_kinds();
    lemma_numbers();
    reveal(phase_families);
    reveal_with_fuel(listed, 8);
    lemma_ascends(phase_families(m), 52, 7);
}

#[verifier::rlimit(60)]
proof fn lemma_pipeline_families(m: ServerMetrics)
    ensures
        ascends(pipeline_families(m), 59, 67),
{
    reveal_with_fuel(unbroken, 8);
    reveal_with_fuel(total, 8);
    reveal_with_fuel(in_line, 8);
    let name = "infer_preprocess_queue_depth"@;
    let help = "HTTP preprocess requests currently holding a bounded preprocess permit."@;
    assert(spelled(name, help, 59)) by {
        reveal_strlit("infer_preprocess_queue_depth");
        reveal_strlit("HTTP preprocess requests currently holding a bounded preprocess permit.");
        lemma_spelled(name, 28, 383216, help, 71);
    }
    let name = "infer_preprocess_wait_microseconds"@;
    let help = "Most recent HTTP preprocess permit wait duration."@;
    assert(spelled(name, help, 60)) by {
        reveal_strlit("infer_preprocess_wait_microseconds");
        reveal_strlit("Most recent HTTP preprocess permit wait duration.");
        lemma_spelled(name, 34, 465648, help, 49);
    }
    let name = "infer_preprocess_tokenize_microseconds"@;
    let help = "Most recent HTTP prompt tokenization duration."@;
    assert(spelled(name, help, 61)) by {
        reveal_strlit("infer_preprocess_tokenize_microseconds");
        reveal_strlit("Most recent HTTP prompt tokenization duration.");
        lemma_spelled(name, 38, 521456, help, 46);
    }
    let name = "infer_scheduler_pipeline_snapshot_microseconds"@;
    let help = "Most recent scheduler snapshot construction duration."@;
    assert(spelled(name, help, 62)) by {
        reveal_strlit("infer_scheduler_pipeline_snapshot_microseconds");
        reveal_strlit("Most recent scheduler snapshot construction duration.");
        lemma_spelled(name, 46, 626547, help, 53);
    }
    let name = "infer_scheduler_pipeline_cpu_plan_microseconds"@;
    let help = "Most recent scheduler CPU candidate-plan duration."@;
    assert(spelled(name, help, 63)) by {
        reveal_strlit("infer_scheduler_pipeline_cpu_plan_microseconds");
        reveal_strlit("Most recent scheduler CPU candidate-plan duration.");
        lemma_spelled(name, 46, 622707, help, 50);
    }
    let name = "infer_scheduler_pipeline_gpu_completion_wait_microseconds"@;
    let help = "Most recent scheduler wait/readback duration for prior GPU completion."@;
    assert(spelled(name, help, 64)) by {
        reveal_strlit("infer_scheduler_pipeline_gpu_completion_wait_microseconds");
        reveal_strlit("Most recent scheduler wait/readback duration for prior GPU completion.");
        lemma_spelled(name, 57, 775155, help, 70);
    }
    let name = "infer_scheduler_pipeline_gpu_command_queue_depth"@;
    let help = "Scheduler-visible GPU command queue depth."@;
    assert(spelled(name, help, 65)) by {
        reveal_strlit("infer_scheduler_pipeline_gpu_command_queue_depth");
        reveal_strlit("Scheduler-visible GPU command queue depth.");
        lemma_spelled(name, 48, 648307, help, 42);
    }
    lemma_cpu_plan_outcomes(m);
    lemma_kinds();
    lemma_numbers();
    reveal(pipeline_families);
    reveal_with_fuel(listed, 9);
    lemma_ascends(pipeline_families(m), 59, 8);
}

#[verifier::rlimit(60)]
proof fn lemma_placement_families(m: ServerMetrics)
    ensures
        ascends(placement_families(m), 67, 83),
{
    reveal_with_fuel(unbroken, 8);
    reveal_with_fuel(total, 8);
    reveal_with_fuel(in_line, 8);
    let name = "infer_runtime_topology_numa_nodes"@;
    let help = "NUMA nodes discovered at runtime startup."@;
    assert(spelled(name, help, 67)) by {
        reveal_strlit("infer_runtime_topology_numa_nodes");
        reveal_strlit("NUMA nodes discovered at runtime startup.");
        lemma_spelled(name, 33, 454130, help, 41);
    }
    let name = "infer_runtime_topology_gpus"@;
    let help = "GPU devices discovered at runtime startup."@;
    assert(spelled(name, help, 68)) by {
        reveal_strlit("infer_runtime_topology_gpus");
        reveal_strlit("GPU devices discovered at runtime startup.");
        lemma_spelled(name, 27, 375026, help, 42);
    }
    let name = "infer_runtime_topology_nics"@;
    let help = "NIC devices discovered at runtime startup."@;
    assert(spelled(name, help, 69)) by {
        reveal_strlit("infer_runtime_topology_nics");
        reveal_strlit("NIC devices discovered at runtime startup.");
        lemma_spelled(name, 27, 372722, help, 42);
    }
    let name = "infer_runtime_worker_gpu_ordinal"@;
    let help = "GPU ordinal selected for this runtime worker."@;
    assert(spelled(name, help, 70)) by {
        reveal_strlit("infer_runtime_worker_gpu_ordinal");
        reveal_strlit("GPU ordinal selected for this runtime worker.");
        lemma_spelled(name, 32, 438770, help, 45);
    }
    let name = "infer_runtime_worker_cpu_count"@;
    let help = "CPU count in this runtime worker affinity set."@;
    assert(spelled(name, help, 71)) by {
        reveal_strlit("infer_runtime_worker_cpu_count");
        reveal_strlit("CPU count in this runtime worker affinity set.");
        lemma_spelled(name, 30, 413682, help, 46);
    }
    let name = "infer_runtime_worker_nic_count"@;
    let help = "NIC count selected as nearest to this runtime worker GPU."@;
    assert(spelled(name, help, 72)) by {
        reveal_strlit("infer_runtime_worker_nic_count");
        reveal_strlit("NIC count selected as nearest to this runtime worker GPU.");
        lemma_spelled(name, 30, 411890, help, 57);
    }
    let name = "infer_runtime_worker_affinity_applied"@;
    let help = "Whether CPU affinity was applied for the runtime worker."@;
    assert(spelled(name, help, 73)) by {
        reveal_strlit("infer_runtime_worker_affinity_applied");
        reveal_strlit("Whether CPU affinity was applied for the runtime worker.");
        lemma_spelled(name, 37, 504818, help, 56);
    }
    let name = "infer_runtime_worker_affinity_threads"@;
    let help = "Threads successfully updated by runtime worker affinity."@;
    assert(spelled(name, help, 74)) by {
        reveal_strlit("infer_runtime_worker_affinity_threads");
        reveal_strlit("Threads successfully updated by runtime worker affinity.");
        lemma_spelled(name, 37, 506354, help, 56);
    }
    let name = "infer_runtime_worker_affinity_failed_threads"@;
    let help = "Threads that failed runtime worker affinity update."@;
    assert(spelled(name, help, 75)) by {
        reveal_strlit("infer_runtime_worker_affinity_failed_threads");
        reveal_strlit("Threads that failed runtime worker affinity update.");
        lemma_spelled(name, 44, 596978, help, 51);
    }
    let name = "infer_runtime_preprocess_numa_groups"@;
    let help = "NUMA groups backing the HTTP tokenization pool."@;
    assert(spelled(name, help, 76)) by {
        reveal_strlit("infer_runtime_preprocess_numa_groups");
        reveal_strlit("NUMA groups backing the HTTP tokenization pool.");
        lemma_spelled(name, 36, 497138, help, 47);
    }
    let name = "infer_runtime_preprocess_workers"@;
    let help = "Worker threads backing the HTTP tokenization pool."@;
    assert(spelled(name, help, 77)) by {
        reveal_strlit("infer_runtime_preprocess_workers");
        reveal_strlit("Worker threads backing the HTTP tokenization pool.");
        lemma_spelled(name, 32, 443506, help, 50);
    }
    let name = "infer_runtime_detokenizer_numa_groups"@;
    let help = "NUMA groups backing scheduler detokenization workers."@;
    assert(spelled(name, help, 78)) by {
        reveal_strlit("infer_runtime_detokenizer_numa_groups");
        reveal_strlit("NUMA groups backing scheduler detokenization workers.");
        lemma_spelled(name, 37, 509170, help, 53);
    }
    let name = "infer_runtime_detokenizer_workers"@;
    let help = "Worker threads backing scheduler detokenization."@;
    assert(spelled(name, help, 79)) by {
        reveal_strlit("infer_runtime_detokenizer_workers");
        reveal_strlit("Worker threads backing scheduler detokenization.");
        lemma_spelled(name, 33, 455538, help, 48);
    }
    let name = "infer_runtime_h2d_latency_count"@;
    let help = "Observed host-to-device latency samples."@;
    assert(spelled(name, help, 80)) by {
        reveal_strlit("infer_runtime_h2d_latency_count");
        reveal_strlit("Observed host-to-device latency samples.");
        lemma_spelled(name, 31, 415218, help, 40);
    }
    let name = "infer_scheduler_numa_route_cost"@;
    let help = "NUMA routing cost selected for the most recent request."@;
    assert(spelled(name, help, 81)) by {
        reveal_strlit("infer_scheduler_numa_route_cost");
        reveal_strlit("NUMA routing cost selected for the most recent request.");
        lemma_spelled(name, 31, 423027, help, 55);
    }
    let name = "infer_runtime_worker_numa_node"@;
    let help = "NUMA node selected for this runtime worker (-1 unknown)."@;
    assert(spelled(name, help, 82)) by {
        reveal_strlit("infer_runtime_worker_numa_node");
        reveal_strlit("NUMA node selected for this runtime worker (-1 unknown).");
        lemma_spelled(name, 30, 410354, help, 56);
    }
    lemma_kinds();
    lemma_numbers();
    reveal(placement_families);
    reveal_with_fuel(listed, 17);
    lemma_ascends(placement_families(m), 67, 16);
}

#[verifier::rlimit(60)]
proof fn lemma_outcome_families(m: ServerMetrics)
    ensures
        ascends(outcome_families(m), 83, 91),
{
    reveal_with_fuel(unbroken, 8);
    reveal_with_fuel(total, 8);
    reveal_with_fuel(in_line, 8);
    lemma_pages_by_placement(m);
    lemma_copy_latency(m);
    lemma_routes_by_locality(m);
    let name = "infer_scheduler_numa_migration_total"@;
    let help = "Requests whose sticky NUMA route migrated for rebalancing."@;
    assert(spelled(name, help, 86)) by {
        reveal_strlit("infer_scheduler_numa_migration_total");
        reveal_strlit("Requests whose sticky NUMA route migrated for rebalancing.");
        lemma_spelled(name, 36, 489331, help, 58);
    }
    let name = "infer_scheduler_numa_rebalance_total"@;
    let help = "NUMA router rebalance decisions."@;
    assert(spelled(name, help, 87)) by {
        reveal_strlit("infer_scheduler_numa_rebalance_total");
        reveal_strlit("NUMA router rebalance decisions.");
        lemma_spelled(name, 36, 483571, help, 32);
    }
    lemma_ticks_by_plan(m);
    lemma_mixed_outcomes(m);
    lemma_mixed_fallbacks(m);
    lemma_kinds();
    lemma_numbers();
    reveal(outcome_families);
    reveal_with_fuel(listed, 9);
    lemma_ascends(outcome_families(m), 83, 8);
}

#[verifier::rlimit(60)]
proof fn lemma_speculation_families(m: ServerMetrics)
    ensures
        ascends(speculation_families(m), 91, 96),
{
    reveal_with_fuel(unbroken, 8);
    reveal_with_fuel(total, 8);
    reveal_with_fuel(in_line, 8);
    let name = "infer_spec_draft_tokens_total"@;
    let help = "Draft tokens proposed by Phase 2 speculative decode."@;
    assert(spelled(name, help, 91)) by {
        reveal_strlit("infer_spec_draft_tokens_total");
        reveal_strlit("Draft tokens proposed by Phase 2 speculative decode.");
        lemma_spelled(name, 29, 393843, help, 52);
    }
    let name = "infer_spec_verified_tokens_total"@;
    let help = "Draft tokens checked by the target verifier."@;
    assert(spelled(name, help, 92)) by {
        reveal_strlit("infer_spec_verified_tokens_total");
        reveal_strlit("Draft tokens checked by the target verifier.");
        lemma_spelled(name, 32, 434419, help, 44);
    }
    let name = "infer_spec_accepted_tokens_total"@;
    let help = "Draft tokens accepted by the verifier."@;
    assert(spelled(name, help, 93)) by {
        reveal_strlit("infer_spec_accepted_tokens_total");
        reveal_strlit("Draft tokens accepted by the verifier.");
        lemma_spelled(name, 32, 431731, help, 38);
    }
    let name = "infer_spec_sparse_view_empty_total"@;
    let help = "Sparse self-spec decode rows that could not build a sparse KV view."@;
    assert(spelled(name, help, 94)) by {
        reveal_strlit("infer_spec_sparse_view_empty_total");
        reveal_strlit("Sparse self-spec decode rows that could not build a sparse KV view.");
        lemma_spelled(name, 34, 465779, help, 67);
    }
    let name = "infer_spec_acceptance_rate"@;
    let help = "Aggregate speculative accepted / verified token ratio [0,1]."@;
    assert(spelled(name, help, 95)) by {
        reveal_strlit("infer_spec_acceptance_rate");
        reveal_strlit("Aggregate speculative accepted / verified token ratio [0,1].");
        lemma_spelled(name, 26, 346099, help, 60);
    }
    lemma_kinds();
    lemma_numbers();
    reveal(speculation_families);
    reveal_with_fuel(listed, 6);
    lemma_ascends(speculation_families(m), 91, 5);
}

#[verifier::rlimit(60)]
proof fn lemma_kv_families(m: ServerMetrics)
    ensures
        ascends(kv_families(m), 96, 114),
{
    reveal_with_fuel(unbroken, 8);
    reveal_with_fuel(total, 8);
    reveal_with_fuel(in_line, 8);
    let name = "infer_kv_coordinator_queue_capacity"@;
    let help = "Coordinator queue capacity shared by staged KV fetch/store work."@;
    assert(spelled(name, help, 96)) by {
        reveal_strlit("infer_kv_coordinator_queue_capacity");
        reveal_strlit("Coordinator queue capacity shared by staged KV fetch/store work.");
        lemma_spelled(name, 35, 476267, help, 64);
    }
    let name = "infer_kv_fetch_queue_depth"@;
    let help = "In-flight staged KV fetch tickets."@;
    assert(spelled(name, help, 97)) by {
        reveal_strlit("infer_kv_fetch_queue_depth");
        reveal_strlit("In-flight staged KV fetch tickets.");
        lemma_spelled(name, 26, 350955, help, 34);
    }
    let name = "infer_kv_fetch_waiters"@;
    let help = "Requests currently waiting on staged KV fetch completion."@;
    assert(spelled(name, help, 98)) by {
        reveal_strlit("infer_kv_fetch_waiters");
        reveal_strlit("Requests currently waiting on staged KV fetch completion.");
        lemma_spelled(name, 22, 298475, help, 57);
    }
    let name = "infer_kv_store_queue_depth"@;
    let help = "In-flight staged KV spill/store tickets."@;
    assert(spelled(name, help, 99)) by {
        reveal_strlit("infer_kv_store_queue_depth");
        reveal_strlit("In-flight staged KV spill/store tickets.");
        lemma_spelled(name, 26, 355435, help, 40);
    }
    let name = "infer_kv_store_submitted_total"@;
    let help = "Submitted staged KV spill/store tickets."@;
    assert(spelled(name, help, 100)) by {
        reveal_strlit("infer_kv_store_submitted_total");
        reveal_strlit("Submitted staged KV spill/store tickets.");
        lemma_spelled(name, 30, 412139, help, 40);
    }
    let name = "infer_kv_store_completed_total"@;
    let help = "Completed staged KV spill/store tickets."@;
    assert(spelled(name, help, 101)) by {
        reveal_strlit("infer_kv_store_completed_total");
        reveal_strlit("Completed staged KV spill/store tickets.");
        lemma_spelled(name, 30, 409579, help, 40);
    }
    let name = "infer_kv_store_failed_total"@;
    let help = "Failed staged KV spill/store tickets."@;
    assert(spelled(name, help, 102)) by {
        reveal_strlit("infer_kv_store_failed_total");
        reveal_strlit("Failed staged KV spill/store tickets.");
        lemma_spelled(name, 27, 365547, help, 37);
    }
    let name = "infer_kv_store_rejected_total"@;
    let help = "Rejected staged KV spill/store tickets."@;
    assert(spelled(name, help, 103)) by {
        reveal_strlit("infer_kv_store_rejected_total");
        reveal_strlit("Rejected staged KV spill/store tickets.");
        lemma_spelled(name, 29, 394347, help, 39);
    }
    let name = "infer_kv_fetch_backpressure"@;
    let help = "Staged KV fetch queue backpressure flag (0 or 1)."@;
    assert(spelled(name, help, 104)) by {
        reveal_strlit("infer_kv_fetch_backpressure");
        reveal_strlit("Staged KV fetch queue backpressure flag (0 or 1).");
        lemma_spelled(name, 27, 365419, help, 49);
    }
    let name = "infer_kv_store_backpressure"@;
    let help = "Staged KV store queue backpressure flag (0 or 1)."@;
    assert(spelled(name, help, 105)) by {
        reveal_strlit("infer_kv_store_backpressure");
        reveal_strlit("Staged KV store queue backpressure flag (0 or 1).");
        lemma_spelled(name, 27, 369899, help, 49);
    }
    let name = "infer_tier_fetch_wait_seconds"@;
    let help = "Oldest outstanding staged KV fetch wait."@;
    assert(spelled(name, help, 106)) by {
        reveal_strlit("infer_tier_fetch_wait_seconds");
        reveal_strlit("Oldest outstanding staged KV fetch wait.");
        lemma_spelled(name, 29, 391540, help, 40);
    }
    let name = "infer_tier_store_wait_seconds"@;
    let help = "Oldest outstanding staged KV store wait."@;
    assert(spelled(name, help, 107)) by {
        reveal_strlit("infer_tier_store_wait_seconds");
        reveal_strlit("Oldest outstanding staged KV store wait.");
        lemma_spelled(name, 29, 396020, help, 40);
    }
    let name = "infer_kv_gpu_utilization"@;
    let help = "GPU KV cache utilization [0,1]."@;
    assert(spelled(name, help, 108)) by {
        reveal_strlit("infer_kv_gpu_utilization");
        reveal_strlit("GPU KV cache utilization [0,1].");
        lemma_spelled(name, 24, 331115, help, 31);
    }
    let name = "infer_kv_gpu_blocks_free"@;
    let help = "Free GPU KV cache blocks."@;
    assert(spelled(name, help, 109)) by {
        reveal_strlit("infer_kv_gpu_blocks_free");
        reveal_strlit("Free GPU KV cache blocks.");
        lemma_spelled(name, 24, 323307, help, 25);
    }
    let name = "infer_kv_gpu_blocks_total"@;
    let help = "Total GPU KV cache blocks."@;
    assert(spelled(name, help, 110)) by {
        reveal_strlit("infer_kv_gpu_blocks_total");
        reveal_strlit("Total GPU KV cache blocks.");
        lemma_spelled(name, 25, 339947, help, 26);
    }
    let name = "infer_memory_active_bytes"@;
    let help = "Active MLX allocator memory in bytes."@;
    assert(spelled(name, help, 111)) by {
        reveal_strlit("infer_memory_active_bytes");
        reveal_strlit("Active MLX allocator memory in bytes.");
        lemma_spelled(name, 25, 341741, help, 37);
    }
    let name = "infer_memory_peak_bytes"@;
    let help = "Peak MLX allocator memory in bytes."@;
    assert(spelled(name, help, 112)) by {
        reveal_strlit("infer_memory_peak_bytes");
        reveal_strlit("Peak MLX allocator memory in bytes.");
        lemma_spelled(name, 23, 313709, help, 35);
    }
    let name = "infer_memory_cache_bytes"@;
    let help = "Cached MLX allocator memory in bytes."@;
    assert(spelled(name, help, 113)) by {
        reveal_strlit("infer_memory_cache_bytes");
        reveal_strlit("Cached MLX allocator memory in bytes.");
        lemma_spelled(name, 24, 324333, help, 37);
    }
    lemma_kinds();
    lemma_numbers();
    reveal(kv_families);
    reveal_with_fuel(listed, 19);
    lemma_ascends(kv_families(m), 96, 18);
}
/// The heading of a histogram, without its lines.
pub open spec fn heading(name: Seq<char>, help: Seq<char>) -> FamilyView {
    FamilyView { name, help, kind: "histogram"@, samples: Seq::empty() }
}

/// The headings of all histograms.
pub open spec fn histogram_headings() -> Seq<FamilyView> {
    seq![
        heading("infer_queue_wait_seconds"@, "Submit-to-admit queue latency."@),
        heading("infer_active_ttft_seconds"@, "Admit-to-first-token latency."@),
        heading("infer_ttft_seconds"@, "Time to first token latency."@),
        heading("infer_tpot_seconds"@, "Time per output token latency."@),
        heading("infer_service_seconds"@, "First-token-to-finish service latency."@),
        heading("infer_e2e_seconds"@, "End-to-end request latency."@),
        heading("infer_scheduler_step_seconds"@, "End-to-end scheduler tick latency."@),
        heading("infer_spec_step_latency_us"@, "Phase 2 speculative decode step latency."@),
    ]
}

/// Every metric of the exposition, in order.
pub open spec fn metric_families(m: ServerMetrics) -> Seq<FamilyView> {
    all_families(m) + histogram_headings()
}

proof fn lemma_histogram_headings()
    ensures
        ascends(histogram_headings(), 114, 122),
{
    reveal_with_fuel(unbroken, 8);
    reveal_with_fuel(total, 8);
    reveal_with_fuel(in_line, 8);
    let name = "infer_queue_wait_seconds"@;
    let help = "Submit-to-admit queue latency."@;
    assert(spelled(name, help, 114)) by {
        reveal_strlit("infer_queue_wait_seconds");
        reveal_strlit("Submit-to-admit queue latency.");
        lemma_spelled(name, 24, 327025, help, 30);
    }
    let name = "infer_active_ttft_seconds"@;
    let help = "Admit-to-first-token latency."@;
    assert(spelled(name, help, 115)) by {
        reveal_strlit("infer_active_ttft_seconds");
        reveal_strlit("Admit-to-first-token latency.");
        lemma_spelled(name, 25, 339809, help, 29);
    }
    let name = "infer_ttft_seconds"@;
    let help = "Time to first token latency."@;
    assert(spelled(name, help, 116)) by {
        reveal_strlit("infer_ttft_seconds");
        reveal_strlit("Time to first token latency.");
        lemma_spelled(name, 18, 246260, help, 28);
    }
    let name = "infer_tpot_seconds"@;
    let help = "Time per output token latency."@;
    assert(spelled(name, help, 117)) by {
        reveal_strlit("infer_tpot_seconds");
        reveal_strlit("Time per output token latency.");
        lemma_spelled(name, 18, 246900, help, 30);
    }
    let name = "infer_service_seconds"@;
    let help = "First-token-to-finish service latency."@;
    assert(spelled(name, help, 118)) by {
        reveal_strlit("infer_service_seconds");
        reveal_strlit("First-token-to-finish service latency.");
        lemma_spelled(name, 21, 285043, help, 38);
    }
    let name = "infer_e2e_seconds"@;
    let help = "End-to-end request latency."@;
    assert(spelled(name, help, 119)) by {
        reveal_strlit("infer_e2e_seconds");
        reveal_strlit("End-to-end request latency.");
        lemma_spelled(name, 17, 220901, help, 27);
    }
    let name = "infer_scheduler_step_seconds"@;
    let help = "End-to-end scheduler tick latency."@;
    assert(spelled(name, help, 120)) by {
        reveal_strlit("infer_scheduler_step_seconds");
        reveal_strlit("End-to-end scheduler tick latency.");
        lemma_spelled(name, 28, 380403, help, 34);
    }
    let name = "infer_spec_step_latency_us"@;
    let help = "Phase 2 speculative decode step latency."@;
    assert(spelled(name, help, 121)) by {
        reveal_strlit("infer_spec_step_latency_us");
        reveal_strlit("Phase 2 speculative decode step latency.");
        lemma_spelled(name, 26, 354291, help, 40);
    }
    assert(one_line("histogram"@)) by {
        reveal_strlit("histogram");
        lemma_in_line("histogram"@, 0, 9);
    }
    reveal_with_fuel(listed, 9);
    lemma_ascends(histogram_headings(), 114, 8);
}

proof fn lemma_none_ascend(from: nat, to: nat)
    ensures
        ascends(Seq::empty(), from, to),
{
}

proof fn lemma_metric_families(m: ServerMetrics)
    ensures
        ascends(all_families(m), 0, 114),
        ascends(metric_families(m), 0, 122),
{
    lemma_request_families(m);
    lemma_lookup_families(m);
    lemma_tier_families(m);
    lemma_decode_families(m);
    lemma_scheduler_families(m);
    lemma_phase_families(m);
    lemma_pipeline_families(m);
    lemma_placement_families(m);
    lemma_outcome_families(m);
    lemma_speculation_families(m);
    lemma_kv_families(m);
    lemma_histogram_headings();
    lemma_none_ascend(52, 59);
    let phases = if m.scheduler_step_phase_samples == 0 {
        Seq::<FamilyView>::empty()
    } else {
        phase_families(m)
    };

    let upto1 = request_families(m) + lookup_families(m);
    lemma_ascends_on(request_families(m), lookup_families(m), 0, 20, 25);
    let upto2 = upto1 + tier_families(m);
    lemma_ascends_on(upto1, tier_families(m), 0, 25, 31);
    let upto3 = upto2 + decode_families(m);
    lemma_ascends_on(upto2, decode_families(m), 0, 31, 41);
    let upto4 = upto3 + scheduler_families(m);
    lemma_ascends_on(upto3, scheduler_families(m), 0, 41, 52);
    let upto5 = upto4 + phases;
    lemma_ascends_on(upto4, phases, 0, 52, 59);
    let upto6 = upto5 + pipeline_families(m);
    lemma_ascends_on(upto5, pipeline_families(m), 0, 59, 67);
    let upto7 = upto6 + placement_families(m);
    lemma_ascends_on(upto6, placement_families(m), 0, 67, 83);
    let upto8 = upto7 + outcome_families(m);
    lemma_ascends_on(upto7, outcome_families(m), 0, 83, 91);
    let upto9 = upto8 + speculation_families(m);
    lemma_ascends_on(upto8, speculation_families(m), 0, 91, 96);
    let upto10 = upto9 + kv_families(m);
    lemma_ascends_on(upto9, kv_families(m), 0, 96, 114);
    assert(all_families(m) == upto10);
    lemma_ascends_on(all_families(m), histogram_headings(), 0, 114, 122);
}

proof fn lemma_named_once(fs: Seq<FamilyView>, from: nat, to: nat, name: Seq<char>, n: nat)
    requires
        ascends(fs, from, to),
        n <= fs.len(),
    ensures
        families_named(fs, name, n) == if exists|i: int|
            0 <= i < n && #[trigger] fs[i].name == name {
            1nat
        } else {
            0nat
        },
    decreases n,
{
    if n > 0 {
        lemma_named_once(fs, from, to, name, (n - 1) as nat);
        if fs[n - 1].name == name {
            assert forall|i: int| 0 <= i < n - 1 implies #[trigger] fs[i].name != name by {
                assert(place_of(fs[i]) < place_of(fs[n - 1]));
            }
        } else if exists|i: int| 0 <= i < n - 1 && #[trigger] fs[i].name == name {
            let i = choose|i: int| 0 <= i < n - 1 && #[trigger] fs[i].name == name;
            assert(fs[i].name == name);
        }
    }
}

proof fn lemma_named_in_both(a: Seq<FamilyView>, b: Seq<FamilyView>, name: Seq<char>, n: nat)
    requires
        n <= b.len(),
    ensures
        families_named(a + b, name, a.len()) == families_named(a, name, a.len()),
        families_named(a + b, name, a.len() + n) == families_named(a, name, a.len())
            + families_named(b, name, n),
    decreases n,
{
    lemma_named_before(a, b, name, a.len());
    if n > 0 {
        lemma_named_in_both(a, b, name, (n - 1) as nat);
        assert((a + b)[a.len() + n - 1] == b[n - 1]);
    }
}

proof fn lemma_named_before(a: Seq<FamilyView>, b: Seq<FamilyView>, name: Seq<char>, n: nat)
    requires
        n <= a.len(),
    ensures
        families_named(a + b, name, n) == families_named(a, name, n),
    decreases n,
{
    if n > 0 {
        lemma_named_before(a, b, name, (n - 1) as nat);
        assert((a + b)[n - 1] == a[n - 1]);
    }
}

/// No two metrics share a name.
pub proof fn law_metric_names_differ(m: ServerMetrics, i: int, j: int)
    requires
        0 <= i < j < metric_families(m).len(),
    ensures
        metric_families(m)[i].name != metric_families(m)[j].name,
{
    lemma_metric_families(m);
    let fs = metric_families(m);
    assert(place_of(fs[i]) < place_of(fs[j]));
}

proof fn lemma_four_joined(
    before: Seq<char>,
    a: Seq<char>,
    b: Seq<char>,
    c: Seq<char>,
    d: Seq<char>,
    name: Seq<char>,
)
    requires
        whole_lines(before),
        whole_lines(a),
        whole_lines(b),
        whole_lines(c),
        whole_lines(d),
        one_line(name),
    ensures
        whole_lines(before + a + b + c + d),
        type_lines(before + a + b + c + d, name) == type_lines(before, name) + type_lines(a, name)
            + type_lines(b, name) + type_lines(c, name) + type_lines(d, name),
{
    lemma_joined(before, a, name);
    lemma_joined(before + a, b, name);
    lemma_joined(before + a + b, c, name);
    lemma_joined(before + a + b + c, d, name);
}

/// The text with the lines of all histograms after it.
spec fn with_histograms(m: ServerMetrics, before: Seq<char>, labels: Seq<char>) -> Seq<char> {
    before
        + histogram_family(
            m.histograms.queue_wait@,
            "infer_queue_wait_seconds"@,
            "Submit-to-admit queue latency."@,
            labels,
        )
        + histogram_family(
            m.histograms.active_ttft@,
            "infer_active_ttft_seconds"@,
            "Admit-to-first-token latency."@,
            labels,
        )
        + histogram_family(
            m.histograms.ttft@,
            "infer_ttft_seconds"@,
            "Time to first token latency."@,
            labels,
        )
        + histogram_family(
            m.histograms.tpot@,
            "infer_tpot_seconds"@,
            "Time per output token latency."@,
            labels,
        )
        + histogram_family(
            m.histograms.service@,
            "infer_service_seconds"@,
            "First-token-to-finish service latency."@,
            labels,
        )
        + histogram_family(
            m.histograms.e2e@,
            "infer_e2e_seconds"@,
            "End-to-end request latency."@,
            labels,
        )
        + histogram_family(
            m.histograms.scheduler_step@,
            "infer_scheduler_step_seconds"@,
            "End-to-end scheduler tick latency."@,
            labels,
        )
        + histogram_family(
            m.histograms.spec_step_latency_us@,
            "infer_spec_step_latency_us"@,
            "Phase 2 speculative decode step latency."@,
            labels,
        )
}

proof fn lemma_headings_named(name: Seq<char>)
    ensures
        histogram_headings().len() == 8,
        families_named(histogram_headings(), name, 8) == same_name(
            "infer_queue_wait_seconds"@,
            name,
        ) + same_name("infer_active_ttft_seconds"@, name)
            + same_name("infer_ttft_seconds"@, name)
            + same_name("infer_tpot_seconds"@, name)
            + same_name("infer_service_seconds"@, name)
            + same_name("infer_e2e_seconds"@, name)
            + same_name("infer_scheduler_step_seconds"@, name)
            + same_name("infer_spec_step_latency_us"@, name),
{
    reveal_with_fuel(families_named, 9);
}

proof fn lemma_headings_plain()
    ensures
        is_name("infer_queue_wait_seconds"@),
        one_line("Submit-to-admit queue latency."@),
        is_name("infer_active_ttft_seconds"@),
        one_line("Admit-to-first-token latency."@),
        is_name("infer_ttft_seconds"@),
        one_line("Time to first token latency."@),
        is_name("infer_tpot_seconds"@),
        one_line("Time per output token latency."@),
        is_name("infer_service_seconds"@),
        one_line("First-token-to-finish service latency."@),
        is_name("infer_e2e_seconds"@),
        one_line("End-to-end request latency."@),
        is_name("infer_scheduler_step_seconds"@),
        one_line("End-to-end scheduler tick latency."@),
        is_name("infer_spec_step_latency_us"@),
        one_line("Phase 2 speculative decode step latency."@),
{
    lemma_histogram_headings();
    let hs = histogram_headings();
    assert(is_plain(hs[0]));
    assert(is_plain(hs[1]));
    assert(is_plain(hs[2]));
    assert(is_plain(hs[3]));
    assert(is_plain(hs[4]));
    assert(is_plain(hs[5]));
    assert(is_plain(hs[6]));
    assert(is_plain(hs[7]));
}

#[verifier::rlimit(40)]
proof fn lemma_histogram_texts(
    m: ServerMetrics,
    before: Seq<char>,
    labels: Seq<char>,
    name: Seq<char>,
)
    requires
        whole_lines(before),
        one_line(labels),
        is_name(name),
    ensures
        type_lines(with_histograms(m, before, labels), name) == type_lines(before, name)
            + families_named(histogram_headings(), name, 8),
{
    lemma_headings_plain();
    lemma_headings_named(name);
    let h0 = histogram_family(
        m.histograms.queue_wait@,
        "infer_queue_wait_seconds"@,
        "Submit-to-admit queue latency."@,
        labels,
    );
    let h1 = histogram_family(
        m.histograms.active_ttft@,
        "infer_active_ttft_seconds"@,
        "Admit-to-first-token latency."@,
        labels,
    );
    let h2 = histogram_family(
        m.histograms.ttft@,
        "infer_ttft_seconds"@,
        "Time to first token latency."@,
        labels,
    );
    let h3 = histogram_family(
        m.histograms.tpot@,
        "infer_tpot_seconds"@,
        "Time per output token latency."@,
        labels,
    );
    let h4 = histogram_family(
        m.histograms.service@,
        "infer_service_seconds"@,
        "First-token-to-finish service latency."@,
        labels,
    );
    let h5 = histogram_family(
        m.histograms.e2e@,
        "infer_e2e_seconds"@,
        "End-to-end request latency."@,
        labels,
    );
    let h6 = histogram_family(
        m.histograms.scheduler_step@,
        "infer_scheduler_step_seconds"@,
        "End-to-end scheduler tick latency."@,
        labels,
    );
    let h7 = histogram_family(
        m.histograms.spec_step_latency_us@,
        "infer_spec_step_latency_us"@,
        "Phase 2 speculative decode step latency."@,
        labels,
    );
    assert(whole_lines(h0) && type_lines(h0, name) == same_name(
        "infer_queue_wait_seconds"@,
        name,
    )) by {
        law_histograms_state_their_type_once(
            m.histograms.queue_wait@,
            "infer_queue_wait_seconds"@,
            "Submit-to-admit queue latency."@,
            labels,
            name,
        );
    }
    assert(whole_lines(h1) && type_lines(h1, name) == same_name(
        "infer_active_ttft_seconds"@,
        name,
    )) by {
        law_histograms_state_their_type_once(
            m.histograms.active_ttft@,
            "infer_active_ttft_seconds"@,
            "Admit-to-first-token latency."@,
            labels,
            name,
        );
    }
    assert(whole_lines(h2) && type_lines(h2, name) == same_name(
        "infer_ttft_seconds"@,
        name,
    )) by {
        law_histograms_state_their_type_once(
            m.histograms.ttft@,
            "infer_ttft_seconds"@,
            "Time to first token latency."@,
            labels,
            name,
        );
    }
    assert(whole_lines(h3) && type_lines(h3, name) == same_name(
        "infer_tpot_seconds"@,
        name,
    )) by {
        law_histograms_state_their_type_once(
            m.histograms.tpot@,
            "infer_tpot_seconds"@,
            "Time per output token latency."@,
            labels,
            name,
        );
    }
    assert(whole_lines(h4) && type_lines(h4, name) == same_name(
        "infer_service_seconds"@,
        name,
    )) by {
        law_histograms_state_their_type_once(
            m.histograms.service@,
            "infer_service_seconds"@,
            "First-token-to-finish service latency."@,
            labels,
            name,
        );
    }
    assert(whole_lines(h5) && type_lines(h5, name) == same_name(
        "infer_e2e_seconds"@,
        name,
    )) by {
        law_histograms_state_their_type_once(
            m.histograms.e2e@,
            "infer_e2e_seconds"@,
            "End-to-end request latency."@,
            labels,
            name,
        );
    }
    assert(whole_lines(h6) && type_lines(h6, name) == same_name(
        "infer_scheduler_step_seconds"@,
        name,
    )) by {
        law_histograms_state_their_type_once(
            m.histograms.scheduler_step@,
            "infer_scheduler_step_seconds"@,
            "End-to-end scheduler tick latency."@,
            labels,
            name,
        );
    }
    assert(whole_lines(h7) && type_lines(h7, name) == same_name(
        "infer_spec_step_latency_us"@,
        name,
    )) by {
        law_histograms_state_their_type_once(
            m.histograms.spec_step_latency_us@,
            "infer_spec_step_latency_us"@,
            "Phase 2 speculative decode step latency."@,
            labels,
            name,
        );
    }
    lemma_four_joined(before, h0, h1, h2, h3, name);
    lemma_four_joined(before + h0 + h1 + h2 + h3, h4, h5, h6, h7, name);
}

/// The type of every metric is stated on exactly one line of the exposition, and
/// that of nothing else, where the name of the model breaks no line.
#[verifier::rlimit(40)]
pub proof fn law_every_type_is_stated_once(m: ServerMetrics, name: Seq<char>)
    requires
        one_line(m.model_id@),
        is_name(name),
    ensures
        type_lines(prometheus_text(m), name) == if exists|i: int|
            0 <= i < metric_families(m).len() && #[trigger] metric_families(m)[i].name == name {
            1nat
        } else {
            0nat
        },
{
    lemma_metric_families(m);
    lemma_histogram_headings();
    lemma_model_labels(m.model_id@);
    let (fs, hs) = (all_families(m), histogram_headings());
    let labels = model_labels(m.model_id@);
    lemma_families(fs, labels, fs.len(), name);
    lemma_named_in_both(fs, hs, name, 8);
    lemma_named_once(fs + hs, 0, 122, name, (fs + hs).len());
    assert(metric_families(m) == fs + hs);
    lemma_headings_named(name);
    assert(prometheus_text(m) == with_histograms(
        m,
        families_text(fs, labels, fs.len()),
        labels,
    ));
    lemma_histogram_texts(m, families_text(fs, labels, fs.len()), labels, name);
}

/// Metrics that have not changed are rendered as the same text again.
pub proof fn law_rendering_is_repeatable(m: ServerMetrics, first: String, second: String)
    requires
        first@ == prometheus_text(m),
        second@ == prometheus_text(m),
    ensures
        first@ == second@,
{
}

} // verus!
