//! The lines of an exposition: which of them state the type of a metric.

use vstd::prelude::*;

use crate::double::{fixed_text, Binary};
use crate::metrics::exposition::{
    families_text, family_header, family_text, histogram_family, label_text, model_labels,
    samples_text, FamilyView,
};
use crate::metrics::histogram::{
    bound_value, bucket_line, bucket_lines, cumulative, histogram_text, sample_line, HistogramView,
};
use crate::text::{decimal, digit_char, padded_decimal, signed_decimal};

verus! {

/// A text without a line break.
pub open spec fn one_line(s: Seq<char>) -> bool {
    forall|i: int| 0 <= i < s.len() ==> s[i] != '\n'
}

/// The name of a metric: neither empty nor broken by a blank or a line break,
/// and not the beginning of a comment.
pub open spec fn is_name(s: Seq<char>) -> bool {
    &&& s.len() > 0
    &&& s[0] != '#'
    &&& forall|i: int| 0 <= i < s.len() ==> s[i] != '\n' && s[i] != ' '
}

/// What the line begins with that states the type of a metric.
pub open spec fn type_mark(name: Seq<char>) -> Seq<char> {
    "# TYPE "@ + name + " "@
}

/// The text holds the mark from place `i` on.
pub open spec fn marked_at(text: Seq<char>, i: int, mark: Seq<char>) -> bool {
    &&& i + mark.len() <= text.len()
    &&& forall|j: int| 0 <= j < mark.len() ==> text[i + j] == #[trigger] mark[j]
}

/// A line that states the type of the metric begins at place `i`.
pub open spec fn type_line_at(text: Seq<char>, name: Seq<char>, i: int) -> bool {
    &&& i == 0 || text[i - 1] == '\n'
    &&& marked_at(text, i, type_mark(name))
}

/// Lines among the first `n` places that state the type of the metric.
pub open spec fn type_lines_before(text: Seq<char>, name: Seq<char>, n: nat) -> nat
    decreases n,
{
    if n == 0 {
        0
    } else {
        type_lines_before(text, name, (n - 1) as nat) + if type_line_at(text, name, n - 1) {
            1nat
        } else {
            0nat
        }
    }
}

/// Lines that state the type of the metric.
#[verifier::opaque]
pub open spec fn type_lines(text: Seq<char>, name: Seq<char>) -> nat {
    type_lines_before(text, name, text.len())
}

/// A text of whole lines: it ends where a line ends.
pub open spec fn whole_lines(text: Seq<char>) -> bool {
    text.len() == 0 || text.last() == '\n'
}

proof fn lemma_mark(name: Seq<char>)
    requires
        one_line(name),
    ensures
        one_line(type_mark(name)),
        type_mark(name).len() == 8 + name.len(),
        type_mark(name)[0] == '#',
        type_mark(name)[2] == 'T',
        type_mark(name)[7 + name.len() as int] == ' ',
        forall|j: int| 0 <= j < name.len() ==> type_mark(name)[7 + j] == #[trigger] name[j],
{
    reveal_strlit("# TYPE ");
    reveal_strlit(" ");
    let mark = type_mark(name);
    assert forall|i: int| 0 <= i < mark.len() implies mark[i] != '\n' by {
        if i < 7 {
            assert(mark[i] == "# TYPE "@[i]);
            assert(i == 0 || i == 1 || i == 2 || i == 3 || i == 4 || i == 5 || i == 6);
        } else if i < 7 + name.len() {
            assert(mark[i] == name[i - 7]);
        }
    }
    assert forall|j: int| 0 <= j < name.len() implies mark[7 + j] == #[trigger] name[j] by {}
}

proof fn lemma_front(a: Seq<char>, b: Seq<char>, name: Seq<char>, n: nat)
    requires
        whole_lines(a),
        one_line(name),
        n <= a.len(),
    ensures
        type_lines_before(a + b, name, n) == type_lines_before(a, name, n),
    decreases n,
{
    if n > 0 {
        lemma_front(a, b, name, (n - 1) as nat);
        lemma_mark(name);
        let mark = type_mark(name);
        let i = n - 1;
        if marked_at(a + b, i, mark) {
            if i + mark.len() > a.len() {
                let j = a.len() - 1 - i;
                assert((a + b)[i + j] == mark[j]);
                assert(mark[j] != '\n');
                assert(false);
            }
            assert forall|j: int| 0 <= j < mark.len() implies a[i + j] == #[trigger] mark[j] by {
                assert((a + b)[i + j] == mark[j]);
            }
        } else if marked_at(a, i, mark) {
            assert forall|j: int| 0 <= j < mark.len() implies (a + b)[i + j]
                == #[trigger] mark[j] by {
                assert(a[i + j] == mark[j]);
            }
        }
    }
}

proof fn lemma_back(a: Seq<char>, b: Seq<char>, name: Seq<char>, n: nat)
    requires
        whole_lines(a),
        one_line(name),
        n <= b.len(),
    ensures
        type_lines_before(a + b, name, a.len() + n) == type_lines_before(a + b, name, a.len())
            + type_lines_before(b, name, n),
    decreases n,
{
    if n > 0 {
        lemma_back(a, b, name, (n - 1) as nat);
        let mark = type_mark(name);
        let i = n - 1;
        if marked_at(a + b, a.len() + i, mark) {
            assert forall|j: int| 0 <= j < mark.len() implies b[i + j] == #[trigger] mark[j] by {
                assert((a + b)[a.len() + i + j] == mark[j]);
            }
        } else if marked_at(b, i, mark) {
            assert forall|j: int| 0 <= j < mark.len() implies (a + b)[a.len() + i + j]
                == #[trigger] mark[j] by {
                assert(b[i + j] == mark[j]);
            }
        }
    }
}

/// Lines that state a type add up when texts of whole lines are joined.
pub proof fn lemma_joined(a: Seq<char>, b: Seq<char>, name: Seq<char>)
    requires
        whole_lines(a),
        whole_lines(b),
        one_line(name),
    ensures
        whole_lines(a + b),
        type_lines(a + b, name) == type_lines(a, name) + type_lines(b, name),
{
    reveal(type_lines);
    lemma_front(a, b, name, a.len());
    lemma_back(a, b, name, b.len());
    assert((a + b).len() == a.len() + b.len());
}

proof fn lemma_single_line(body: Seq<char>, name: Seq<char>, n: nat)
    requires
        one_line(body),
        0 < n <= body.len() + 1,
    ensures
        type_lines_before(body.push('\n'), name, n) == if marked_at(
            body.push('\n'),
            0,
            type_mark(name),
        ) {
            1nat
        } else {
            0nat
        },
    decreases n,
{
    let line = body.push('\n');
    if n > 1 {
        lemma_single_line(body, name, (n - 1) as nat);
        assert(line[n - 2] == body[n - 2]);
    } else {
        assert(type_lines_before(line, name, 0) == 0);
    }
}

proof fn lemma_joined_line(a: Seq<char>, b: Seq<char>)
    requires
        one_line(a),
        one_line(b),
    ensures
        one_line(a + b),
{
}

/// A line that does not begin a comment states no type.
proof fn lemma_plain_line(body: Seq<char>, name: Seq<char>)
    requires
        one_line(body),
        body.len() > 0,
        body[0] != '#',
        one_line(name),
    ensures
        whole_lines(body + "\n"@),
        type_lines(body + "\n"@, name) == 0,
{
    reveal(type_lines);
    reveal_strlit("\n");
    assert(body + "\n"@ =~= body.push('\n'));
    lemma_single_line(body, name, body.len() + 1);
    lemma_mark(name);
    let mark = type_mark(name);
    if marked_at(body.push('\n'), 0, mark) {
        assert(body.push('\n')[0int + 0] == mark[0]);
    }
}

proof fn lemma_digits_one_line(n: nat)
    ensures
        one_line(decimal(n)),
        decimal(n).len() > 0,
    decreases n,
{
    if n >= 10 {
        lemma_digits_one_line(n / 10);
    }
    assert(digit_char(n % 10) != '\n');
    assert(n < 10 ==> digit_char(n) != '\n');
}

proof fn lemma_padded_one_line(n: nat, width: nat)
    ensures
        one_line(padded_decimal(n, width)),
    decreases width,
{
    if width > 0 {
        lemma_padded_one_line(n / 10, (width - 1) as nat);
        assert(digit_char(n % 10) != '\n');
    }
}

/// Numbers are written without a line break.
pub proof fn lemma_numbers_one_line(n: nat, z: int, x: Binary, places: nat)
    ensures
        one_line(decimal(n)),
        one_line(signed_decimal(z)),
        one_line(fixed_text(x, places)),
{
    lemma_digits_one_line(n);
    reveal_strlit("-");
    reveal_strlit(".");
    if z < 0 {
        lemma_digits_one_line((-z) as nat);
        lemma_joined_line("-"@, decimal((-z) as nat));
    } else {
        lemma_digits_one_line(z as nat);
    }
    if x.exponent >= 0 {
        let whole = x.mantissa * vstd::arithmetic::power2::pow2(x.exponent as nat);
        lemma_digits_one_line(whole);
        lemma_padded_one_line(0, places);
        lemma_joined_line(decimal(whole), "."@);
        lemma_joined_line(decimal(whole) + "."@, padded_decimal(0, places));
    } else {
        let unit = vstd::arithmetic::power::pow(10, places) as nat;
        let k = crate::double::round_half_even(
            x.mantissa * unit,
            vstd::arithmetic::power2::pow2((-x.exponent) as nat),
        );
        lemma_digits_one_line(k / unit);
        lemma_padded_one_line(k % unit, places);
        lemma_joined_line(decimal(k / unit), "."@);
        lemma_joined_line(decimal(k / unit) + "."@, padded_decimal(k % unit, places));
    }
}

/// The line of a sample states no type.
proof fn lemma_sample_line(of: Seq<char>, labels: Seq<char>, value: Seq<char>, name: Seq<char>)
    requires
        is_name(of),
        one_line(labels),
        one_line(value),
        one_line(name),
    ensures
        whole_lines(sample_line(of, labels, value)),
        type_lines(sample_line(of, labels, value), name) == 0,
{
    reveal_strlit("{");
    reveal_strlit("} ");
    let body = of + "{"@ + labels + "} "@ + value;
    assert(body[0] == of[0]);
    lemma_joined_line(of, "{"@);
    lemma_joined_line(of + "{"@, labels);
    lemma_joined_line(of + "{"@ + labels, "} "@);
    lemma_joined_line(of + "{"@ + labels + "} "@, value);
    lemma_plain_line(body, name);
}

/// The line of a bucket states no type.
proof fn lemma_bucket_line(
    of: Seq<char>,
    labels: Seq<char>,
    bound: Seq<char>,
    count: nat,
    name: Seq<char>,
)
    requires
        is_name(of),
        one_line(labels),
        one_line(bound),
        one_line(name),
    ensures
        whole_lines(bucket_line(of, labels, bound, count)),
        type_lines(bucket_line(of, labels, bound, count), name) == 0,
{
    reveal_strlit("_bucket{");
    reveal_strlit("le=\"");
    reveal_strlit("\"} ");
    let body = of + "_bucket{"@ + labels + "le=\""@ + bound + "\"} "@ + decimal(count);
    assert(body[0] == of[0]);
    lemma_digits_one_line(count);
    lemma_joined_line(of, "_bucket{"@);
    lemma_joined_line(of + "_bucket{"@, labels);
    lemma_joined_line(of + "_bucket{"@ + labels, "le=\""@);
    lemma_joined_line(of + "_bucket{"@ + labels + "le=\""@, bound);
    lemma_joined_line(of + "_bucket{"@ + labels + "le=\""@ + bound, "\"} "@);
    lemma_joined_line(of + "_bucket{"@ + labels + "le=\""@ + bound + "\"} "@, decimal(count));
    lemma_plain_line(body, name);
}

/// One where the names are the same, zero where they are not.
pub open spec fn same_name(a: Seq<char>, b: Seq<char>) -> nat {
    if a == b {
        1
    } else {
        0
    }
}

/// The header of a family states its type, and no other.
proof fn lemma_header(of: Seq<char>, help: Seq<char>, kind: Seq<char>, name: Seq<char>)
    requires
        is_name(of),
        one_line(help),
        one_line(kind),
        is_name(name),
    ensures
        whole_lines(family_header(of, help, kind)),
        type_lines(family_header(of, help, kind), name) == same_name(of, name),
{
    reveal(type_lines);
    reveal_strlit("# HELP ");
    reveal_strlit(" ");
    reveal_strlit("\n# TYPE ");
    reveal_strlit("# TYPE ");
    reveal_strlit("\n");
    lemma_mark(name);
    let mark = type_mark(name);
    let first = "# HELP "@ + of + " "@ + help;
    let second = "# TYPE "@ + of + " "@ + kind;
    assert("\n# TYPE "@ =~= seq!['\n'] + "# TYPE "@);
    assert(family_header(of, help, kind) =~= first.push('\n') + second.push('\n'));
    assert(one_line("# HELP "@)) by {
        assert forall|i: int| 0 <= i < 7 implies "# HELP "@[i] != '\n' by {
            assert(i == 0 || i == 1 || i == 2 || i == 3 || i == 4 || i == 5 || i == 6);
        }
    }
    assert(one_line("# TYPE "@)) by {
        assert forall|i: int| 0 <= i < 7 implies "# TYPE "@[i] != '\n' by {
            assert(i == 0 || i == 1 || i == 2 || i == 3 || i == 4 || i == 5 || i == 6);
        }
    }
    lemma_joined_line("# HELP "@, of);
    lemma_joined_line("# HELP "@ + of, " "@);
    lemma_joined_line("# HELP "@ + of + " "@, help);
    lemma_joined_line("# TYPE "@, of);
    lemma_joined_line("# TYPE "@ + of, " "@);
    lemma_joined_line("# TYPE "@ + of + " "@, kind);
    lemma_single_line(first, name, first.len() + 1);
    lemma_single_line(second, name, second.len() + 1);
    assert(first[2] == 'H');
    if marked_at(first.push('\n'), 0, mark) {
        assert(first.push('\n')[0int + 2] == mark[2]);
    }
    lemma_marked_by_its_name(of, kind, name);
    lemma_joined(first.push('\n'), second.push('\n'), name);
}

proof fn lemma_marked_by_its_name(of: Seq<char>, kind: Seq<char>, name: Seq<char>)
    requires
        is_name(of),
        is_name(name),
    ensures
        marked_at(("# TYPE "@ + of + " "@ + kind).push('\n'), 0, type_mark(name)) <==> of == name,
{
    reveal_strlit("# TYPE ");
    reveal_strlit(" ");
    lemma_mark(name);
    lemma_mark(of);
    let line = ("# TYPE "@ + of + " "@ + kind).push('\n');
    let mark = type_mark(name);
    assert forall|j: int| 0 <= j < of.len() implies line[7 + j] == #[trigger] of[j] by {}
    assert(line[7 + of.len() as int] == ' ');
    if of == name {
        assert forall|j: int| 0 <= j < mark.len() implies line[0 + j] == #[trigger] mark[j] by {
            assert(line[j] == ("# TYPE "@ + of + " "@)[j]);
        }
    }
    if marked_at(line, 0, mark) {
        if of.len() < name.len() {
            let j = of.len() as int;
            assert(line[0 + (7 + j)] == mark[7 + j]);
            assert(mark[7 + j] == name[j]);
            assert(false);
        }
        if name.len() < of.len() {
            let j = name.len() as int;
            assert(line[0 + (7 + j)] == mark[7 + j]);
            assert(line[7 + j] == of[j]);
            assert(false);
        }
        assert forall|j: int| 0 <= j < of.len() implies of[j] == name[j] by {
            assert(line[0 + (7 + j)] == mark[7 + j]);
            assert(line[7 + j] == of[j]);
            assert(mark[7 + j] == name[j]);
        }
        assert(of =~= name);
    }
}

/// Nothing in a family breaks a line.
pub open spec fn is_plain(f: FamilyView) -> bool {
    &&& is_name(f.name)
    &&& one_line(f.help)
    &&& one_line(f.kind)
    &&& forall|i: int|
        0 <= i < f.samples.len() ==> one_line((#[trigger] f.samples[i]).label) && one_line(
            f.samples[i].value,
        )
}

proof fn lemma_samples(f: FamilyView, labels: Seq<char>, n: nat, name: Seq<char>)
    requires
        is_plain(f),
        one_line(labels),
        one_line(name),
        n <= f.samples.len(),
    ensures
        whole_lines(samples_text(f, labels, n)),
        type_lines(samples_text(f, labels, n), name) == 0,
    decreases n,
{
    reveal(type_lines);
    if n > 0 {
        lemma_samples(f, labels, (n - 1) as nat, name);
        let sample = f.samples[n - 1];
        lemma_joined_line(labels, sample.label);
        lemma_sample_line(f.name, labels + sample.label, sample.value, name);
        lemma_joined(
            samples_text(f, labels, (n - 1) as nat),
            sample_line(f.name, labels + sample.label, sample.value),
            name,
        );
    }
}

/// A family states its type once, and no other.
pub proof fn law_families_state_their_type_once(f: FamilyView, labels: Seq<char>, name: Seq<char>)
    requires
        is_plain(f),
        one_line(labels),
        is_name(name),
    ensures
        whole_lines(family_text(f, labels)),
        type_lines(family_text(f, labels), name) == same_name(f.name, name),
{
    lemma_header(f.name, f.help, f.kind, name);
    lemma_samples(f, labels, f.samples.len(), name);
    lemma_joined(
        family_header(f.name, f.help, f.kind),
        samples_text(f, labels, f.samples.len()),
        name,
    );
}

/// How many of the first `n` families have the name.
pub open spec fn families_named(fs: Seq<FamilyView>, name: Seq<char>, n: nat) -> nat
    decreases n,
{
    if n == 0 {
        0
    } else {
        families_named(fs, name, (n - 1) as nat) + same_name(fs[n - 1].name, name)
    }
}

/// A list of families states a type as often as families have the name.
pub proof fn lemma_families(fs: Seq<FamilyView>, labels: Seq<char>, n: nat, name: Seq<char>)
    requires
        n <= fs.len(),
        forall|i: int| 0 <= i < fs.len() ==> is_plain(#[trigger] fs[i]),
        one_line(labels),
        is_name(name),
    ensures
        whole_lines(families_text(fs, labels, n)),
        type_lines(families_text(fs, labels, n), name) == families_named(fs, name, n),
    decreases n,
{
    reveal(type_lines);
    if n > 0 {
        lemma_families(fs, labels, (n - 1) as nat, name);
        law_families_state_their_type_once(fs[n - 1], labels, name);
        lemma_joined(
            families_text(fs, labels, (n - 1) as nat),
            family_text(fs[n - 1], labels),
            name,
        );
    }
}

proof fn lemma_buckets(
    h: HistogramView,
    of: Seq<char>,
    labels: Seq<char>,
    n: nat,
    name: Seq<char>,
)
    requires
        is_name(of),
        one_line(labels),
        one_line(name),
    ensures
        whole_lines(bucket_lines(h, of, labels, n)),
        type_lines(bucket_lines(h, of, labels, n), name) == 0,
    decreases n,
{
    reveal(type_lines);
    if n > 0 {
        lemma_buckets(h, of, labels, (n - 1) as nat, name);
        let bound = bound_value(h, h.bounds[n - 1]);
        lemma_numbers_one_line(0, 0, bound, 3);
        lemma_bucket_line(of, labels, fixed_text(bound, 3), cumulative(h.counts, n), name);
        lemma_joined(
            bucket_lines(h, of, labels, (n - 1) as nat),
            bucket_line(of, labels, fixed_text(bound, 3), cumulative(h.counts, n)),
            name,
        );
    }
}

proof fn lemma_longer_name(of: Seq<char>, suffix: Seq<char>)
    requires
        is_name(of),
        forall|i: int| 0 <= i < suffix.len() ==> suffix[i] != '\n' && suffix[i] != ' ',
    ensures
        is_name(of + suffix),
{
}

/// A histogram states its type once, and no other.
pub proof fn law_histograms_state_their_type_once(
    h: HistogramView,
    of: Seq<char>,
    help: Seq<char>,
    labels: Seq<char>,
    name: Seq<char>,
)
    requires
        is_name(of),
        one_line(help),
        one_line(labels),
        is_name(name),
    ensures
        whole_lines(histogram_family(h, of, help, labels)),
        type_lines(histogram_family(h, of, help, labels), name) == same_name(of, name),
{
    reveal_strlit("histogram");
    reveal_strlit("+Inf");
    reveal_strlit("_sum");
    reveal_strlit("_count");
    assert(one_line("histogram"@)) by {
        assert forall|i: int| 0 <= i < 9 implies "histogram"@[i] != '\n' by {
            assert(i == 0 || i == 1 || i == 2 || i == 3 || i == 4 || i == 5 || i == 6 || i == 7 || i
                == 8);
        }
    }
    lemma_header(of, help, "histogram"@, name);
    let sum = fixed_text(crate::double::ratio(h.sum, h.scale), 6);
    lemma_numbers_one_line(h.count, 0, crate::double::ratio(h.sum, h.scale), 6);
    lemma_longer_name(of, "_sum"@);
    lemma_longer_name(of, "_count"@);
    let buckets = bucket_lines(h, of, labels, h.bounds.len());
    let last = bucket_line(of, labels, "+Inf"@, h.count);
    let sums = sample_line(of + "_sum"@, labels, sum);
    let counts = sample_line(of + "_count"@, labels, decimal(h.count));
    lemma_buckets(h, of, labels, h.bounds.len(), name);
    lemma_bucket_line(of, labels, "+Inf"@, h.count, name);
    lemma_sample_line(of + "_sum"@, labels, sum, name);
    lemma_sample_line(of + "_count"@, labels, decimal(h.count), name);
    lemma_joined(buckets, last, name);
    lemma_joined(buckets + last, sums, name);
    lemma_joined(buckets + last + sums, counts, name);
    lemma_joined(family_header(of, help, "histogram"@), histogram_text(h, of, labels), name);
}

/// The labels of a model whose name breaks no line break none.
pub proof fn lemma_model_labels(model_id: Seq<char>)
    requires
        one_line(model_id),
    ensures
        one_line(model_labels(model_id)),
{
    reveal_strlit("model");
    lemma_label("model"@, model_id);
}

/// A label of texts that break no line breaks none.
pub proof fn lemma_label(key: Seq<char>, value: Seq<char>)
    requires
        one_line(key),
        one_line(value),
    ensures
        one_line(label_text(key, value)),
{
    reveal_strlit("=\"");
    reveal_strlit("\",");
    lemma_joined_line(key, "=\""@);
    lemma_joined_line(key + "=\""@, value);
    lemma_joined_line(key + "=\""@ + value, "\","@);
}

} // verus!
