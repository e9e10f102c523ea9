//! Which log records are kept, and the default log filter.

use vstd::prelude::*;

use crate::text::{chars_of, has_prefix};

verus! {

/// The default log filter when no filter is set in the environment: nothing
/// when logging is silenced; otherwise `level` for this crate, both servers
/// and the HTTP middleware, and `trace` for rejected requests.
pub open spec fn spec_filter_directive(silent: bool, level: Seq<char>, crate_name: Seq<char>) -> Seq<char> {
    if silent {
        "none"@
    } else {
        crate_name + "="@ + level + ",blog_server="@ + level + ",file_server="@ + level
            + ",tower_http="@ + level + ",axum::rejection=trace"@
    }
}

pub fn filter_directive(silent: bool, level: &str, crate_name: &str) -> (r: String)
    ensures
        r@ == spec_filter_directive(silent, level@, crate_name@),
        silent ==> r@ == "none"@,
        !silent ==> r@ == crate_name@ + "="@ + level@ + ",blog_server="@ + level@
            + ",file_server="@ + level@ + ",tower_http="@ + level@ + ",axum::rejection=trace"@,
{
    if silent {
        return String::from_str("none");
    }
    let mut d = String::from_str(crate_name);
    d.append("=");
    d.append(level);
    d.append(",blog_server=");
    d.append(level);
    d.append(",file_server=");
    d.append(level);
    d.append(",tower_http=");
    d.append(level);
    d.append(",axum::rejection=trace");
    d
}

/// Fields named like these carry metrics, which go to the metrics exporter
/// and not to the logs.
pub open spec fn is_metric_field(name: Seq<char>) -> bool {
    ||| "monotonic_counter."@.is_prefix_of(name)
    ||| "counter."@.is_prefix_of(name)
    ||| "histogram."@.is_prefix_of(name)
    ||| "gauge."@.is_prefix_of(name)
}

pub fn is_metric_field_name(name: &str) -> (r: bool)
    ensures
        r == is_metric_field(name@),
{
    let cs = chars_of(name);
    has_prefix(&cs, &chars_of("monotonic_counter.")) || has_prefix(&cs, &chars_of("counter."))
        || has_prefix(&cs, &chars_of("histogram.")) || has_prefix(&cs, &chars_of("gauge."))
}

/// What the log outputs record: every span, and every event that has at
/// least one field that is not a metric.
pub open spec fn spec_shows_in_logs(is_event: bool, fields: Seq<&str>) -> bool {
    !is_event || exists|i: int| 0 <= i < fields.len() && !is_metric_field(#[trigger] fields[i]@)
}

/// Every target but rejected requests gets the chosen level: the crate, both
/// servers and the HTTP middleware, in that order; silenced logging keeps
/// nothing.
pub proof fn lemma_filter_directive_levels(silent: bool, level: Seq<char>, crate_name: Seq<char>)
    ensures
        silent ==> spec_filter_directive(silent, level, crate_name) == "none"@,
        !silent ==> spec_filter_directive(silent, level, crate_name) == crate_name + "="@ + level
            + ",blog_server="@ + level + ",file_server="@ + level + ",tower_http="@ + level
            + ",axum::rejection=trace"@,
{
}

/// A field name without a `.` is never a metric (every metric prefix ends
/// with a `.`), so plain fields such as `message` always reach the logs.
pub proof fn lemma_plain_names_are_not_metrics(name: Seq<char>)
    requires
        !name.contains('.'),
    ensures
        !is_metric_field(name),
{
    reveal_strlit("monotonic_counter.");
    reveal_strlit("counter.");
    reveal_strlit("histogram.");
    reveal_strlit("gauge.");
    let ps = seq!["monotonic_counter."@, "counter."@, "histogram."@, "gauge."@];
    assert forall|k: int| 0 <= k < 4 implies !(#[trigger] ps[k]).is_prefix_of(name) by {
        let p = ps[k];
        let j = p.len() - 1;
        assert(p[j] == '.');
        if p.is_prefix_of(name) {
            assert(name[j] == '.');
            assert(name.contains('.'));
        }
    }
    assert(!ps[0].is_prefix_of(name));
    assert(!ps[1].is_prefix_of(name));
    assert(!ps[2].is_prefix_of(name));
    assert(!ps[3].is_prefix_of(name));
}

/// An event is shown when any of its fields, wherever it stands, is not a
/// metric, and hidden when all of them are; spans are always shown.
pub proof fn lemma_shows_in_logs_fields(is_event: bool, fields: Seq<&str>)
    ensures
        !is_event ==> spec_shows_in_logs(is_event, fields),
        forall|i: int|
            0 <= i < fields.len() && !is_metric_field(#[trigger] fields[i]@) ==> spec_shows_in_logs(
                is_event,
                fields,
            ),
        is_event && (forall|i: int| 0 <= i < fields.len() ==> is_metric_field(#[trigger] fields[i]@))
            ==> !spec_shows_in_logs(is_event, fields),
{
}

pub fn shows_in_logs(is_event: bool, field_names: &[&str]) -> (r: bool)
    ensures
        r == spec_shows_in_logs(is_event, field_names@),
        !is_event ==> r,
        forall|i: int|
            0 <= i < field_names@.len() && !is_metric_field(#[trigger] field_names@[i]@) ==> r,
        is_event && (forall|i: int|
            0 <= i < field_names@.len() ==> is_metric_field(#[trigger] field_names@[i]@)) ==> !r,
{
    if !is_event {
        return true;
    }
    let mut i: usize = 0;
    while i < field_names.len()
        invariant
            i <= field_names@.len(),
            forall|j: int| 0 <= j < i ==> is_metric_field(#[trigger] field_names@[j]@),
        decreases field_names@.len() - i,
    {
        if !is_metric_field_name(field_names[i]) {
            return true;
        }
        i = i + 1;
    }
    false
}

} // verus!
