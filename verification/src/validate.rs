//! Readiness validators: pure inspections of captured command output. The
//! command executor (outside the library) runs the listing command and hands
//! the captured text in; each validator decides presence by the documented
//! marker substring and reports a [`ServiceStatus`].

use vstd::prelude::*;
use crate::text::contains_seq;
use crate::text::contains_str;

verus! {

/// The transient result of one readiness probe: which service was probed,
/// whether it was found present, and the raw output that was examined.
#[derive(Debug)]
pub struct ServiceStatus {
    pub name: String,
    pub present: bool,
    pub raw_output: String,
}

/// A probe over captured output: present exactly when `marker` occurs in it.
fn evaluate_probe(name: &str, marker: &str, output: String) -> (s: ServiceStatus)
    ensures
        s.name@ == name@,
        s.present == contains_seq(output@, marker@),
        s.raw_output@ == output@,
{
    let present = contains_str(output.as_str(), marker);
    ServiceStatus { name: name.to_owned(), present, raw_output: output }
}

/// Is the analytics-store container running? `output` is the captured
/// container listing filtered to `clickhousedb-1`; the store is present
/// exactly when the text mentions `clickhouse`.
pub fn validate_clickhouse_run(output: String) -> (s: ServiceStatus)
    ensures
        s.name@ == "clickhousedb-1"@,
        s.present == contains_seq(output@, "clickhouse"@),
        s.raw_output@ == output@,
{
    evaluate_probe("clickhousedb-1", "clickhouse", output)
}

/// Is the broker container running? `output` is the captured container
/// listing filtered to `redpanda-1`.
pub fn validate_red_panda_run(output: String) -> (s: ServiceStatus)
    ensures
        s.name@ == "redpanda-1"@,
        s.present == contains_seq(output@, "redpanda-1"@),
        s.raw_output@ == output@,
{
    evaluate_probe("redpanda-1", "redpanda-1", output)
}

/// Does the `panda_house` virtual network exist? `output` is the captured
/// network listing.
pub fn validate_panda_house_network(output: String) -> (s: ServiceStatus)
    ensures
        s.name@ == "panda_house"@,
        s.present == contains_seq(output@, "panda_house"@),
        s.raw_output@ == output@,
{
    evaluate_probe("panda_house", "panda_house", output)
}

/// Is the broker cluster up? `output` is the captured cluster listing from
/// the broker's own tooling.
pub fn validate_red_panda_cluster(output: String) -> (s: ServiceStatus)
    ensures
        s.name@ == "redpanda-1"@,
        s.present == contains_seq(output@, "redpanda-1"@),
        s.raw_output@ == output@,
{
    evaluate_probe("redpanda-1", "redpanda-1", output)
}

} // verus!
