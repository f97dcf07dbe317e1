//! The life of a connection as a state machine, and what holds of every run
//! of it.
//!
//! A connection drives HTTP/1 or HTTP/2 until it terminates: closed, upgraded
//! or failed. Each report of the active engine moves it by `machine_step`.
//! The connection's `poll` functions promise to move exactly so.

use vstd::prelude::*;
use crate::proto::{Dispatched, Kind, Parse, Polled};

verus! {

/// How a connection ended.
pub enum End {
    /// Closed cleanly.
    Close,
    /// Ended in an upgrade: the stream is no longer spoken HTTP on.
    Upgrade,
    /// Failed with an error of this kind.
    Error(Kind),
}

/// Where a connection stands.
pub enum Machine {
    DrivingH1,
    DrivingH2,
    Terminated(End),
}

/// The report of the HTTP/1 engine that it met the HTTP/2 preface.
pub open spec fn preface_report() -> Polled<Result<Dispatched, Kind>> {
    Polled::Ready(Err(Kind::Parse(Parse::VersionH2)))
}

/// Whether this report makes the machine switch from HTTP/1 to HTTP/2: it is
/// driving HTTP/1, the policy is to fall back, and the report is the preface.
pub open spec fn switching(
    m: Machine,
    fallback: bool,
    report: Polled<Result<Dispatched, Kind>>,
) -> bool {
    m == Machine::DrivingH1 && fallback && report == preface_report()
}

/// Where the machine stands after a report of the active engine.
pub open spec fn machine_step(
    m: Machine,
    fallback: bool,
    report: Polled<Result<Dispatched, Kind>>,
) -> Machine {
    match m {
        Machine::Terminated(_) => m,
        _ => match report {
            Polled::Pending => m,
            Polled::Ready(Ok(Dispatched::Shutdown)) => Machine::Terminated(End::Close),
            Polled::Ready(Ok(Dispatched::Upgrade)) => Machine::Terminated(End::Upgrade),
            Polled::Ready(Err(kind)) => if switching(m, fallback, report) {
                Machine::DrivingH2
            } else {
                Machine::Terminated(End::Error(kind))
            },
        },
    }
}

/// Where the machine stands after a run of reports.
pub open spec fn run(
    m: Machine,
    fallback: bool,
    reports: Seq<Polled<Result<Dispatched, Kind>>>,
) -> Machine
    decreases reports.len(),
{
    if reports.len() == 0 {
        m
    } else {
        run(machine_step(m, fallback, reports[0]), fallback, reports.skip(1))
    }
}

/// How often the machine switches protocols during a run of reports.
pub open spec fn switch_count(
    m: Machine,
    fallback: bool,
    reports: Seq<Polled<Result<Dispatched, Kind>>>,
) -> nat
    decreases reports.len(),
{
    if reports.len() == 0 {
        0
    } else {
        let here: nat = if switching(m, fallback, reports[0]) {
            1
        } else {
            0
        };
        here + switch_count(machine_step(m, fallback, reports[0]), fallback, reports.skip(1))
    }
}

/// No run switches more than once. A run that starts on HTTP/2, or without
/// the fallback policy, or terminated, never switches at all.
pub proof fn lemma_at_most_one_switch(
    m: Machine,
    fallback: bool,
    reports: Seq<Polled<Result<Dispatched, Kind>>>,
)
    ensures
        switch_count(m, fallback, reports) <= 1,
        m != Machine::DrivingH1 || !fallback ==> switch_count(m, fallback, reports) == 0,
    decreases reports.len(),
{
    if reports.len() > 0 {
        lemma_at_most_one_switch(machine_step(m, fallback, reports[0]), fallback, reports.skip(1));
    }
}

/// Under the fallback policy, a run on HTTP/1 whose first report is the
/// preface switches exactly once, at that report, and drives HTTP/2 from
/// then on until it terminates.
pub proof fn lemma_preface_switches_exactly_once(
    reports: Seq<Polled<Result<Dispatched, Kind>>>,
)
    requires
        reports.len() > 0,
        reports[0] == preface_report(),
    ensures
        machine_step(Machine::DrivingH1, true, reports[0]) == Machine::DrivingH2,
        switch_count(Machine::DrivingH1, true, reports) == 1,
        run(Machine::DrivingH1, true, reports) != Machine::DrivingH1,
{
    lemma_at_most_one_switch(Machine::DrivingH2, true, reports.skip(1));
    lemma_never_back_to_h1(Machine::DrivingH2, true, reports.skip(1));
}

/// A run never comes back to HTTP/1 once it has left it.
pub proof fn lemma_never_back_to_h1(
    m: Machine,
    fallback: bool,
    reports: Seq<Polled<Result<Dispatched, Kind>>>,
)
    requires
        m != Machine::DrivingH1,
    ensures
        run(m, fallback, reports) != Machine::DrivingH1,
    decreases reports.len(),
{
    if reports.len() > 0 {
        lemma_never_back_to_h1(machine_step(m, fallback, reports[0]), fallback, reports.skip(1));
    }
}

/// Without the fallback policy the preface ends a connection on HTTP/1 with
/// the parse error.
pub proof fn lemma_preface_fails_without_fallback()
    ensures
        machine_step(Machine::DrivingH1, false, preface_report()) == Machine::Terminated(
            End::Error(Kind::Parse(Parse::VersionH2)),
        ),
{
}

/// A terminated connection stays as it ended, whatever is reported after.
pub proof fn lemma_terminated_is_final(
    end: End,
    fallback: bool,
    reports: Seq<Polled<Result<Dispatched, Kind>>>,
)
    ensures
        run(Machine::Terminated(end), fallback, reports) == Machine::Terminated(end),
    decreases reports.len(),
{
    if reports.len() > 0 {
        lemma_terminated_is_final(end, fallback, reports.skip(1));
    }
}

} // verus!
