//! Changes, severities, and the exit-code contract.
//!
//! Upstream changes carry a rich severity enumeration; the renderer
//! knows only pass or fail. The mapping is fixed: an upstream notice
//! passes, an upstream failure fails, and any other upstream value is a
//! programming-error class that the mapping refuses by precondition
//! rather than coercing silently. The number of failing changes decides
//! the exit signal: success, a singular-phrased failure, or a
//! plural-phrased failure with the exact count.

use vstd::prelude::*;

verus! {

/// Severity of one rendered change.
#[derive(Clone, Copy, Debug, PartialEq, Eq, Structural)]
pub enum ChangeSeverity {
    Pass,
    Fail,
}

impl ChangeSeverity {
    /// The console label of this severity.
    pub open spec fn spec_label(self) -> Seq<char> {
        match self {
            ChangeSeverity::Pass => "PASS"@,
            ChangeSeverity::Fail => "FAIL"@,
        }
    }

    /// The upper-case label the renderer prints for this severity.
    pub fn label(&self) -> (r: &'static str)
        ensures
            r@ == self.spec_label(),
    {
        match self {
            ChangeSeverity::Pass => "PASS",
            ChangeSeverity::Fail => "FAIL",
        }
    }
}

/// One rendered change: a severity, a code, and a description, kept in
/// the order the upstream response gave them.
#[derive(Clone, Debug, PartialEq, Eq)]
pub struct Change {
    pub change_severity: ChangeSeverity,
    pub code: String,
    pub description: String,
}

/// The mathematical image of a `Change`.
#[verifier::ext_equal]
pub struct ChangeModel {
    pub change_severity: ChangeSeverity,
    pub code: Seq<char>,
    pub description: Seq<char>,
}

impl View for Change {
    type V = ChangeModel;

    open spec fn view(&self) -> ChangeModel {
        ChangeModel {
            change_severity: self.change_severity,
            code: self.code@,
            description: self.description@,
        }
    }
}

/// The severity enumeration as the upstream response carries it. The
/// registry may extend it; a value outside notice and failure is an
/// invariant violation here, not a valid state.
#[derive(Clone, Debug, PartialEq, Eq)]
pub enum UpstreamChangeSeverity {
    Notice,
    Failure,
    Other(String),
}

/// One change as the upstream response carries it.
#[derive(Clone, Debug, PartialEq, Eq)]
pub struct UpstreamChange {
    pub severity: UpstreamChangeSeverity,
    pub code: String,
    pub description: String,
}

/// The fixed mapping covers exactly notice and failure.
pub open spec fn severity_known(s: UpstreamChangeSeverity) -> bool {
    s is Notice || s is Failure
}

/// The fixed severity mapping: a notice passes, a failure fails.
pub open spec fn mapped_severity(s: UpstreamChangeSeverity) -> ChangeSeverity {
    if s is Notice {
        ChangeSeverity::Pass
    } else {
        ChangeSeverity::Fail
    }
}

/// One upstream change, mapped for rendering.
pub open spec fn mapped_change(c: UpstreamChange) -> ChangeModel {
    ChangeModel {
        change_severity: mapped_severity(c.severity),
        code: c.code@,
        description: c.description@,
    }
}

/// The upstream changes mapped for rendering, in their given order.
pub open spec fn mapped_changes(changes: Seq<UpstreamChange>) -> Seq<ChangeModel> {
    changes.map_values(|c: UpstreamChange| mapped_change(c))
}

/// Every severity in the list is one the mapping covers.
pub open spec fn all_severities_known(changes: Seq<UpstreamChange>) -> bool {
    forall|i: int|
        0 <= i < changes.len() ==> severity_known((#[trigger] changes[i]).severity)
}

/// How many upstream changes carry the failure severity.
pub open spec fn upstream_failure_count(changes: Seq<UpstreamChange>) -> int
    decreases changes.len(),
{
    if changes.len() == 0 {
        0
    } else {
        upstream_failure_count(changes.drop_last()) + (if changes.last().severity is Failure {
            1int
        } else {
            0int
        })
    }
}

/// How many rendered changes fail.
pub open spec fn fail_count(changes: Seq<ChangeModel>) -> int
    decreases changes.len(),
{
    if changes.len() == 0 {
        0
    } else {
        fail_count(changes.drop_last()) + (if changes.last().change_severity is Fail {
            1int
        } else {
            0int
        })
    }
}

/// Maps each upstream change to a rendered change through the fixed
/// severity mapping, preserving order, and counts the failures along
/// the way. An upstream severity outside the mapping is a programming
/// error, excluded by precondition: this function never coerces it.
#[verifier::loop_isolation(false)]
pub fn get_changes(checks: &Vec<UpstreamChange>) -> (r: (Vec<Change>, usize))
    requires
        all_severities_known(checks@),
    ensures
        r.0@.map_values(|c: Change| c@) == mapped_changes(checks@),
        r.1 == upstream_failure_count(checks@),
{
    let mut changes: Vec<Change> = Vec::new();
    let mut num_failures: usize = 0;
    let mut i: usize = 0;
    while i < checks.len()
        invariant
            i <= checks.len(),
            num_failures <= i,
            changes@.map_values(|c: Change| c@) == mapped_changes(checks@.take(i as int)),
            num_failures == upstream_failure_count(checks@.take(i as int)),
        decreases checks.len() - i,
    {
        let check = &checks[i];
        match &check.severity {
            UpstreamChangeSeverity::Notice => {
                changes.push(
                    Change {
                        change_severity: ChangeSeverity::Pass,
                        code: check.code.clone(),
                        description: check.description.clone(),
                    },
                );
            },
            UpstreamChangeSeverity::Failure => {
                num_failures = num_failures + 1;
                changes.push(
                    Change {
                        change_severity: ChangeSeverity::Fail,
                        code: check.code.clone(),
                        description: check.description.clone(),
                    },
                );
            },
            UpstreamChangeSeverity::Other(_) => {
                proof {
                    assert(severity_known(checks@[i as int].severity));
                }
                unreached()
            },
        }
        proof {
            assert(checks@.take(i + 1) =~= checks@.take(i as int).push(checks@[i as int]));
            assert(checks@.take(i + 1).drop_last() =~= checks@.take(i as int));
            assert(checks@.take(i + 1).last() == checks@[i as int]);
            assert(changes@.map_values(|c: Change| c@) =~= mapped_changes(
                checks@.take(i as int),
            ).push(mapped_change(checks@[i as int])));
            assert(mapped_changes(checks@.take(i + 1)) =~= mapped_changes(
                checks@.take(i as int),
            ).push(mapped_change(checks@[i as int])));
        }
        i = i + 1;
    }
    proof {
        assert(checks@.take(checks@.len() as int) =~= checks@);
    }
    (changes, num_failures)
}

/// The exit signal the calling boundary owes the user: plain success,
/// a singular-phrased failure, or a plural-phrased failure naming the
/// exact count.
#[derive(Clone, Copy, Debug, PartialEq, Eq, Structural)]
pub enum ExitSignal {
    Success,
    SingularFailure,
    PluralFailures { count: usize },
}

/// Which exit signal a failure count selects.
pub open spec fn signal_for(n: int) -> ExitSignal {
    if n == 0 {
        ExitSignal::Success
    } else if n == 1 {
        ExitSignal::SingularFailure
    } else {
        ExitSignal::PluralFailures { count: n as usize }
    }
}

/// Recomputes the failure count from the rendered change list alone and
/// selects the exit signal it owes: success exactly when nothing fails,
/// the singular phrasing for one failure, the plural phrasing with the
/// exact count otherwise.
#[verifier::loop_isolation(false)]
pub fn exit_signal(changes: &Vec<Change>) -> (r: ExitSignal)
    ensures
        r == signal_for(fail_count(changes@.map_values(|c: Change| c@))),
{
    let mut num_failures: usize = 0;
    let mut i: usize = 0;
    while i < changes.len()
        invariant
            i <= changes.len(),
            num_failures <= i,
            num_failures == fail_count(changes@.take(i as int).map_values(|c: Change| c@)),
        decreases changes.len() - i,
    {
        match &changes[i].change_severity {
            ChangeSeverity::Fail => {
                num_failures = num_failures + 1;
            },
            ChangeSeverity::Pass => {},
        }
        proof {
            let m = changes@.take(i as int).map_values(|c: Change| c@);
            let m1 = changes@.take(i + 1).map_values(|c: Change| c@);
            assert(m1 =~= m.push(changes@[i as int]@));
            assert(m1.drop_last() =~= m);
            assert(m1.last() == changes@[i as int]@);
        }
        i = i + 1;
    }
    proof {
        assert(changes@.take(changes@.len() as int) =~= changes@);
    }
    if num_failures == 0 {
        ExitSignal::Success
    } else if num_failures == 1 {
        ExitSignal::SingularFailure
    } else {
        ExitSignal::PluralFailures { count: num_failures }
    }
}

/// The failure count recomputed from the rendered change list agrees
/// with the count accumulated from the upstream severities while the
/// list was built, whenever every upstream severity is one the mapping
/// covers.
pub proof fn lemma_failure_count_consistent(checks: Seq<UpstreamChange>)
    requires
        all_severities_known(checks),
    ensures
        fail_count(mapped_changes(checks)) == upstream_failure_count(checks),
    decreases checks.len(),
{
    if checks.len() == 0 {
        assert(mapped_changes(checks) =~= Seq::<ChangeModel>::empty());
    } else {
        let rest = checks.drop_last();
        assert forall|i: int| 0 <= i < rest.len() implies severity_known(
            (#[trigger] rest[i]).severity,
        ) by {
            assert(rest[i] == checks[i]);
        }
        lemma_failure_count_consistent(rest);
        assert(mapped_changes(checks).drop_last() =~= mapped_changes(rest));
        assert(severity_known(checks[checks.len() - 1].severity));
        assert(mapped_changes(checks).last() == mapped_change(checks.last()));
    }
}

} // verus!
