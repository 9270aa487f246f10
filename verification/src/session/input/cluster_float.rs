//! Floating a cluster member out of its layout, and back.

use vstd::prelude::*;

use crate::geometry::Point;
use crate::geometry::Rectangle;
use crate::ids::ClusterId;
use crate::ids::NodeId;
use crate::num::clamp_i32;
use crate::num::saturating_add_i32;
use crate::num::saturating_sub_i32;
use crate::steps::text_of;

verus! {

/// What a float toggle reads of the focused window.
#[derive(Debug)]
pub struct FloatRecord {
    pub id: NodeId,
    pub cluster: Option<ClusterId>,
    /// The output of that cluster.
    pub cluster_output: Option<String>,
    /// The cluster that is active on that output.
    pub active_cluster: Option<ClusterId>,
    pub fullscreen: bool,
    pub maximized: bool,
    pub grabbed: bool,
}

/// What a float toggle reads of the session.
#[derive(Debug)]
pub struct FloatFacts {
    /// The window focused on the output of the action, where there is one.
    pub record: Option<FloatRecord>,
    /// Where the output of the action lies.
    pub output: Option<Rectangle>,
    /// Where the output of the cluster lies.
    pub cluster_output: Option<Rectangle>,
    /// Where the window is shown, from the corner of its output.
    pub presented: Option<Rectangle>,
    /// Where the window is mapped in the field.
    pub mapped: Option<Rectangle>,
}

/// A member to float or to put back, and where it is now.
#[derive(Debug)]
pub struct FloatRequest {
    pub id: NodeId,
    pub cluster_output: String,
    /// From the corner of the cluster's output.
    pub current: Rectangle,
}

/// The window is a member of the active cluster of its output, and free to move.
pub open spec fn may_float(record: FloatRecord) -> bool {
    &&& record.cluster is Some
    &&& record.cluster_output is Some
    &&& record.active_cluster == record.cluster
    &&& !record.fullscreen
    &&& !record.maximized
    &&& !record.grabbed
}

/// Where the window is, from the corner of its output. Here and below, sums and
/// differences of coordinates are held in their range.
pub open spec fn output_local(facts: FloatFacts) -> Option<(int, int)> {
    match (facts.presented, facts.mapped, facts.output) {
        (Some(shown), _, _) => Some((shown.loc.x as int, shown.loc.y as int)),
        (None, Some(mapped), Some(output)) => Some(
            (clamp_i32(mapped.loc.x - output.loc.x), clamp_i32(mapped.loc.y - output.loc.y)),
        ),
        _ => None,
    }
}

/// Every fact that a float toggle needs is there.
pub open spec fn float_possible(facts: FloatFacts) -> bool {
    &&& facts.record matches Some(record) && may_float(record)
    &&& facts.output is Some
    &&& facts.cluster_output is Some
    &&& output_local(facts) is Some
}

/// Decides whether the focused window floats out of its cluster or goes back, and
/// from where.
pub fn toggle_focused_cluster_float(facts: &FloatFacts) -> (request: Option<FloatRequest>)
    ensures
        request is Some <==> float_possible(*facts),
        request matches Some(request) ==> {
            let local = output_local(*facts)->0;
            &&& request.id == facts.record->0.id
            &&& Some(request.cluster_output@) == text_of(facts.record->0.cluster_output)
            &&& request.current.loc.x == clamp_i32(
                clamp_i32(facts.output->0.loc.x + local.0) - facts.cluster_output->0.loc.x,
            )
            &&& request.current.loc.y == clamp_i32(
                clamp_i32(facts.output->0.loc.y + local.1) - facts.cluster_output->0.loc.y,
            )
            &&& request.current.size == (match facts.presented {
                Some(shown) => shown.size,
                None => facts.mapped->0.size,
            })
        },
{
    let record = match &facts.record {
        Some(record) => record,
        None => {
            return None;
        },
    };
    let cluster = match record.cluster {
        Some(cluster) => cluster,
        None => {
            return None;
        },
    };
    let cluster_output = match &record.cluster_output {
        Some(cluster_output) => cluster_output,
        None => {
            return None;
        },
    };
    let active = match record.active_cluster {
        Some(active) => active == cluster,
        None => false,
    };
    if !active || record.fullscreen || record.maximized || record.grabbed {
        return None;
    }
    let output = match facts.output {
        Some(output) => output,
        None => {
            return None;
        },
    };
    let cluster_area = match facts.cluster_output {
        Some(cluster_area) => cluster_area,
        None => {
            return None;
        },
    };
    let current = match facts.presented {
        Some(shown) => shown,
        None => match facts.mapped {
            Some(mapped) => Rectangle::new(
                Point::new(
                    saturating_sub_i32(mapped.loc.x, output.loc.x),
                    saturating_sub_i32(mapped.loc.y, output.loc.y),
                ),
                mapped.size,
            ),
            None => {
                return None;
            },
        },
    };
    let loc = Point::new(
        saturating_sub_i32(saturating_add_i32(output.loc.x, current.loc.x), cluster_area.loc.x),
        saturating_sub_i32(saturating_add_i32(output.loc.y, current.loc.y), cluster_area.loc.y),
    );
    Some(
        FloatRequest {
            id: record.id,
            cluster_output: cluster_output.clone(),
            current: Rectangle::new(loc, current.size),
        },
    )
}

/// What follows once a member floats or is back in its layout.
#[derive(Debug)]
pub struct FloatFollowUp {
    /// The output that the member is on now.
    pub member_output: String,
    /// That output's surfaces are arranged anew besides those of the cluster.
    pub reconcile_member_output: bool,
    /// The window comes to the front.
    pub raise: bool,
}

/// What follows a float toggle: the member goes to the output it floats on, or back
/// to that of its cluster, and a floating one comes to the front.
pub fn float_follow_up(
    floating: bool,
    floating_output: Option<String>,
    cluster_output: &String,
) -> (r: FloatFollowUp)
    ensures
        r.member_output@ == (match floating_output {
            Some(output) => output@,
            None => cluster_output@,
        }),
        r.reconcile_member_output == (r.member_output@ != cluster_output@),
        r.raise == floating,
{
    let member_output = match floating_output {
        Some(output) => output,
        None => cluster_output.clone(),
    };
    let reconcile_member_output = !(member_output == *cluster_output);
    FloatFollowUp { member_output, reconcile_member_output, raise: floating }
}

/// A window floats only out of the cluster that is active on the cluster's own output, and
/// only while it neither fills its output, nor is maximized, nor held.
pub proof fn members_of_the_active_cluster_float(record: FloatRecord)
    ensures
        may_float(record) ==> record.cluster is Some && record.active_cluster == record.cluster
            && record.cluster_output is Some && !record.fullscreen && !record.maximized
            && !record.grabbed,
        record.cluster is Some && record.active_cluster == record.cluster && record.cluster_output
            is Some && !record.fullscreen && !record.maximized && !record.grabbed ==> may_float(
            record,
        ),
{
}

/// A window is where it is shown. One that is not shown is where it is mapped, from the
/// corner of its output, as far as coordinates reach.
pub proof fn floating_starts_from_where_the_window_is(facts: FloatFacts)
    ensures
        facts.presented matches Some(shown) ==> output_local(facts) == Some(
            (shown.loc.x as int, shown.loc.y as int),
        ),
        facts.presented is None && facts.mapped is Some && facts.output is Some && i32::MIN
            <= facts.mapped->0.loc.x - facts.output->0.loc.x <= i32::MAX && i32::MIN
            <= facts.mapped->0.loc.y - facts.output->0.loc.y <= i32::MAX ==> output_local(facts)
            is Some && (output_local(facts)->0).0 + facts.output->0.loc.x == facts.mapped->0.loc.x
            && (output_local(facts)->0).1 + facts.output->0.loc.y == facts.mapped->0.loc.y,
        facts.presented is None && facts.mapped is None ==> output_local(facts) is None,
{
}

/// Floating needs a member of an active cluster, both outputs, and a place to start from.
pub proof fn floating_needs_a_member_and_a_place(facts: FloatFacts)
    ensures
        float_possible(facts) ==> facts.record is Some && may_float(facts.record->0)
            && facts.output is Some && facts.cluster_output is Some && (facts.presented is Some
            || facts.mapped is Some),
        facts.record is Some && may_float(facts.record->0) && facts.output is Some
            && facts.cluster_output is Some && (facts.presented is Some || facts.mapped is Some)
            ==> float_possible(facts),
{
}

} // verus!
