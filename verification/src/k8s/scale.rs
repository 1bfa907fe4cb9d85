//! Kinds of object whose number of replicas can be set.
use crate::app::state::deployments::Deployment;
use vstd::prelude::*;

verus! {

/// A kind of object that has a number of replicas.
pub trait Scalable {

}

impl Scalable for Deployment {

}

/// The sum of a number of replicas and a change to it, kept within the
/// bounds of the number type.
pub open spec fn saturating_sum(current: i32, amount: i32) -> i32 {
    if current + amount > i32::MAX {
        i32::MAX
    } else if current + amount < i32::MIN {
        i32::MIN
    } else {
        (current + amount) as i32
    }
}

/// The number of replicas to ask for when `current` are wanted so far and
/// the number is to change by `amount`; none where that changes nothing.
pub open spec fn scale_target(current: i32, amount: i32) -> Option<i32> {
    if saturating_sum(current, amount) != current {
        Some(saturating_sum(current, amount))
    } else {
        None
    }
}

/// The number of replicas to ask for, if any.
pub fn scaled(current: i32, amount: i32) -> (target: Option<i32>)
    ensures
        target == scale_target(current, amount),
{
    let sum: i64 = current as i64 + amount as i64;
    let replicas: i32 = if sum > i32::MAX as i64 {
        i32::MAX
    } else if sum < i32::MIN as i64 {
        i32::MIN
    } else {
        sum as i32
    };
    if replicas != current {
        Some(replicas)
    } else {
        None
    }
}

} // verus!
