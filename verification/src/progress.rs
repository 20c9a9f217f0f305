//! Progress events: the structured event pushed to the UI sink at each
//! stage boundary, and the staged percentage formulas of the long
//! provisioning loops.

use vstd::prelude::*;

verus! {

/// One staged progress event: stage id, message, and a current/total
/// pair.
#[derive(Clone, Debug)]
pub struct LaunchProgress {
    pub stage: String,
    pub message: String,
    pub current: u64,
    pub total: u64,
}

/// Assembles a progress event.
pub fn make_progress(stage: &str, message: &str, current: u64, total: u64) -> (r: LaunchProgress)
    ensures
        r.stage@ == stage@,
        r.message@ == message@,
        r.current == current,
        r.total == total,
{
    LaunchProgress { stage: stage.to_owned(), message: message.to_owned(), current, total }
}

/// The overall percentage while the `i`-th of `total` game libraries is
/// handled: the library stage spans 15 to 40. The bound on `total` keeps
/// the product within the machine word.
pub fn library_stage_progress(i: u64, total: u64) -> (r: u64)
    requires
        i < total,
        total <= 100_000_000,
    ensures
        r == 15 + (i as int * 25) / (total as int),
        15 <= r < 40,
{
    proof {
        assert(0 <= (i as int * 25) / (total as int) < 25) by (nonlinear_arith)
            requires
                0 <= i < total,
        ;
    }
    15 + (i * 25) / total
}

/// The overall percentage after `done` of `total` assets: the asset
/// stage spans 45 to 65.
pub fn asset_stage_progress(done: u64, total: u64) -> (r: u64)
    requires
        0 < total,
        done <= total,
        total <= 100_000_000,
    ensures
        r == 45 + (done as int * 20) / (total as int),
        45 <= r <= 65,
{
    proof {
        assert(0 <= (done as int * 20) / (total as int) <= 20) by (nonlinear_arith)
            requires
                0 <= done <= total,
                0 < total,
        ;
    }
    45 + (done * 20) / total
}

/// The overall percentage while the `i`-th of `total` mod-loader
/// libraries is handled: the stage spans 70 to 85.
pub fn fabric_stage_progress(i: u64, total: u64) -> (r: u64)
    requires
        i < total,
        total <= 100_000_000,
    ensures
        r == 70 + (i as int * 15) / (total as int),
        70 <= r < 85,
{
    proof {
        assert(0 <= (i as int * 15) / (total as int) < 15) by (nonlinear_arith)
            requires
                0 <= i < total,
        ;
    }
    70 + (i * 15) / total
}

} // verus!
