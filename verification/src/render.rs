//! How a render is scheduled: how many threads trace rays, which pixel each
//! ray index stands for, and when progress is reported.

use crate::config::physical_cores;
use crate::errors::RenderError;
use crate::scene::Screen;
use vstd::prelude::*;

verus! {

/// How many threads render: the configured maximum, no more than one per
/// physical core, and at least one.
pub open spec fn thread_count(max_threads: usize, cores: usize) -> usize {
    let m = if max_threads < cores {
        max_threads
    } else {
        cores
    };
    if m < 1 {
        1
    } else {
        m
    }
}

/// The number of render threads for `max_threads` and `cores` physical cores.
pub fn render_thread_count(max_threads: usize, cores: usize) -> (r: usize)
    ensures
        r == thread_count(max_threads, cores),
{
    let m = if max_threads < cores {
        max_threads
    } else {
        cores
    };
    if m < 1 {
        1
    } else {
        m
    }
}

/// The number of render threads for `max_threads` on this machine.
pub fn render_threads(max_threads: usize) -> (r: usize)
    ensures
        exists|cores: usize| cores >= 1 && r == thread_count(max_threads, cores),
        1 <= r,
        max_threads >= 1 ==> r <= max_threads,
{
    let cores = physical_cores();
    render_thread_count(max_threads, cores)
}

/// The number of pixels of a screen.
pub fn total_pixels(screen: Screen) -> (r: usize)
    requires
        screen.width * screen.height <= usize::MAX,
    ensures
        r == screen.width * screen.height,
{
    screen.width * screen.height
}

/// How progress is reported: `num_blocks` reports, one each time a ray whose
/// index is a multiple of `block_size` is traced.
#[derive(Clone, Copy, Debug, PartialEq, Eq, Structural)]
pub struct ProgressPlan {
    pub num_blocks: usize,
    pub block_size: usize,
}

pub open spec fn block_size_for(total: usize, num_blocks: usize) -> usize {
    if total / num_blocks < 1 {
        1
    } else {
        (total / num_blocks) as usize
    }
}

/// The progress plan for `num_progress_blocks` blocks over `total` pixels;
/// none (progress not reported) when no count or a count of 0 is given.
pub fn progress_plan(total: usize, num_progress_blocks: Option<usize>) -> (r: Option<ProgressPlan>)
    ensures
        match num_progress_blocks {
            Some(n) => if n == 0 {
                r is None
            } else {
                r == Some(ProgressPlan { num_blocks: n, block_size: block_size_for(total, n) })
            },
            None => r is None,
        },
        r matches Some(p) ==> p.num_blocks > 0 && p.block_size > 0,
{
    match num_progress_blocks {
        Some(n) => {
            if n == 0 {
                None
            } else {
                let q = total / n;
                let block_size = if q < 1 {
                    1
                } else {
                    q
                };
                Some(ProgressPlan { num_blocks: n, block_size })
            }
        },
        None => None,
    }
}

/// The percentage reported for the `block`-th report (counted from 1): none
/// past the last report.
pub open spec fn percent_for(num_blocks: nat, block: nat) -> Option<nat> {
    if block <= num_blocks {
        let p = block * 100 / num_blocks;
        Some(
            if p < 100 {
                p
            } else {
                100
            },
        )
    } else {
        None
    }
}

/// The percentage to report for the `block`-th report, if it is to be reported.
pub fn block_percent(plan: &ProgressPlan, block: usize) -> (r: Option<u8>)
    requires
        plan.num_blocks > 0,
    ensures
        match percent_for(plan.num_blocks as nat, block as nat) {
            Some(p) => r == Some(p as u8),
            None => r is None,
        },
{
    if block <= plan.num_blocks {
        let wide: u128 = (block as u128) * 100;
        let p: u128 = wide / (plan.num_blocks as u128);
        proof {
            assert(block as nat * 100 / plan.num_blocks as nat <= 100) by (nonlinear_arith)
                requires
                    block <= plan.num_blocks,
                    plan.num_blocks > 0,
            ;
        }
        let pc: u128 = if p < 100 {
            p
        } else {
            100
        };
        Some(pc as u8)
    } else {
        None
    }
}

/// The pixel that ray `ray_index` is traced for: its column and its row.
pub open spec fn pixel_of(ray_index: nat, width: nat) -> (nat, nat) {
    (ray_index % width, ray_index / width)
}

/// What to do with a ray index that a render thread has taken.
#[derive(Clone, Copy, Debug, PartialEq, Eq, Structural)]
pub enum RayStep {
    /// Every pixel has been handed out: the thread stops.
    Finished,
    /// Trace the pixel at column `i` and row `j`; `report` when the ray
    /// starts a progress block.
    Trace { i: usize, j: usize, report: bool },
}

/// The step for ray index `ray_index` on `screen`.
pub fn next_ray(screen: Screen, plan: &Option<ProgressPlan>, ray_index: usize) -> (r: RayStep)
    requires
        screen.width * screen.height <= usize::MAX,
        plan matches Some(p) ==> p.block_size > 0,
    ensures
        ray_index >= screen.width * screen.height ==> r == RayStep::Finished,
        ray_index < screen.width * screen.height ==> r == (RayStep::Trace {
            i: pixel_of(ray_index as nat, screen.width as nat).0 as usize,
            j: pixel_of(ray_index as nat, screen.width as nat).1 as usize,
            report: match plan {
                Some(p) => ray_index % p.block_size == 0,
                None => false,
            },
        }),
{
    let total = total_pixels(screen);
    if ray_index >= total {
        return RayStep::Finished;
    }
    let report = match plan {
        Some(p) => ray_index % p.block_size == 0,
        None => false,
    };
    proof {
        assert(screen.width > 0) by (nonlinear_arith)
            requires
                ray_index < screen.width * screen.height,
        ;
    }
    RayStep::Trace { i: ray_index % screen.width, j: ray_index / screen.width, report }
}

/// What a render reports to whoever follows it.
#[derive(Clone, Debug, PartialEq)]
pub enum RenderEvent {
    Progress { percent: u8 },
    Error(String),
    Canceled { millis: u128 },
    Finished { millis: u128 },
}

pub open spec fn threads_failed_message() -> Seq<char> {
    "render threads did not exit properly"@
}

/// The events that end a render after `millis` milliseconds, and its error:
/// render threads that did not exit properly end it with an error event and
/// that error; otherwise a canceled render reports its cancellation, and then
/// every render reports that it finished.
pub fn render_end(thread_error: bool, canceled: bool, millis: u128) -> (r: (
    Vec<RenderEvent>,
    Option<RenderError>,
))
    ensures
        thread_error ==> r.0@.len() == 1 && (r.0@[0] matches RenderEvent::Error(m) && m@
            == threads_failed_message()) && (r.1 matches Some(e) && e.0@ == threads_failed_message()),
        !thread_error && canceled ==> r.0@ == seq![
            RenderEvent::Canceled { millis },
            RenderEvent::Finished { millis },
        ] && r.1 is None,
        !thread_error && !canceled ==> r.0@ == seq![RenderEvent::Finished { millis }] && r.1 is None,
{
    let mut events: Vec<RenderEvent> = Vec::new();
    if thread_error {
        events.push(RenderEvent::Error(String::from_str("render threads did not exit properly")));
        return (events, Some(RenderError(String::from_str("render threads did not exit properly"))));
    }
    if canceled {
        events.push(RenderEvent::Canceled { millis });
    }
    events.push(RenderEvent::Finished { millis });
    (events, None)
}

// ----------------------------------------------------------------------------
// Laws of the schedule.
// ----------------------------------------------------------------------------

/// Every ray index below the screen's pixel count stands for a pixel of the
/// screen, and the index is recovered from the pixel: row times width plus
/// column. So each pixel is traced for exactly one index.
pub proof fn lemma_pixel_of_index(ray_index: nat, width: nat, height: nat)
    requires
        ray_index < width * height,
    ensures
        pixel_of(ray_index, width).0 < width,
        pixel_of(ray_index, width).1 < height,
        pixel_of(ray_index, width).1 * width + pixel_of(ray_index, width).0 == ray_index,
{
    assert(width > 0) by (nonlinear_arith)
        requires
            ray_index < width * height,
    ;
    assert(ray_index / width < height) by (nonlinear_arith)
        requires
            ray_index < width * height,
            width > 0,
    ;
    assert((ray_index / width) * width + ray_index % width == ray_index) by (nonlinear_arith)
        requires
            width > 0,
    ;
}

/// Distinct ray indices stand for distinct pixels.
pub proof fn lemma_pixel_of_injective(a: nat, b: nat, width: nat)
    requires
        width > 0,
        pixel_of(a, width) == pixel_of(b, width),
    ensures
        a == b,
{
    assert((a / width) * width + a % width == a) by (nonlinear_arith)
        requires
            width > 0,
    ;
    assert((b / width) * width + b % width == b) by (nonlinear_arith)
        requires
            width > 0,
    ;
}

/// The reported percentages never decrease, and the last report is 100%.
pub proof fn lemma_progress_reports(num_blocks: nat, b1: nat, b2: nat)
    requires
        num_blocks > 0,
        b1 <= b2 <= num_blocks,
    ensures
        percent_for(num_blocks, b1).unwrap() <= percent_for(num_blocks, b2).unwrap(),
        percent_for(num_blocks, num_blocks) == Some(100nat),
{
    assert(b1 * 100 / num_blocks <= b2 * 100 / num_blocks) by (nonlinear_arith)
        requires
            num_blocks > 0,
            b1 <= b2,
    ;
    assert(num_blocks * 100 / num_blocks == 100) by (nonlinear_arith)
        requires
            num_blocks > 0,
    ;
}

} // verus!
