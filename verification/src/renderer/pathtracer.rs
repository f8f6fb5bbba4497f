//! Progressive accumulation control of the GPU path tracer.
use vstd::prelude::*;

verus! {

/// Frame accumulation is done when the sample limit applies and is reached.
pub open spec fn accumulation_converged(frame_count: u32, max_spp: u32, unlimited_spp: bool) -> bool {
    !unlimited_spp && frame_count >= max_spp
}

/// Whether the accumulated image has converged.
pub fn is_converged(frame_count: u32, max_spp: u32, unlimited_spp: bool) -> (r: bool)
    ensures
        r == accumulation_converged(frame_count, max_spp, unlimited_spp),
{
    !unlimited_spp && frame_count >= max_spp
}

/// Decides one frame of the path tracer: trace a pass unless converged or
/// paused, and count it. Returns whether to trace and the new frame count.
pub fn accumulation_step(frame_count: u32, max_spp: u32, unlimited_spp: bool, is_paused: bool) -> (r: (
    bool,
    u32,
))
    requires
        !accumulation_converged(frame_count, max_spp, unlimited_spp) && !is_paused ==> frame_count
            < u32::MAX,
    ensures
        r.0 == (!accumulation_converged(frame_count, max_spp, unlimited_spp) && !is_paused),
        r.1 == if r.0 { frame_count + 1 } else { frame_count as int },
{
    let trace = !is_converged(frame_count, max_spp, unlimited_spp) && !is_paused;
    if trace {
        (true, frame_count + 1)
    } else {
        (false, frame_count)
    }
}

/// Compute workgroups of 8 x 8 pixels covering a `width` x `height` target.
pub fn trace_workgroups(width: u32, height: u32) -> (r: (u32, u32))
    requires
        width <= u32::MAX - 7,
        height <= u32::MAX - 7,
    ensures
        r.0 == (width + 7) / 8,
        r.1 == (height + 7) / 8,
        r.0 * 8 >= width,
        r.1 * 8 >= height,
{
    ((width + 7) / 8, (height + 7) / 8)
}

/// With a sample limit, accumulation never runs past it: from at most
/// `max_spp` frames, a step leaves at most `max_spp`, and a converged image
/// stays converged.
pub proof fn lemma_accumulation_bounded(frame_count: u32, max_spp: u32, is_paused: bool)
    requires
        frame_count <= max_spp,
    ensures
        ({
            let trace = !accumulation_converged(frame_count, max_spp, false) && !is_paused;
            let next = if trace { frame_count + 1 } else { frame_count as int };
            next <= max_spp && (accumulation_converged(frame_count, max_spp, false) ==> next
                == frame_count)
        }),
{
}

} // verus!
