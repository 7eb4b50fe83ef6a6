use vstd::prelude::*;

verus! {

/// How buffer swaps wait for the display's vertical refresh.
#[derive(Debug, Clone, Copy, PartialEq, Eq, Structural)]
pub enum SwapMode {
    /// Adaptive synchronisation: wait for the refresh unless the frame is late.
    Adaptive,
    /// Swap at once, without waiting for a refresh.
    Immediate,
    /// Wait for this many refreshes between swaps.
    EveryFrames(u32),
}

/// The swap mode for a requested frame-rate setting: `-1` asks for adaptive
/// synchronisation, `0` for none, `n >= 1` for one swap every `n` refreshes,
/// and any other value falls back to one swap per refresh.
pub fn swap_mode_for(interval: i32) -> (r: SwapMode)
    ensures
        interval == -1 ==> r == SwapMode::Adaptive,
        interval == 0 ==> r == SwapMode::Immediate,
        interval >= 1 ==> r == SwapMode::EveryFrames(interval as u32),
        interval < -1 ==> r == SwapMode::EveryFrames(1),
{
    if interval == -1 {
        SwapMode::Adaptive
    } else if interval == 0 {
        SwapMode::Immediate
    } else if interval >= 1 {
        SwapMode::EveryFrames(interval as u32)
    } else {
        SwapMode::EveryFrames(1)
    }
}

} // verus!
