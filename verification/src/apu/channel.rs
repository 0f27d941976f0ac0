use vstd::prelude::*;

verus! {

/// The four sound channels: two pulse channels, the wave channel and the
/// noise channel.
#[derive(Debug, Clone, Copy, PartialEq, Eq, Structural)]
pub enum ChannelType {
    CH1,
    CH2,
    CH3,
    CH4,
}

} // verus!
