use vstd::prelude::*;

verus! {

/// The channels the bot is configured with.
#[derive(Clone, Copy, Debug, PartialEq, Eq, Structural)]
pub struct ChannelIds {
    /// The category under which individual channels are created.
    pub individuals_category_id: u64,
    pub anonymous_channel_id: u64,
    pub meta_channel_id: u64,
    pub logs_channel_id: u64,
    pub approval_channel_id: u64,
    pub results_channel_id: u64,
}

} // verus!
