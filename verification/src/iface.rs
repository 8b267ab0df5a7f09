use vstd::prelude::*;

verus! {

/// Identifies the physical or virtual adapter to open, by driver name.
/// Supplied by the caller and read-only here.
pub struct NetworkInterface {
    pub name: String,
}

/// The kind of channel requested at open time.
///
/// The capture backend applies a promiscuous filter for every supported
/// kind, so the choice only records the caller's intent.
#[derive(Clone, Copy, Debug, PartialEq, Eq, Structural)]
pub enum DataLinkChannelType {
    /// Exchange whole link-layer frames.
    Layer2,
    /// Exchange network-layer payloads of the given EtherType.
    Layer3(u16),
}

} // verus!
