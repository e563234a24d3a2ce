//! Channel layouts.

use vstd::prelude::*;

verus! {

/// A channel layout, described by its number of channels.
#[derive(Clone, Copy, Debug, PartialEq, Eq, Structural)]
pub struct ChannelLayout {
    nb_channels: i32,
}

impl ChannelLayout {
    /// The number of channels of this layout, as stored.
    pub closed spec fn nb_channels(self) -> int {
        self.nb_channels as int
    }

    /// The default layout for a number of channels.
    pub fn from_default(channels: i32) -> (l: ChannelLayout)
        ensures
            l.nb_channels() == channels,
    {
        ChannelLayout { nb_channels: channels }
    }

    /// Copies an existing layout.
    pub fn from_existing(layout: &ChannelLayout) -> (l: ChannelLayout)
        ensures
            l == *layout,
    {
        *layout
    }

    /// The number of channels in this layout.
    pub fn channels(&self) -> (n: usize)
        ensures
            n == self.nb_channels() as usize,
    {
        self.nb_channels as usize
    }

    /// Whether this layout equals another.
    pub fn is_identical_to(&self, other: &ChannelLayout) -> (r: bool)
        ensures
            r == (self.nb_channels() == other.nb_channels()),
    {
        self.nb_channels == other.nb_channels
    }
}

} // verus!
