use vstd::prelude::*;

verus! {

/// Largest number of positions the front-end scans in one pass.
pub const MAX_CHANNELS: usize = 16;

/// What a scanned channel measures.
#[derive(Debug, Clone, Copy, PartialEq, Eq, Structural)]
pub enum ChannelRole {
    /// A general-purpose analog input.
    Input,
    /// The internal temperature sensor.
    Temperature,
    /// The internal reference-voltage sensor.
    Reference,
}

/// How long a channel is sampled, in front-end clock cycles.
#[allow(non_camel_case_types)]
#[derive(Debug, Clone, Copy, PartialEq, Eq, Structural)]
pub enum SampleTime {
    Cycles_2_5,
    Cycles_6_5,
    Cycles_12_5,
    Cycles_24_5,
    Cycles_47_5,
    Cycles_92_5,
    Cycles_247_5,
    Cycles_640_5,
}

/// Whether the front-end starts the next scan by itself or waits for a trigger.
#[derive(Debug, Clone, Copy, PartialEq, Eq, Structural)]
pub enum ContinuousMode {
    Continuous,
    Discontinuous,
}

/// One position of the scan.
#[derive(Debug, Clone, Copy, PartialEq, Eq, Structural)]
pub struct Channel {
    pub role: ChannelRole,
    pub sample_time: SampleTime,
}

/// Whether some position of `chs` has `role`.
pub open spec fn has_role(chs: Seq<Channel>, role: ChannelRole) -> bool {
    exists|i: int| 0 <= i < chs.len() && chs[i].role == role
}

/// Whether `i` is the first position of `chs` with `role`.
pub open spec fn is_first_with_role(chs: Seq<Channel>, role: ChannelRole, i: int) -> bool {
    &&& 0 <= i < chs.len()
    &&& chs[i].role == role
    &&& forall|j: int| 0 <= j < i ==> chs[j].role != role
}

/// The first position of `chs` with `role` (meaningful when `has_role`).
pub open spec fn first_with_role(chs: Seq<Channel>, role: ChannelRole) -> int {
    choose|i: int| is_first_with_role(chs, role, i)
}

/// The first position with a role is unique, and `first_with_role` names it.
pub proof fn lemma_first_with_role(chs: Seq<Channel>, role: ChannelRole, i: int)
    requires
        is_first_with_role(chs, role, i),
    ensures
        first_with_role(chs, role) == i,
        has_role(chs, role),
{
    let k = first_with_role(chs, role);
    assert(is_first_with_role(chs, role, k));
    if k < i {
        assert(chs[k].role != role);
    } else if i < k {
        assert(chs[i].role != role);
    }
}

/// Index of the first position of `chs` with `role`, if any.
pub fn find_role(chs: &Vec<Channel>, role: ChannelRole) -> (r: Option<usize>)
    ensures
        r is None <==> !has_role(chs@, role),
        r matches Some(i) ==> is_first_with_role(chs@, role, i as int) && first_with_role(
            chs@,
            role,
        ) == i,
{
    let mut i: usize = 0;
    while i < chs.len()
        invariant
            i <= chs@.len(),
            forall|j: int| 0 <= j < i ==> chs@[j].role != role,
        decreases chs.len() - i,
    {
        if chs[i].role == role {
            proof {
                lemma_first_with_role(chs@, role, i as int);
            }
            return Some(i);
        }
        i = i + 1;
    }
    None
}

/// Why a scan sequence was refused.
#[derive(Debug, Clone, Copy, PartialEq, Eq, Structural)]
pub enum ConfigError {
    /// The sequence has no channel.
    EmptySequence,
    /// The sequence has more channels than the front-end can scan.
    TooManyChannels,
}

/// The ordered channels scanned in each pass; position `i` (from zero) is
/// scan rank `i + 1`.
pub struct ScanSequence {
    channels: Vec<Channel>,
    mode: ContinuousMode,
}

impl View for ScanSequence {
    type V = Seq<Channel>;

    closed spec fn view(&self) -> Seq<Channel> {
        self.channels@
    }
}

impl ScanSequence {
    /// A configured sequence is non-empty and within the front-end's limit.
    pub open spec fn wf(&self) -> bool {
        0 < self@.len() <= MAX_CHANNELS
    }

    /// The front-end's re-trigger mode.
    pub closed spec fn mode_spec(&self) -> ContinuousMode {
        self.mode
    }

    /// Stores `channels` as the scan, in continuous mode. Fails if the list is
    /// empty or longer than `MAX_CHANNELS`.
    pub fn configure(channels: Vec<Channel>) -> (r: Result<ScanSequence, ConfigError>)
        ensures
            channels@.len() == 0 ==> r == Err::<ScanSequence, ConfigError>(
                ConfigError::EmptySequence,
            ),
            channels@.len() > MAX_CHANNELS ==> r == Err::<ScanSequence, ConfigError>(
                ConfigError::TooManyChannels,
            ),
            0 < channels@.len() <= MAX_CHANNELS ==> (r matches Ok(s) && s.wf() && s@ == channels@
                && s.mode_spec() == ContinuousMode::Continuous),
    {
        if channels.len() == 0 {
            return Err(ConfigError::EmptySequence);
        }
        if channels.len() > MAX_CHANNELS {
            return Err(ConfigError::TooManyChannels);
        }
        Ok(ScanSequence { channels, mode: ContinuousMode::Continuous })
    }

    /// Selects whether scanning re-triggers by itself.
    pub fn set_continuous(&mut self, mode: ContinuousMode)
        ensures
            final(self)@ == old(self)@,
            final(self).mode_spec() == mode,
            old(self).wf() ==> final(self).wf(),
    {
        self.mode = mode;
    }

    /// The re-trigger mode.
    pub fn mode(&self) -> (r: ContinuousMode)
        ensures
            r == self.mode_spec(),
    {
        self.mode
    }

    /// The scanned channels, in order.
    pub fn channels(&self) -> (r: &Vec<Channel>)
        ensures
            r@ == self@,
    {
        &self.channels
    }

    /// Samples in one frame: one per channel.
    pub fn frame_width(&self) -> (r: usize)
        ensures
            r == self@.len(),
    {
        self.channels.len()
    }

    /// Scan rank (from one) of position `index`.
    pub fn rank(&self, index: usize) -> (r: usize)
        requires
            index < self@.len(),
        ensures
            r == index + 1,
    {
        let n: usize = self.channels.len();
        assert(index < n);
        index + 1
    }
}

} // verus!
