use vstd::prelude::*;

verus! {

/// How frames reach the window.
#[derive(Clone, Copy, Debug, PartialEq, Eq, Structural)]
pub enum PresentMode {
    AutoVsync,
    AutoNoVsync,
    Fifo,
    FifoRelaxed,
    Immediate,
    Mailbox,
}

/// Whether `mode` shows frames without waiting for vertical sync.
pub open spec fn is_low_latency(mode: PresentMode) -> bool {
    mode == PresentMode::AutoNoVsync || mode == PresentMode::Immediate || mode == PresentMode::Mailbox
}

/// The mode that the V key switches `mode` to: a low-latency mode becomes
/// automatic vsync, any other becomes automatic low latency.
pub open spec fn toggled(mode: PresentMode) -> PresentMode {
    if is_low_latency(mode) {
        PresentMode::AutoVsync
    } else {
        PresentMode::AutoNoVsync
    }
}

impl PresentMode {
    /// The mode that the V key switches to.
    pub fn toggled(self) -> (m: PresentMode)
        ensures
            m == toggled(self),
    {
        match self {
            PresentMode::AutoNoVsync | PresentMode::Immediate | PresentMode::Mailbox => PresentMode::AutoVsync,
            _ => PresentMode::AutoNoVsync,
        }
    }

    /// Whether frames are shown without waiting for vertical sync.
    pub fn low_latency(self) -> (b: bool)
        ensures
            b == is_low_latency(self),
    {
        match self {
            PresentMode::AutoNoVsync | PresentMode::Immediate | PresentMode::Mailbox => true,
            _ => false,
        }
    }

    /// The name shown in the heads-up display.
    pub fn label(self) -> (s: &'static str)
        ensures
            is_low_latency(self) ==> s@ == "low latency"@,
            !is_low_latency(self) ==> s@ == "vsync"@,
    {
        if self.low_latency() {
            "low latency"
        } else {
            "vsync"
        }
    }
}

/// Which modes are low latency, and where V leads from each: automatic
/// no-vsync, immediate and mailbox show frames at once and V turns them to
/// automatic vsync; automatic vsync, FIFO and relaxed FIFO wait for vsync
/// and V turns them to automatic no-vsync.
pub proof fn where_v_leads(mode: PresentMode)
    ensures
        is_low_latency(mode) <==> (mode == PresentMode::AutoNoVsync || mode == PresentMode::Immediate
            || mode == PresentMode::Mailbox),
        !is_low_latency(mode) <==> (mode == PresentMode::AutoVsync || mode == PresentMode::Fifo || mode
            == PresentMode::FifoRelaxed),
        is_low_latency(mode) ==> toggled(mode) == PresentMode::AutoVsync,
        !is_low_latency(mode) ==> toggled(mode) == PresentMode::AutoNoVsync,
{
}

/// Every press of V flips what the heads-up display shows, and a second
/// press brings the shown mode back.
pub proof fn toggling_flips_presentation(mode: PresentMode)
    ensures
        is_low_latency(toggled(mode)) != is_low_latency(mode),
        is_low_latency(toggled(toggled(mode))) == is_low_latency(mode),
{
}

/// Between the two automatic modes, V goes back and forth.
pub proof fn toggling_twice_restores_automatic_modes(mode: PresentMode)
    requires
        mode == PresentMode::AutoVsync || mode == PresentMode::AutoNoVsync,
    ensures
        toggled(toggled(mode)) == mode,
{
}

} // verus!
