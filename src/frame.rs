//! The per-frame decisions: buffer roles, uniform values and the order of
//! the commands that the host submits to the graphics device.
use vstd::prelude::*;
use crate::double_buffer::{swapped, valid_mapping, DoubleBuffer, ImageId};

verus! {

/// Whether the simulation pass synthesizes a seed pattern or steps the
/// automaton. The only transition is from `Seeding` to `Stepping`, after the
/// first frame.
#[derive(Clone, Copy, Debug, PartialEq, Eq, Structural)]
pub enum SeedPhase {
    Seeding,
    Stepping,
}

impl SeedPhase {
    /// The phase of the frame after a frame in this phase.
    pub open spec fn next(self) -> SeedPhase {
        SeedPhase::Stepping
    }

    /// The seed flag uploaded in this phase: set while seeding only.
    pub open spec fn seeds(self) -> bool {
        self == SeedPhase::Seeding
    }

    /// The seed flag of a frame in this phase.
    pub fn seed_flag(&self) -> (r: bool)
        ensures
            r == self.seeds(),
    {
        match self {
            SeedPhase::Seeding => true,
            SeedPhase::Stepping => false,
        }
    }
}

/// The seed flags of `n` consecutive frames, the first in phase `first`.
pub open spec fn seed_flags(first: SeedPhase, n: nat) -> Seq<bool>
    decreases n,
{
    if n == 0 {
        Seq::empty()
    } else {
        seq![first.seeds()] + seed_flags(first.next(), (n - 1) as nat)
    }
}

/// The simulation pass's uniform block, with the viewport size held exactly:
/// the host uploads `1 / width` and `1 / height` as the inverse size, and the
/// seed flag as 1 or 0.
#[derive(Clone, Copy, Debug, PartialEq, Eq, Structural)]
pub struct Uniforms {
    pub width: u16,
    pub height: u16,
    pub seed: bool,
}

/// The background colors the two passes clear to.
#[derive(Clone, Copy, Debug, PartialEq, Eq, Structural)]
pub enum ClearColor {
    /// Opaque black, the value of a dead cell.
    OpaqueBlack,
    /// Opaque red, a sentinel for any region the quad would leave uncovered.
    OpaqueRed,
}

/// One command of a frame, in the order the host submits them.
#[derive(Clone, Copy, Debug, PartialEq, Eq, Structural)]
pub enum Command {
    /// Clear the simulation pass's render target.
    ClearSimulationTarget(ClearColor),
    /// Upload the frame's uniform block.
    UploadUniforms,
    /// Draw the quad with the simulation pass.
    DrawSimulation,
    /// Clear the visible surface.
    ClearDisplay(ClearColor),
    /// Draw the quad with the display pass.
    DrawDisplay,
}

/// The command sequence of every frame.
pub open spec fn frame_commands() -> Seq<Command> {
    seq![
        Command::ClearSimulationTarget(ClearColor::OpaqueBlack),
        Command::UploadUniforms,
        Command::DrawSimulation,
        Command::ClearDisplay(ClearColor::OpaqueRed),
        Command::DrawDisplay,
    ]
}

/// What the host binds, uploads and submits for one frame.
pub struct FramePlan {
    /// The image the simulation pass samples.
    pub simulation_source: ImageId,
    /// The image the simulation pass renders into.
    pub simulation_target: ImageId,
    /// The image the display pass samples.
    pub display_source: ImageId,
    /// The simulation pass's uniform block.
    pub uniforms: Uniforms,
    /// The commands, in submission order.
    pub commands: Vec<Command>,
}

/// The plan of a frame whose buffer mapping after the swap is `m`, whose
/// phase is `phase`, in a viewport of `width` by `height` pixels.
pub open spec fn plan_matches(
    p: FramePlan,
    m: (ImageId, ImageId),
    phase: SeedPhase,
    width: u16,
    height: u16,
) -> bool {
    &&& p.simulation_source == m.0
    &&& p.simulation_target == m.1
    &&& p.display_source == m.1
    &&& p.uniforms == (Uniforms { width, height, seed: phase.seeds() })
    &&& p.commands@ == frame_commands()
}

/// Owns the buffer roles and the seeding state, and plans each frame.
pub struct FrameOrchestrator {
    phase: SeedPhase,
    width: u16,
    height: u16,
    buffers: DoubleBuffer,
}

impl FrameOrchestrator {
    /// The phase of the next frame.
    pub closed spec fn phase_spec(&self) -> SeedPhase {
        self.phase
    }

    /// The viewport width in pixels.
    pub closed spec fn width_spec(&self) -> u16 {
        self.width
    }

    /// The viewport height in pixels.
    pub closed spec fn height_spec(&self) -> u16 {
        self.height
    }

    /// The slot-to-image mapping before the next frame's swap.
    pub closed spec fn mapping(&self) -> (ImageId, ImageId) {
        self.buffers@
    }

    /// A fresh orchestrator for a `width` by `height` viewport: the first
    /// frame seeds, and slot `i` names image `i`.
    pub fn new(width: u16, height: u16) -> (o: FrameOrchestrator)
        ensures
            o.phase_spec() == SeedPhase::Seeding,
            o.width_spec() == width,
            o.height_spec() == height,
            o.mapping() == (0usize, 1usize),
    {
        FrameOrchestrator { phase: SeedPhase::Seeding, width, height, buffers: DoubleBuffer::new() }
    }

    /// Plans the next frame: swaps the buffer roles, binds the simulation
    /// pass from slot 0 to slot 1 and the display pass to slot 1, sets the
    /// seed flag on the first frame only, and leaves the seeding phase.
    pub fn begin_frame(&mut self) -> (p: FramePlan)
        ensures
            final(self).mapping() == swapped(old(self).mapping()),
            final(self).phase_spec() == old(self).phase_spec().next(),
            final(self).width_spec() == old(self).width_spec(),
            final(self).height_spec() == old(self).height_spec(),
            plan_matches(
                p,
                final(self).mapping(),
                old(self).phase_spec(),
                old(self).width_spec(),
                old(self).height_spec(),
            ),
            valid_mapping(final(self).mapping()),
            p.simulation_source != p.simulation_target,
    {
        self.buffers.swap();
        let source = self.buffers.read_image();
        let target = self.buffers.write_image();
        let uniforms = Uniforms { width: self.width, height: self.height, seed: self.phase.seed_flag() };
        self.phase = SeedPhase::Stepping;
        let commands = vec![
            Command::ClearSimulationTarget(ClearColor::OpaqueBlack),
            Command::UploadUniforms,
            Command::DrawSimulation,
            Command::ClearDisplay(ClearColor::OpaqueRed),
            Command::DrawDisplay,
        ];
        FramePlan {
            simulation_source: source,
            simulation_target: target,
            display_source: target,
            uniforms,
            commands,
        }
    }

    /// The phase of the next frame.
    pub fn phase(&self) -> (r: SeedPhase)
        ensures
            r == self.phase_spec(),
    {
        self.phase
    }

    /// The viewport size, width first.
    pub fn size(&self) -> (r: (u16, u16))
        ensures
            r == (self.width_spec(), self.height_spec()),
    {
        (self.width, self.height)
    }
}

/// Over any number of frames from the seeding phase, the seed flag is set on
/// the first frame and clear on every later one.
pub proof fn lemma_single_seed(n: nat)
    requires
        n >= 1,
    ensures
        seed_flags(SeedPhase::Seeding, n).len() == n,
        seed_flags(SeedPhase::Seeding, n)[0],
        forall|i: int| 1 <= i < n ==> !seed_flags(SeedPhase::Seeding, n)[i],
{
    lemma_flags_len(SeedPhase::Seeding, n);
    lemma_stepping_never_seeds((n - 1) as nat);
    assert(seed_flags(SeedPhase::Seeding, n) =~= seq![true] + seed_flags(SeedPhase::Stepping, (n - 1) as nat));
}

proof fn lemma_flags_len(first: SeedPhase, n: nat)
    ensures
        seed_flags(first, n).len() == n,
    decreases n,
{
    if n > 0 {
        lemma_flags_len(first.next(), (n - 1) as nat);
    }
}

proof fn lemma_stepping_never_seeds(n: nat)
    ensures
        seed_flags(SeedPhase::Stepping, n).len() == n,
        forall|i: int| 0 <= i < n ==> !seed_flags(SeedPhase::Stepping, n)[i],
    decreases n,
{
    if n > 0 {
        let m = (n - 1) as nat;
        lemma_stepping_never_seeds(m);
        let rest = seed_flags(SeedPhase::Stepping, m);
        assert(seed_flags(SeedPhase::Stepping, n) == seq![false] + rest);
        assert forall|i: int| 0 <= i < n implies !seed_flags(SeedPhase::Stepping, n)[i] by {
            if i > 0 {
                assert(seed_flags(SeedPhase::Stepping, n)[i] == rest[i - 1]);
            }
        }
    }
}

} // verus!
