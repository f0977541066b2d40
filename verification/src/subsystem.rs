use vstd::prelude::*;

verus! {

/// A subsystem that can attach itself to an application.
///
/// The variants are listed in dependency order: a subsystem may rely on what
/// the ones before it have installed, never on one that comes after it.
#[derive(Clone, Copy, Debug, PartialEq, Eq, Hash, Structural)]
pub enum Subsystem {
    /// Core services: timing and type registration.
    Core,
    /// Input handling.
    Input,
    /// The windowing abstraction: window descriptors, whatever the backend.
    Window,
    /// The rendering abstraction: render graph scaffolding, whatever the backend.
    Render,
    /// UI layout and composition.
    Ui,
    /// The runner that hands the main loop to the windowing backend's event loop.
    WindowedRunner,
    /// The runner that drives the main loop itself, with no outside event source.
    HeadlessRunner,
    /// The render backend, which submits work to the GPU.
    RenderBackend,
}

impl Subsystem {
    /// Whether this subsystem drives the main loop once composition is over.
    pub open spec fn spec_is_runner(&self) -> bool {
        *self == Subsystem::WindowedRunner || *self == Subsystem::HeadlessRunner
    }

    /// The step of the default composition at which this subsystem attaches.
    /// The two runners share a step, since only one of them is ever chosen.
    pub open spec fn step(&self) -> nat {
        match *self {
            Subsystem::Core => 1,
            Subsystem::Input => 2,
            Subsystem::Window => 3,
            Subsystem::Render => 4,
            Subsystem::Ui => 5,
            Subsystem::WindowedRunner => 6,
            Subsystem::HeadlessRunner => 6,
            Subsystem::RenderBackend => 7,
        }
    }

    /// Whether this subsystem drives the main loop once composition is over.
    #[verifier::when_used_as_spec(spec_is_runner)]
    pub fn is_runner(&self) -> (out: bool)
        ensures
            out == self.spec_is_runner(),
    {
        match *self {
            Subsystem::WindowedRunner => true,
            Subsystem::HeadlessRunner => true,
            _ => false,
        }
    }
}

} // verus!
