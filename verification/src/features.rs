use vstd::prelude::*;
use crate::subsystem::Subsystem;

verus! {

/// Which optional subsystems are available to an application.
///
/// The set is fixed before composition starts and is only read while the
/// default plugin group is put together.
#[derive(Clone, Copy, Debug, PartialEq, Eq, Hash, Structural)]
pub struct FeatureSet {
    /// Core services.
    pub core: bool,
    /// Input handling.
    pub input: bool,
    /// The windowing abstraction.
    pub window: bool,
    /// The rendering abstraction.
    pub render: bool,
    /// UI layout and composition.
    pub ui: bool,
    /// A windowing backend with an event loop of its own.
    pub winit: bool,
    /// A GPU render backend.
    pub wgpu: bool,
}

/// `group`, followed by `subsystem` where it is `present`.
pub open spec fn push_if(group: Seq<Subsystem>, present: bool, subsystem: Subsystem) -> Seq<
    Subsystem,
> {
    if present {
        group.push(subsystem)
    } else {
        group
    }
}

impl FeatureSet {
    /// The runner that this set selects: the windowed one where a windowing
    /// backend is available, the headless one everywhere else.
    pub open spec fn spec_runner(&self) -> Subsystem {
        if self.winit {
            Subsystem::WindowedRunner
        } else {
            Subsystem::HeadlessRunner
        }
    }

    /// Whether the default group attaches `subsystem` under this set.
    pub open spec fn spec_includes(&self, subsystem: Subsystem) -> bool {
        match subsystem {
            Subsystem::Core => self.core,
            Subsystem::Input => self.input,
            Subsystem::Window => self.window,
            Subsystem::Render => self.render,
            Subsystem::Ui => self.ui,
            Subsystem::WindowedRunner => self.winit,
            Subsystem::HeadlessRunner => !self.winit,
            Subsystem::RenderBackend => self.wgpu,
        }
    }

    /// The default plugin group of this set, in attachment order: each
    /// available subsystem in dependency order, then the selected runner, then
    /// the render backend where there is one.
    pub open spec fn default_order(&self) -> Seq<Subsystem> {
        let group = Seq::<Subsystem>::empty();
        let group = push_if(group, self.core, Subsystem::Core);
        let group = push_if(group, self.input, Subsystem::Input);
        let group = push_if(group, self.window, Subsystem::Window);
        let group = push_if(group, self.render, Subsystem::Render);
        let group = push_if(group, self.ui, Subsystem::Ui);
        let group = group.push(self.spec_runner());
        push_if(group, self.wgpu, Subsystem::RenderBackend)
    }

    /// Where the runner stands in the default group: behind the available
    /// subsystems among the five that come before it.
    pub open spec fn runner_position(&self) -> int {
        (if self.core { 1int } else { 0int })
            + (if self.input { 1int } else { 0int })
            + (if self.window { 1int } else { 0int })
            + (if self.render { 1int } else { 0int })
            + (if self.ui { 1int } else { 0int })
    }

    /// The set with no optional subsystem at all.
    pub fn none() -> (out: FeatureSet)
        ensures
            out == (FeatureSet {
                core: false,
                input: false,
                window: false,
                render: false,
                ui: false,
                winit: false,
                wgpu: false,
            }),
    {
        FeatureSet {
            core: false,
            input: false,
            window: false,
            render: false,
            ui: false,
            winit: false,
            wgpu: false,
        }
    }

    /// The set with every optional subsystem.
    pub fn all() -> (out: FeatureSet)
        ensures
            out == (FeatureSet {
                core: true,
                input: true,
                window: true,
                render: true,
                ui: true,
                winit: true,
                wgpu: true,
            }),
    {
        FeatureSet {
            core: true,
            input: true,
            window: true,
            render: true,
            ui: true,
            winit: true,
            wgpu: true,
        }
    }

    /// Selects the runner: exactly one of the two, whatever the set holds.
    #[verifier::when_used_as_spec(spec_runner)]
    pub fn runner(&self) -> (out: Subsystem)
        ensures
            out == self.spec_runner(),
            out.is_runner(),
    {
        if self.winit {
            Subsystem::WindowedRunner
        } else {
            Subsystem::HeadlessRunner
        }
    }

    /// Whether the default group attaches `subsystem` under this set.
    #[verifier::when_used_as_spec(spec_includes)]
    pub fn includes(&self, subsystem: Subsystem) -> (out: bool)
        ensures
            out == self.spec_includes(subsystem),
    {
        match subsystem {
            Subsystem::Core => self.core,
            Subsystem::Input => self.input,
            Subsystem::Window => self.window,
            Subsystem::Render => self.render,
            Subsystem::Ui => self.ui,
            Subsystem::WindowedRunner => self.winit,
            Subsystem::HeadlessRunner => !self.winit,
            Subsystem::RenderBackend => self.wgpu,
        }
    }

    /// Puts the default plugin group together: one plugin for each available
    /// subsystem and none for a missing one, in dependency order, with the
    /// selected runner after them and the render backend behind the runner.
    pub fn default_group(&self) -> (out: Vec<Subsystem>)
        ensures
            out@ == self.default_order(),
    {
        let mut group: Vec<Subsystem> = Vec::new();
        if self.core {
            group.push(Subsystem::Core);
        }
        if self.input {
            group.push(Subsystem::Input);
        }
        if self.window {
            group.push(Subsystem::Window);
        }
        if self.render {
            group.push(Subsystem::Render);
        }
        if self.ui {
            group.push(Subsystem::Ui);
        }
        group.push(self.runner());
        if self.wgpu {
            group.push(Subsystem::RenderBackend);
        }
        group
    }
}

} // verus!
