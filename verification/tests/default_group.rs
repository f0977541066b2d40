use bevy::{FeatureSet, Subsystem};

const ALL: [Subsystem; 8] = [
    Subsystem::Core,
    Subsystem::Input,
    Subsystem::Window,
    Subsystem::Render,
    Subsystem::Ui,
    Subsystem::WindowedRunner,
    Subsystem::HeadlessRunner,
    Subsystem::RenderBackend,
];

fn set_of(bits: u32) -> FeatureSet {
    FeatureSet {
        core: bits & 1 != 0,
        input: bits & 2 != 0,
        window: bits & 4 != 0,
        render: bits & 8 != 0,
        ui: bits & 16 != 0,
        winit: bits & 32 != 0,
        wgpu: bits & 64 != 0,
    }
}

#[test]
fn full_set() {
    let features = FeatureSet {
        core: true,
        input: true,
        window: true,
        render: true,
        ui: true,
        winit: true,
        wgpu: true,
    };
    assert_eq!(
        features.default_group(),
        vec![
            Subsystem::Core,
            Subsystem::Input,
            Subsystem::Window,
            Subsystem::Render,
            Subsystem::Ui,
            Subsystem::WindowedRunner,
            Subsystem::RenderBackend,
        ]
    );
}

#[test]
fn core_only_is_headless() {
    let features = FeatureSet { core: true, ..FeatureSet::none() };
    assert_eq!(features.default_group(), vec![Subsystem::Core, Subsystem::HeadlessRunner]);
}

#[test]
fn rendering_without_windowing_backend() {
    let features = FeatureSet { render: true, wgpu: true, ..FeatureSet::none() };
    assert_eq!(
        features.default_group(),
        vec![Subsystem::Render, Subsystem::HeadlessRunner, Subsystem::RenderBackend]
    );
}

#[test]
fn empty_set_still_gets_a_runner() {
    assert_eq!(FeatureSet::none().default_group(), vec![Subsystem::HeadlessRunner]);
}

#[test]
fn windowing_abstraction_alone_does_not_select_the_windowed_runner() {
    let features = FeatureSet { window: true, ..FeatureSet::none() };
    assert_eq!(features.default_group(), vec![Subsystem::Window, Subsystem::HeadlessRunner]);
    assert_eq!(features.runner(), Subsystem::HeadlessRunner);
}

#[test]
fn windowing_backend_alone_selects_the_windowed_runner() {
    let features = FeatureSet { winit: true, ..FeatureSet::none() };
    assert_eq!(features.default_group(), vec![Subsystem::WindowedRunner]);
    assert_eq!(features.runner(), Subsystem::WindowedRunner);
}

#[test]
fn render_backend_follows_the_runner() {
    let features = FeatureSet { wgpu: true, ..FeatureSet::none() };
    assert_eq!(features.default_group(), vec![Subsystem::HeadlessRunner, Subsystem::RenderBackend]);
    let features = FeatureSet { winit: true, wgpu: true, ..FeatureSet::none() };
    assert_eq!(features.default_group(), vec![Subsystem::WindowedRunner, Subsystem::RenderBackend]);
}

#[test]
fn none_and_all() {
    let none = FeatureSet::none();
    assert!(!none.core && !none.input && !none.window && !none.render);
    assert!(!none.ui && !none.winit && !none.wgpu);
    let all = FeatureSet::all();
    assert!(all.core && all.input && all.window && all.render);
    assert!(all.ui && all.winit && all.wgpu);
    assert_eq!(all.default_group().len(), 7);
}

#[test]
fn includes_follows_the_flags() {
    let features = FeatureSet { input: true, ui: true, ..FeatureSet::none() };
    assert!(!features.includes(Subsystem::Core));
    assert!(features.includes(Subsystem::Input));
    assert!(!features.includes(Subsystem::Window));
    assert!(!features.includes(Subsystem::Render));
    assert!(features.includes(Subsystem::Ui));
    assert!(!features.includes(Subsystem::WindowedRunner));
    assert!(features.includes(Subsystem::HeadlessRunner));
    assert!(!features.includes(Subsystem::RenderBackend));
    let features = FeatureSet { winit: true, wgpu: true, ..FeatureSet::none() };
    assert!(features.includes(Subsystem::WindowedRunner));
    assert!(!features.includes(Subsystem::HeadlessRunner));
    assert!(features.includes(Subsystem::RenderBackend));
}

#[test]
fn is_runner_holds_of_the_two_runners_only() {
    for subsystem in ALL {
        let expected =
            subsystem == Subsystem::WindowedRunner || subsystem == Subsystem::HeadlessRunner;
        assert_eq!(subsystem.is_runner(), expected);
    }
}

#[test]
fn missing_subsystem_leaves_no_plugin_behind() {
    for bits in 0..128 {
        let features = set_of(bits);
        let group = features.default_group();
        for subsystem in ALL {
            assert_eq!(group.contains(&subsystem), features.includes(subsystem));
        }
        let flags = [
            features.core,
            features.input,
            features.window,
            features.render,
            features.ui,
            true,
            features.wgpu,
        ];
        assert_eq!(group.len(), flags.iter().filter(|flag| **flag).count());
    }
}

#[test]
fn exactly_one_runner_in_every_group() {
    for bits in 0..128 {
        let features = set_of(bits);
        let group = features.default_group();
        let runners: Vec<usize> =
            (0..group.len()).filter(|i| group[*i].is_runner()).collect();
        assert_eq!(runners.len(), 1);
        assert_eq!(group[runners[0]], features.runner());
        if features.wgpu {
            assert_eq!(runners[0], group.len() - 2);
            assert_eq!(group[group.len() - 1], Subsystem::RenderBackend);
        } else {
            assert_eq!(runners[0], group.len() - 1);
        }
    }
}

#[test]
fn every_group_is_in_dependency_order() {
    for bits in 0..128 {
        let features = set_of(bits);
        let runner = if features.winit {
            Subsystem::WindowedRunner
        } else {
            Subsystem::HeadlessRunner
        };
        let order = [
            (features.core, Subsystem::Core),
            (features.input, Subsystem::Input),
            (features.window, Subsystem::Window),
            (features.render, Subsystem::Render),
            (features.ui, Subsystem::Ui),
            (true, runner),
            (features.wgpu, Subsystem::RenderBackend),
        ];
        let expected: Vec<Subsystem> =
            order.iter().filter(|step| step.0).map(|step| step.1).collect();
        assert_eq!(features.default_group(), expected);
    }
}
