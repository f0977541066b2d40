use vstd::prelude::*;
use crate::app::{App, Plugin};
use crate::features::FeatureSet;
use crate::subsystem::Subsystem;

verus! {

/// The attachment log after `plugins` have attached, first to last, to an
/// application with the log `app`: each one attaches to what the ones before
/// it have left.
pub open spec fn attach_all<P: Plugin>(app: Seq<Subsystem>, plugins: Seq<P>) -> Seq<Subsystem>
    decreases plugins.len(),
{
    if plugins.len() == 0 {
        app
    } else {
        plugins.last().attached(attach_all(app, plugins.drop_last()))
    }
}

/// Composes an application: owns its state while plugins attach, one after
/// the other, and hands it over when composition is done.
#[derive(Debug)]
pub struct AppBuilder {
    app: App,
    features: FeatureSet,
}

impl AppBuilder {
    /// The attachment log of the application under composition.
    pub closed spec fn log(&self) -> Seq<Subsystem> {
        self.app@
    }

    /// The subsystems available to the application under composition.
    pub closed spec fn spec_features(&self) -> FeatureSet {
        self.features
    }

    /// A builder for an application with the subsystems in `features`
    /// available and none attached.
    pub fn new(features: FeatureSet) -> (out: AppBuilder)
        ensures
            out.log() == Seq::<Subsystem>::empty(),
            out.spec_features() == features,
    {
        AppBuilder { app: App::new(), features }
    }

    /// The subsystems available to the application under composition.
    #[verifier::when_used_as_spec(spec_features)]
    pub fn features(&self) -> (out: FeatureSet)
        ensures
            out == self.spec_features(),
    {
        self.features
    }

    /// The application as composed so far.
    pub fn app(&self) -> (out: &App)
        ensures
            out@ == self.log(),
    {
        &self.app
    }

    /// Attaches `plugin` to the application, at once and after every plugin
    /// added before it, and returns this same builder for the next call. A
    /// plugin added twice attaches twice.
    pub fn add_plugin<P: Plugin>(&mut self, plugin: P) -> (out: &mut Self)
        ensures
            out.log() == plugin.attached(old(self).log()),
            out.spec_features() == old(self).spec_features(),
            *final(self) == *final(out),
    {
        plugin.attach(&mut self.app);
        self
    }

    /// Attaches `plugins` in the order of the slice, as one call of
    /// `add_plugin` for each would, and returns this same builder.
    pub fn add_plugins<P: Plugin>(&mut self, plugins: &[P]) -> (out: &mut Self)
        ensures
            out.log() == attach_all(old(self).log(), plugins@),
            out.spec_features() == old(self).spec_features(),
            *final(self) == *final(out),
    {
        let mut i: usize = 0;
        while i < plugins.len()
            invariant
                i <= plugins@.len(),
                self.log() == attach_all(old(self).log(), plugins@.take(i as int)),
                self.spec_features() == old(self).spec_features(),
            decreases plugins@.len() - i,
        {
            proof {
                let next = plugins@.take(i + 1);
                assert(next.last() == plugins@[i as int]);
                assert(next.drop_last() =~= plugins@.take(i as int));
            }
            plugins[i].attach(&mut self.app);
            i = i + 1;
        }
        assert(plugins@.take(i as int) =~= plugins@);
        self
    }

    /// Ends composition and hands the application over to whoever runs it.
    pub fn finish(self) -> (out: App)
        ensures
            out@ == self.log(),
    {
        self.app
    }
}

/// Plugins attach in turn: the one at `i` attaches to exactly what the `i`
/// plugins before it have left, so all that they installed is there for it.
pub proof fn lemma_attach_in_turn<P: Plugin>(app: Seq<Subsystem>, plugins: Seq<P>, i: int)
    requires
        0 <= i < plugins.len(),
    ensures
        attach_all(app, plugins.take(i + 1)) == plugins[i].attached(
            attach_all(app, plugins.take(i)),
        ),
{
    let upto = plugins.take(i + 1);
    assert(upto.last() == plugins[i]);
    assert(upto.drop_last() =~= plugins.take(i));
}

/// Attaching one run of plugins and then another is attaching the two runs
/// joined: a chain of calls on the builder that each call returns leaves
/// what the same calls leave when they are made one by one.
pub proof fn lemma_attach_all_joined<P: Plugin>(app: Seq<Subsystem>, first: Seq<P>, second: Seq<P>)
    ensures
        attach_all(app, first + second) == attach_all(attach_all(app, first), second),
    decreases second.len(),
{
    if second.len() == 0 {
        assert(first + second =~= first);
    } else {
        lemma_attach_all_joined(app, first, second.drop_last());
        assert((first + second).last() == second.last());
        assert((first + second).drop_last() =~= first + second.drop_last());
    }
}

/// Whatever plugins attach, what had attached before them is still there,
/// in front and in the same order.
pub proof fn lemma_attach_all_extends<P: Plugin>(app: Seq<Subsystem>, plugins: Seq<P>)
    ensures
        app.is_prefix_of(attach_all(app, plugins)),
    decreases plugins.len(),
{
    if plugins.len() > 0 {
        let before = attach_all(app, plugins.drop_last());
        lemma_attach_all_extends(app, plugins.drop_last());
        plugins.last().lemma_attached_extends(before);
    }
}

/// Subsystems that attach one after the other leave the log they found,
/// followed by themselves in the order in which they attached: none is
/// moved, merged with an equal one or left out.
pub proof fn lemma_attach_all_subsystems(app: Seq<Subsystem>, plugins: Seq<Subsystem>)
    ensures
        attach_all(app, plugins) == app + plugins,
    decreases plugins.len(),
{
    if plugins.len() == 0 {
        assert(app + plugins =~= app);
    } else {
        lemma_attach_all_subsystems(app, plugins.drop_last());
        assert((app + plugins.drop_last()).push(plugins.last()) =~= app + plugins);
    }
}

} // verus!
