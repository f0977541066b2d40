use vstd::prelude::*;
use crate::builder::AppBuilder;
use crate::features::FeatureSet;
use crate::subsystem::Subsystem;

verus! {

/// The runner of an application composed from the default group alone is
/// the selected one: a runner is there, and no second one has taken over.
pub proof fn lemma_default_order_runner(features: FeatureSet)
    ensures
        crate::app::last_runner(features.default_order()) == Some(features.runner()),
{
    let group = features.default_order();
    crate::group::lemma_default_order_one_runner(features);
    if features.wgpu {
        let front = group.drop_last();
        assert(!group.last().is_runner());
        assert(front.last() == features.runner());
        assert(crate::app::last_runner(front) == Some(features.runner()));
    } else {
        assert(group.last() == features.runner());
    }
}

/// Applies the default plugin group to a builder.
pub trait AddDefaultPlugins {
    /// Adds the default plugin group and returns the same builder.
    fn add_default_plugins(&mut self) -> &mut Self;
}

impl AddDefaultPlugins for AppBuilder {
    /// Adds one plugin for each subsystem that the builder's feature set
    /// holds, in dependency order, the selected runner after them and the
    /// render backend, where there is one, behind the runner. What was
    /// attached before stays, in front.
    fn add_default_plugins(&mut self) -> (out: &mut Self)
        ensures
            out.log() == old(self).log() + old(self).spec_features().default_order(),
            out.spec_features() == old(self).spec_features(),
            *final(self) == *final(out),
    {
        let group = self.features().default_group();
        proof {
            crate::builder::lemma_attach_all_subsystems(self.log(), group@);
        }
        self.add_plugins(group.as_slice())
    }
}

} // verus!
