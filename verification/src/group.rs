use vstd::prelude::*;
use crate::features::FeatureSet;
use crate::subsystem::Subsystem;

verus! {

/// Whether each subsystem of `group` attaches at a later step of the
/// default composition than the one before it.
pub open spec fn in_step_order(group: Seq<Subsystem>) -> bool {
    forall|i: int, j: int| 0 <= i < j < group.len() ==> group[i].step() < group[j].step()
}

/// What `push_if` holds: what the group held before, and the subsystem
/// where it is present.
proof fn lemma_push_if_contains(
    group: Seq<Subsystem>,
    present: bool,
    subsystem: Subsystem,
    other: Subsystem,
)
    ensures
        crate::features::push_if(group, present, subsystem).contains(other) <==> (group.contains(
            other,
        ) || (present && subsystem == other)),
{
    let longer = crate::features::push_if(group, present, subsystem);
    if group.contains(other) {
        let at = choose|i: int| 0 <= i < group.len() && group[i] == other;
        assert(longer[at] == other);
    }
    if present && subsystem == other {
        assert(longer[group.len() as int] == other);
    }
    if longer.contains(other) {
        let at = choose|i: int| 0 <= i < longer.len() && longer[i] == other;
        if at < group.len() {
            assert(group[at] == other);
        }
    }
}

/// The default group holds a subsystem exactly where the set includes it.
/// For a subsystem that is not available nothing stands in: no plugin of
/// it, and no placeholder in its place.
pub proof fn lemma_default_order_members(features: FeatureSet, subsystem: Subsystem)
    ensures
        features.default_order().contains(subsystem) <==> features.includes(subsystem),
{
    let none = Seq::<Subsystem>::empty();
    let core = crate::features::push_if(none, features.core, Subsystem::Core);
    let input = crate::features::push_if(core, features.input, Subsystem::Input);
    let window = crate::features::push_if(input, features.window, Subsystem::Window);
    let render = crate::features::push_if(window, features.render, Subsystem::Render);
    let ui = crate::features::push_if(render, features.ui, Subsystem::Ui);
    let runner = crate::features::push_if(ui, true, features.runner());
    assert(!none.contains(subsystem));
    lemma_push_if_contains(none, features.core, Subsystem::Core, subsystem);
    lemma_push_if_contains(core, features.input, Subsystem::Input, subsystem);
    lemma_push_if_contains(input, features.window, Subsystem::Window, subsystem);
    lemma_push_if_contains(window, features.render, Subsystem::Render, subsystem);
    lemma_push_if_contains(render, features.ui, Subsystem::Ui, subsystem);
    lemma_push_if_contains(ui, true, features.runner(), subsystem);
    lemma_push_if_contains(runner, features.wgpu, Subsystem::RenderBackend, subsystem);
}

/// The default group is in dependency order: each plugin in it attaches at
/// a later step than the one before it, so none is in it twice.
pub proof fn lemma_default_order_ascends(features: FeatureSet)
    ensures
        in_step_order(features.default_order()),
{
}

/// Two groups in step order that hold the same subsystems, with no two of
/// them at one step, are the same group.
proof fn lemma_step_order_decides(first: Seq<Subsystem>, second: Seq<Subsystem>)
    requires
        in_step_order(first),
        in_step_order(second),
        forall|subsystem: Subsystem| first.contains(subsystem) <==> second.contains(subsystem),
        forall|one: Subsystem, other: Subsystem|
            first.contains(one) && first.contains(other) && one.step() == other.step() ==> one
                == other,
    ensures
        first == second,
    decreases first.len(),
{
    if first.len() == 0 {
        if second.len() > 0 {
            assert(second.contains(second[0]));
        }
        assert(first =~= second);
    } else {
        let top = first.last();
        assert(first.contains(top));
        assert(second.contains(top));
        let high = second.last();
        assert(second.contains(high));
        assert(first.contains(high));
        let at = choose|i: int| 0 <= i < first.len() && first[i] == high;
        let up = choose|i: int| 0 <= i < second.len() && second[i] == top;
        assert(first[at].step() <= top.step());
        assert(second[up].step() <= high.step());
        assert(top == high);
        let lower = first.drop_last();
        let below = second.drop_last();
        assert forall|subsystem: Subsystem| lower.contains(subsystem) <==> below.contains(
            subsystem,
        ) by {
            if lower.contains(subsystem) {
                let i = choose|i: int| 0 <= i < lower.len() && lower[i] == subsystem;
                assert(first[i] == subsystem);
                assert(first.contains(subsystem));
                assert(subsystem.step() < top.step());
                let j = choose|j: int| 0 <= j < second.len() && second[j] == subsystem;
                assert(below[j] == subsystem);
            }
            if below.contains(subsystem) {
                let j = choose|j: int| 0 <= j < below.len() && below[j] == subsystem;
                assert(second[j] == subsystem);
                assert(second.contains(subsystem));
                assert(subsystem.step() < high.step());
                let i = choose|i: int| 0 <= i < first.len() && first[i] == subsystem;
                assert(lower[i] == subsystem);
            }
        }
        assert forall|one: Subsystem, other: Subsystem|
            lower.contains(one) && lower.contains(other) && one.step() == other.step() implies one
            == other by {
            let i = choose|i: int| 0 <= i < lower.len() && lower[i] == one;
            let j = choose|j: int| 0 <= j < lower.len() && lower[j] == other;
            assert(first[i] == one && first[j] == other);
        }
        lemma_step_order_decides(lower, below);
        assert(first =~= lower.push(top));
        assert(second =~= below.push(high));
    }
}

/// The default group is the one group that holds exactly the subsystems
/// which the set includes, each at a later step than the one before it.
pub proof fn lemma_default_order_unique(features: FeatureSet, group: Seq<Subsystem>)
    requires
        forall|subsystem: Subsystem| group.contains(subsystem) <==> features.includes(subsystem),
        in_step_order(group),
    ensures
        group == features.default_order(),
{
    let order = features.default_order();
    lemma_default_order_ascends(features);
    assert forall|subsystem: Subsystem| group.contains(subsystem) <==> order.contains(
        subsystem,
    ) by {
        lemma_default_order_members(features, subsystem);
    }
    lemma_step_order_decides(group, order);
}

/// Exactly one runner is in the default group, and it is the selected one.
/// It stands last, or just before the render backend where there is one.
pub proof fn lemma_default_order_one_runner(features: FeatureSet)
    ensures
        features.runner_position() == features.default_order().len() - if features.wgpu {
            2int
        } else {
            1int
        },
        0 <= features.runner_position() < features.default_order().len(),
        features.default_order()[features.runner_position()] == features.runner(),
        forall|i: int|
            0 <= i < features.default_order().len() && features.default_order()[i].is_runner()
                ==> i == features.runner_position(),
{
}

/// Where no render backend is available, the selected runner is the last
/// plugin of the default group, and the only runner in it.
pub proof fn lemma_default_order_runner_last(features: FeatureSet)
    requires
        !features.wgpu,
    ensures
        features.default_order().last() == features.runner(),
        forall|i: int|
            0 <= i < features.default_order().len() - 1
                ==> !features.default_order()[i].is_runner(),
{
    lemma_default_order_one_runner(features);
}

} // verus!
