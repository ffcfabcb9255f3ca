//! The order in which the renderer's objects are destroyed at shutdown.
//!
//! The graphics API leaves the behaviour undefined where an object is
//! destroyed while another still refers to it, so the order is fixed here
//! and the caller only walks it: all of it at shutdown, and the part of it
//! that concerns what was created when start-up fails half-way.

use vstd::prelude::*;

verus! {

/// One step of the shutdown. Every step but the first destroys all objects
/// of one kind.
#[derive(Clone, Copy, Debug, PartialEq, Eq, Structural)]
pub enum TeardownStep {
    /// Block until the device reports no outstanding work.
    WaitIdle,
    /// The image-available signal of every in-flight slot.
    ImageAvailableSignals,
    /// The render-finished signal of every in-flight slot.
    RenderFinishedSignals,
    /// The completion gate of every in-flight slot.
    CompletionGates,
    /// The command pool, and with it the command buffers.
    CommandPool,
    Pipeline,
    PipelineLayout,
    Framebuffers,
    RenderPass,
    ImageViews,
    UniformBuffers,
    UniformMemory,
    /// The descriptor pool, and with it the descriptor sets.
    DescriptorPool,
    DescriptorSetLayout,
    Swapchain,
    Device,
    Surface,
    Instance,
}

/// The shutdown, first step first.
pub open spec fn teardown_order() -> Seq<TeardownStep> {
    seq![
        TeardownStep::WaitIdle,
        TeardownStep::ImageAvailableSignals,
        TeardownStep::RenderFinishedSignals,
        TeardownStep::CompletionGates,
        TeardownStep::CommandPool,
        TeardownStep::Pipeline,
        TeardownStep::PipelineLayout,
        TeardownStep::Framebuffers,
        TeardownStep::RenderPass,
        TeardownStep::ImageViews,
        TeardownStep::UniformBuffers,
        TeardownStep::UniformMemory,
        TeardownStep::DescriptorPool,
        TeardownStep::DescriptorSetLayout,
        TeardownStep::Swapchain,
        TeardownStep::Device,
        TeardownStep::Surface,
        TeardownStep::Instance,
    ]
}

/// Where a step stands in the shutdown.
pub open spec fn position(step: TeardownStep) -> int {
    match step {
        TeardownStep::WaitIdle => 0,
        TeardownStep::ImageAvailableSignals => 1,
        TeardownStep::RenderFinishedSignals => 2,
        TeardownStep::CompletionGates => 3,
        TeardownStep::CommandPool => 4,
        TeardownStep::Pipeline => 5,
        TeardownStep::PipelineLayout => 6,
        TeardownStep::Framebuffers => 7,
        TeardownStep::RenderPass => 8,
        TeardownStep::ImageViews => 9,
        TeardownStep::UniformBuffers => 10,
        TeardownStep::UniformMemory => 11,
        TeardownStep::DescriptorPool => 12,
        TeardownStep::DescriptorSetLayout => 13,
        TeardownStep::Swapchain => 14,
        TeardownStep::Device => 15,
        TeardownStep::Surface => 16,
        TeardownStep::Instance => 17,
    }
}

/// Whether the objects of `user` were created from, or record a use of,
/// the objects of `used`, so that `user` has to go first.
pub open spec fn refers_to(user: TeardownStep, used: TeardownStep) -> bool {
    match (user, used) {
        // Recorded command buffers name what they draw with.
        (TeardownStep::CommandPool, TeardownStep::Pipeline) => true,
        (TeardownStep::CommandPool, TeardownStep::PipelineLayout) => true,
        (TeardownStep::CommandPool, TeardownStep::Framebuffers) => true,
        (TeardownStep::CommandPool, TeardownStep::RenderPass) => true,
        (TeardownStep::CommandPool, TeardownStep::DescriptorPool) => true,
        (TeardownStep::Pipeline, TeardownStep::PipelineLayout) => true,
        (TeardownStep::Pipeline, TeardownStep::RenderPass) => true,
        (TeardownStep::PipelineLayout, TeardownStep::DescriptorSetLayout) => true,
        (TeardownStep::Framebuffers, TeardownStep::RenderPass) => true,
        (TeardownStep::Framebuffers, TeardownStep::ImageViews) => true,
        (TeardownStep::ImageViews, TeardownStep::Swapchain) => true,
        (TeardownStep::UniformBuffers, TeardownStep::UniformMemory) => true,
        (TeardownStep::DescriptorPool, TeardownStep::DescriptorSetLayout) => true,
        (TeardownStep::Swapchain, TeardownStep::Surface) => true,
        (TeardownStep::Device, TeardownStep::Instance) => true,
        (TeardownStep::Surface, TeardownStep::Instance) => true,
        // Everything between the wait and the device itself is a child of the device.
        (_, TeardownStep::Device) => 0 < position(user) < position(TeardownStep::Device),
        _ => false,
    }
}

/// The steps of the shutdown, in the order in which they must be performed.
pub fn teardown_sequence() -> (steps: Vec<TeardownStep>)
    ensures
        steps@ == teardown_order(),
{
    let steps = vec![
        TeardownStep::WaitIdle,
        TeardownStep::ImageAvailableSignals,
        TeardownStep::RenderFinishedSignals,
        TeardownStep::CompletionGates,
        TeardownStep::CommandPool,
        TeardownStep::Pipeline,
        TeardownStep::PipelineLayout,
        TeardownStep::Framebuffers,
        TeardownStep::RenderPass,
        TeardownStep::ImageViews,
        TeardownStep::UniformBuffers,
        TeardownStep::UniformMemory,
        TeardownStep::DescriptorPool,
        TeardownStep::DescriptorSetLayout,
        TeardownStep::Swapchain,
        TeardownStep::Device,
        TeardownStep::Surface,
        TeardownStep::Instance,
    ];
    assert(steps@ =~= teardown_order());
    steps
}

/// Whether the shutdown of a renderer of which only the objects of
/// `created` exist takes `step`: it always waits, and it destroys what was
/// created.
pub open spec fn takes_step(created: Seq<TeardownStep>) -> spec_fn(TeardownStep) -> bool {
    |step: TeardownStep| step == TeardownStep::WaitIdle || created.contains(step)
}

/// The shutdown of a renderer of which only the objects of `created`
/// exist: the steps of the full shutdown that it takes, in the same order.
pub open spec fn teardown_of(created: Seq<TeardownStep>) -> Seq<TeardownStep> {
    teardown_order().filter(takes_step(created))
}

/// Whether `step` is among `created`.
fn was_created(created: &Vec<TeardownStep>, step: TeardownStep) -> (found: bool)
    ensures
        found == created@.contains(step),
{
    let mut i: usize = 0;
    while i < created.len()
        invariant
            i <= created@.len(),
            forall|j: int| 0 <= j < i ==> created@[j] != step,
        decreases created@.len() - i,
    {
        if created[i] == step {
            return true;
        }
        i += 1;
    }
    false
}

/// The steps that release what a start-up created before it failed, in
/// the order in which they must be performed. `created` names the kinds of
/// object that exist, in any order and any number of times; the wait for
/// the device comes first in any case.
pub fn teardown_after(created: &Vec<TeardownStep>) -> (steps: Vec<TeardownStep>)
    ensures
        steps@ == teardown_of(created@),
{
    let order = teardown_sequence();
    let mut steps: Vec<TeardownStep> = Vec::new();
    let mut i: usize = 0;
    proof {
        reveal(Seq::filter);
        assert(order@.take(0).len() == 0);
    }
    while i < order.len()
        invariant
            i <= order@.len(),
            order@ == teardown_order(),
            steps@ == order@.take(i as int).filter(takes_step(created@)),
        decreases order@.len() - i,
    {
        let step = order[i];
        let taken = step == TeardownStep::WaitIdle || was_created(created, step);
        proof {
            reveal(Seq::filter);
            assert(order@.take(i + 1).drop_last() =~= order@.take(i as int));
            assert(order@.take(i + 1).last() == step);
        }
        if taken {
            steps.push(step);
        }
        i += 1;
    }
    assert(order@.take(order@.len() as int) =~= order@);
    steps
}

/// What is released after a failed start-up is part of the full shutdown
/// and keeps its order: every step of it is a step that is taken, and of
/// two of its steps the one that stands first stands first in the full
/// shutdown too.
pub proof fn lemma_teardown_after_keeps_order(created: Seq<TeardownStep>, i: int, j: int)
    requires
        0 <= i < j < teardown_of(created).len(),
    ensures
        takes_step(created)(teardown_of(created)[i]),
        takes_step(created)(teardown_of(created)[j]),
        position(teardown_of(created)[i]) < position(teardown_of(created)[j]),
{
    lemma_filter_keeps_order(teardown_order(), takes_step(created), i, j);
    let a = choose|a: int|
        #![trigger teardown_order()[a]]
        exists|b: int|
            0 <= a < b < teardown_order().len() && teardown_order()[a] == teardown_of(created)[i]
                && #[trigger] teardown_order()[b] == teardown_of(created)[j];
    let b = choose|b: int|
        0 <= a < b < teardown_order().len() && teardown_order()[a] == teardown_of(created)[i]
            && #[trigger] teardown_order()[b] == teardown_of(created)[j];
    lemma_teardown_complete(teardown_order()[a]);
    lemma_teardown_complete(teardown_order()[b]);
}

/// Nothing that was created is left behind: every kind of object among
/// `created` has its step in what is released.
pub proof fn lemma_teardown_after_releases_all(created: Seq<TeardownStep>, step: TeardownStep)
    requires
        created.contains(step),
    ensures
        teardown_of(created).contains(step),
{
    lemma_teardown_complete(step);
    teardown_order().lemma_filter_contains(takes_step(created), position(step));
}

/// Filtering keeps the order: two entries of the filtered sequence come
/// from two entries of the whole that stand in the same order, and both
/// meet the filter.
proof fn lemma_filter_keeps_order(
    all: Seq<TeardownStep>,
    keep: spec_fn(TeardownStep) -> bool,
    i: int,
    j: int,
)
    requires
        0 <= i < j < all.filter(keep).len(),
    ensures
        keep(all.filter(keep)[i]),
        keep(all.filter(keep)[j]),
        exists|a: int|
            #![trigger all[a]]
            exists|b: int|
                0 <= a < b < all.len() && all[a] == all.filter(keep)[i] && #[trigger] all[b]
                    == all.filter(keep)[j],
    decreases all.len(),
{
    reveal(Seq::filter);
    if all.len() > 0 {
        let rest = all.drop_last();
        let kept = rest.filter(keep);
        if keep(all.last()) && j == kept.len() {
            lemma_filter_has_source(rest, keep, i);
            let a = choose|a: int| 0 <= a < rest.len() && #[trigger] rest[a] == kept[i];
            assert(all[a] == all.filter(keep)[i]);
            let b = all.len() - 1;
            assert(all[b] == all.filter(keep)[j]);
        } else {
            lemma_filter_keeps_order(rest, keep, i, j);
            let a = choose|a: int|
                #![trigger rest[a]]
                exists|b: int|
                    0 <= a < b < rest.len() && rest[a] == kept[i] && #[trigger] rest[b] == kept[j];
            let b = choose|b: int|
                0 <= a < b < rest.len() && rest[a] == kept[i] && #[trigger] rest[b] == kept[j];
            assert(all[a] == all.filter(keep)[i]);
            assert(all[b] == all.filter(keep)[j]);
        }
    }
}

/// An entry of a filtered sequence meets the filter and stands in the whole.
proof fn lemma_filter_has_source(
    all: Seq<TeardownStep>,
    keep: spec_fn(TeardownStep) -> bool,
    i: int,
)
    requires
        0 <= i < all.filter(keep).len(),
    ensures
        keep(all.filter(keep)[i]),
        exists|a: int| 0 <= a < all.len() && #[trigger] all[a] == all.filter(keep)[i],
    decreases all.len(),
{
    reveal(Seq::filter);
    if all.len() > 0 {
        let rest = all.drop_last();
        let kept = rest.filter(keep);
        if keep(all.last()) && i == kept.len() {
            assert(all[all.len() - 1] == all.filter(keep)[i]);
        } else {
            lemma_filter_has_source(rest, keep, i);
            let a = choose|a: int| 0 <= a < rest.len() && #[trigger] rest[a] == kept[i];
            assert(all[a] == all.filter(keep)[i]);
        }
    }
}

/// Every step stands in the shutdown exactly once, at its position.
pub proof fn lemma_teardown_complete(step: TeardownStep)
    ensures
        0 <= position(step) < teardown_order().len(),
        teardown_order()[position(step)] == step,
        forall|i: int|
            0 <= i < teardown_order().len() && teardown_order()[i] == step ==> i == position(step),
{
}

/// The shutdown waits for the device first, and destroys nothing while
/// something that refers to it still exists.
pub proof fn lemma_teardown_respects_references(user: TeardownStep, used: TeardownStep)
    ensures
        user != TeardownStep::WaitIdle ==> position(TeardownStep::WaitIdle) < position(user),
        refers_to(user, used) ==> position(user) < position(used),
{
}

} // verus!
