//! The kinds of object that the renderer owns, what each is made from, and
//! the orders in which they are created and destroyed.

use vstd::prelude::*;

verus! {

/// A kind of object that the renderer owns.
#[derive(Clone, Copy, Debug, PartialEq, Eq, Structural)]
pub enum Resource {
    Instance,
    Surface,
    Device,
    DebugMessenger,
    Swapchain,
    Attachments,
    RenderPass,
    Framebuffers,
    CommandPool,
    DescriptorLayouts,
    Textures,
    Meshes,
    Pipeline,
    UniformBuffer,
    DescriptorPool,
    SyncObjects,
    CommandBuffers,
}

/// The number of kinds.
pub const RESOURCE_KINDS: usize = 17;

/// `user` is made from `used`, or refers to it while it lives: `used` has to
/// exist before `user` is created and must outlive it.
pub open spec fn needs(user: Resource, used: Resource) -> bool {
    match user {
        Resource::Instance => false,
        Resource::Surface => used == Resource::Instance,
        Resource::Device => used == Resource::Instance || used == Resource::Surface,
        Resource::DebugMessenger => used == Resource::Instance,
        Resource::Swapchain => used == Resource::Device || used == Resource::Surface,
        Resource::Attachments => used == Resource::Device || used == Resource::Swapchain,
        Resource::RenderPass => used == Resource::Device || used == Resource::Swapchain,
        Resource::Framebuffers => used == Resource::Device || used == Resource::Swapchain || used
            == Resource::Attachments || used == Resource::RenderPass,
        Resource::CommandPool => used == Resource::Device,
        Resource::DescriptorLayouts => used == Resource::Device,
        Resource::Textures => used == Resource::Device || used == Resource::CommandPool,
        Resource::Meshes => used == Resource::Device || used == Resource::CommandPool,
        Resource::Pipeline => used == Resource::Device || used == Resource::RenderPass || used
            == Resource::DescriptorLayouts,
        Resource::UniformBuffer => used == Resource::Device,
        Resource::DescriptorPool => used == Resource::Device || used == Resource::DescriptorLayouts
            || used == Resource::Textures || used == Resource::UniformBuffer,
        Resource::SyncObjects => used == Resource::Device,
        Resource::CommandBuffers => used == Resource::Device || used == Resource::CommandPool
            || used == Resource::Framebuffers || used == Resource::RenderPass || used
            == Resource::Pipeline || used == Resource::Meshes || used == Resource::DescriptorPool,
    }
}

/// Whether a kind is sized or typed from the swapchain, and so is rebuilt
/// whenever the swapchain is.
pub open spec fn target_dependent(resource: Resource) -> bool {
    resource == Resource::Swapchain || resource == Resource::Attachments || resource
        == Resource::RenderPass || resource == Resource::Framebuffers || resource
        == Resource::Pipeline || resource == Resource::CommandBuffers
}

/// The order in which everything is created at start-up.
pub open spec fn construction_order() -> Seq<Resource> {
    seq![
        Resource::Instance,
        Resource::Surface,
        Resource::Device,
        Resource::DebugMessenger,
        Resource::Swapchain,
        Resource::Attachments,
        Resource::RenderPass,
        Resource::Framebuffers,
        Resource::CommandPool,
        Resource::DescriptorLayouts,
        Resource::Textures,
        Resource::Meshes,
        Resource::Pipeline,
        Resource::UniformBuffer,
        Resource::DescriptorPool,
        Resource::SyncObjects,
        Resource::CommandBuffers,
    ]
}

/// The order in which what depends on the swapchain is created again after
/// the old set was destroyed.
pub open spec fn rebuild_order() -> Seq<Resource> {
    seq![
        Resource::Swapchain,
        Resource::Attachments,
        Resource::RenderPass,
        Resource::Framebuffers,
        Resource::Pipeline,
        Resource::CommandBuffers,
    ]
}

/// The order in which what depends on the swapchain is destroyed.
pub open spec fn teardown_order() -> Seq<Resource> {
    seq![
        Resource::CommandBuffers,
        Resource::Framebuffers,
        Resource::Pipeline,
        Resource::RenderPass,
        Resource::Attachments,
        Resource::Swapchain,
    ]
}

/// The order in which everything is destroyed at shutdown.
pub open spec fn shutdown_order() -> Seq<Resource> {
    seq![
        Resource::SyncObjects,
        Resource::CommandBuffers,
        Resource::Framebuffers,
        Resource::Pipeline,
        Resource::RenderPass,
        Resource::Attachments,
        Resource::Swapchain,
        Resource::DescriptorPool,
        Resource::UniformBuffer,
        Resource::Meshes,
        Resource::Textures,
        Resource::DescriptorLayouts,
        Resource::CommandPool,
        Resource::DebugMessenger,
        Resource::Device,
        Resource::Surface,
        Resource::Instance,
    ]
}

/// An order creates nothing before what it is made from: no entry needs one
/// that comes after it.
pub open spec fn creates_in_order(order: Seq<Resource>) -> bool {
    forall|i: int, j: int| 0 <= i < j < order.len() ==> !needs(order[i], order[j])
}

/// An order destroys nothing that is still needed: no entry is needed by one
/// that comes after it.
pub open spec fn destroys_in_order(order: Seq<Resource>) -> bool {
    forall|i: int, j: int| 0 <= i < j < order.len() ==> !needs(order[j], order[i])
}

/// An order names each of its entries once.
pub open spec fn names_once(order: Seq<Resource>) -> bool {
    forall|i: int, j: int| 0 <= i < j < order.len() ==> order[i] != order[j]
}

/// An order names exactly the kinds that depend on the swapchain.
pub open spec fn names_target_set(order: Seq<Resource>) -> bool {
    forall|resource: Resource| order.contains(resource) <==> target_dependent(resource)
}

/// Copies a spec order into a vector.
fn order_vec(
    a: Resource,
    b: Resource,
    c: Resource,
    d: Resource,
    e: Resource,
    f: Resource,
) -> (order: Vec<Resource>)
    ensures
        order@ == seq![a, b, c, d, e, f],
{
    let mut order: Vec<Resource> = Vec::new();
    order.push(a);
    order.push(b);
    order.push(c);
    order.push(d);
    order.push(e);
    order.push(f);
    order
}

/// The order in which what depends on the swapchain is created again.
pub fn rebuild_steps() -> (order: Vec<Resource>)
    ensures
        order@ == rebuild_order(),
{
    order_vec(
        Resource::Swapchain,
        Resource::Attachments,
        Resource::RenderPass,
        Resource::Framebuffers,
        Resource::Pipeline,
        Resource::CommandBuffers,
    )
}

/// The order in which what depends on the swapchain is destroyed.
pub fn teardown_steps() -> (order: Vec<Resource>)
    ensures
        order@ == teardown_order(),
{
    order_vec(
        Resource::CommandBuffers,
        Resource::Framebuffers,
        Resource::Pipeline,
        Resource::RenderPass,
        Resource::Attachments,
        Resource::Swapchain,
    )
}

/// The order in which everything is created at start-up.
pub fn construction_steps() -> (order: Vec<Resource>)
    ensures
        order@ == construction_order(),
{
    let mut order: Vec<Resource> = Vec::new();
    order.push(Resource::Instance);
    order.push(Resource::Surface);
    order.push(Resource::Device);
    order.push(Resource::DebugMessenger);
    order.push(Resource::Swapchain);
    order.push(Resource::Attachments);
    order.push(Resource::RenderPass);
    order.push(Resource::Framebuffers);
    order.push(Resource::CommandPool);
    order.push(Resource::DescriptorLayouts);
    order.push(Resource::Textures);
    order.push(Resource::Meshes);
    order.push(Resource::Pipeline);
    order.push(Resource::UniformBuffer);
    order.push(Resource::DescriptorPool);
    order.push(Resource::SyncObjects);
    order.push(Resource::CommandBuffers);
    order
}

/// The order in which everything is destroyed at shutdown.
pub fn shutdown_steps() -> (order: Vec<Resource>)
    ensures
        order@ == shutdown_order(),
{
    let mut order: Vec<Resource> = Vec::new();
    order.push(Resource::SyncObjects);
    order.push(Resource::CommandBuffers);
    order.push(Resource::Framebuffers);
    order.push(Resource::Pipeline);
    order.push(Resource::RenderPass);
    order.push(Resource::Attachments);
    order.push(Resource::Swapchain);
    order.push(Resource::DescriptorPool);
    order.push(Resource::UniformBuffer);
    order.push(Resource::Meshes);
    order.push(Resource::Textures);
    order.push(Resource::DescriptorLayouts);
    order.push(Resource::CommandPool);
    order.push(Resource::DebugMessenger);
    order.push(Resource::Device);
    order.push(Resource::Surface);
    order.push(Resource::Instance);
    order
}

/// Start-up creates every kind once, and none before what it is made from.
pub proof fn lemma_construction_respects_dependencies()
    ensures
        construction_order().len() == RESOURCE_KINDS,
        names_once(construction_order()),
        creates_in_order(construction_order()),
{
}

/// Shutdown destroys every kind once, and none that something not yet
/// destroyed still needs.
pub proof fn lemma_shutdown_respects_dependencies()
    ensures
        shutdown_order().len() == RESOURCE_KINDS,
        names_once(shutdown_order()),
        destroys_in_order(shutdown_order()),
{
}

/// A rebuild destroys exactly what depends on the swapchain, each kind once
/// and none that something not yet destroyed still needs, and creates the
/// same kinds again, none before what it is made from.
pub proof fn lemma_rebuild_respects_dependencies()
    ensures
        names_once(teardown_order()),
        destroys_in_order(teardown_order()),
        names_target_set(teardown_order()),
        names_once(rebuild_order()),
        creates_in_order(rebuild_order()),
        names_target_set(rebuild_order()),
{
}

/// Nothing outside the set that a rebuild destroys is made from anything in
/// it, so the rest of the renderer's objects live through a rebuild.
pub proof fn lemma_rebuild_is_self_contained(user: Resource, used: Resource)
    requires
        needs(user, used),
        target_dependent(used),
    ensures
        target_dependent(user),
{
}

} // verus!
