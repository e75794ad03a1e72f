//! Orders to give objects back to the driver.

use vstd::prelude::*;

verus! {

/// The kinds of driver objects the renderer owns.
#[derive(Copy, Clone, Debug, PartialEq, Eq, Structural)]
pub enum ObjectKind {
    Framebuffer,
    ImageView,
    Swapchain,
    Sampler,
    Image,
    Buffer,
    Memory,
    DescriptorPool,
    DescriptorSetLayout,
    PipelineLayout,
    RenderPass,
    Pipeline,
    Semaphore,
    Fence,
    CommandPool,
    Device,
    Surface,
    DebugMessenger,
    Instance,
}

/// One object to destroy, or one allocation to free, by raw handle.
#[derive(Copy, Clone, Debug, PartialEq, Eq, Structural)]
pub struct Release {
    pub kind: ObjectKind,
    pub handle: u64,
}

/// One release of the given kind per handle, in the order of `handles`.
pub open spec fn releases_of(kind: ObjectKind, handles: Seq<u64>) -> Seq<Release> {
    Seq::new(handles.len(), |i: int| Release { kind, handle: handles[i] })
}

/// Appends to `out` a release of the given kind for each of `handles`, in their order.
pub fn push_releases(out: &mut Vec<Release>, kind: ObjectKind, handles: &Vec<u64>)
    ensures
        final(out)@ == old(out)@ + releases_of(kind, handles@),
{
    let mut i: usize = 0;
    while i < handles.len()
        invariant
            i <= handles.len(),
            out@ == old(out)@ + releases_of(kind, handles@.take(i as int)),
        decreases handles.len() - i,
    {
        out.push(Release { kind, handle: handles[i] });
        i += 1;
        assert(out@ =~= old(out)@ + releases_of(kind, handles@.take(i as int)));
    }
    assert(handles@.take(handles.len() as int) =~= handles@);
}

} // verus!
