use gfx_chain::resource::State as ResourceState;
use gfx_chain::{
    Buffer, BufferAccess, BufferLayout, Id, Image, ImageAccess, ImageLayout, ImageState,
    PipelineStage, State,
};

fn buffer(bits: u32) -> BufferAccess {
    BufferAccess::from_bits(bits)
}

fn image(bits: u32, layout: ImageLayout) -> ImageState {
    ImageState(ImageAccess::from_bits(bits), layout)
}

#[test]
fn buffer_readers_merge() {
    let a = buffer(BufferAccess::SHADER_READ);
    let b = buffer(BufferAccess::TRANSFER_READ);
    assert!(a.can_merge(b));
    assert_eq!(a.merge(b), Some(buffer(0x820)));
    assert_eq!(a.merge(a), Some(a));
    assert!(a.compatible(a));
    assert!(!a.compatible(b));
    assert!(buffer(0x820).compatible(a));
}

#[test]
fn buffer_writers_do_not_merge() {
    let read = buffer(BufferAccess::SHADER_READ);
    let write = buffer(BufferAccess::SHADER_WRITE);
    assert_eq!(read.merge(write), None);
    assert_eq!(write.merge(read), None);
    assert_eq!(write.merge(write), None);
    assert!(!write.compatible(write));
    assert_eq!(buffer(0x60).merge(read), None);
    assert_eq!(buffer(0).merge(read), None);
}

#[test]
fn buffer_state_is_its_access() {
    let state = buffer(BufferAccess::HOST_WRITE);
    assert_eq!(state.access(), state);
    assert_eq!(state.discard_content(), state);
    assert_eq!(state.replace_access(buffer(0x20)), buffer(0x20));
    assert_eq!(state.with_no_access(), buffer(0));
    assert_eq!(state.with_all_access(), buffer(BufferAccess::ALL));
    assert!(state.same(state));
    assert!(!state.same(buffer(0)));
}

#[test]
fn image_readers_merge_with_their_layouts() {
    let shader = image(ImageAccess::SHADER_READ, ImageLayout::ShaderReadOnlyOptimal);
    let depth =
        image(ImageAccess::DEPTH_STENCIL_ATTACHMENT_READ, ImageLayout::DepthStencilReadOnlyOptimal);
    let copy = image(ImageAccess::TRANSFER_READ, ImageLayout::TransferSrcOptimal);
    assert_eq!(
        shader.merge(depth),
        Some(image(0x220, ImageLayout::DepthStencilReadOnlyOptimal))
    );
    assert_eq!(shader.merge(copy), Some(image(0x820, ImageLayout::General)));
    assert_eq!(shader.merge(shader), Some(shader));
    assert!(shader.compatible(shader));
    assert!(!shader.compatible(depth));
}

#[test]
fn image_writers_do_not_merge() {
    let read = image(ImageAccess::SHADER_READ, ImageLayout::General);
    let write = image(ImageAccess::SHADER_WRITE, ImageLayout::General);
    assert_eq!(read.merge(write), None);
    assert_eq!(write.merge(read), None);
    assert_eq!(write.merge(write), None);
    assert!(!write.compatible(write));
}

#[test]
fn image_merge_with_present_is_not_defined_for_readers() {
    let present = image(ImageAccess::TRANSFER_READ, ImageLayout::Present);
    let read = image(ImageAccess::SHADER_READ, ImageLayout::General);
    let write = image(ImageAccess::SHADER_WRITE, ImageLayout::General);
    assert!(!present.can_merge(read));
    assert!(!read.can_merge(present));
    assert!(present.can_merge(present));
    assert!(present.can_merge(write));
    assert_eq!(present.merge(write), None);
    assert_eq!(present.merge(present), Some(present));
}

#[test]
fn image_state_parts() {
    let state = image(ImageAccess::COLOR_ATTACHMENT_WRITE, ImageLayout::ColorAttachmentOptimal);
    assert_eq!(state.access(), ImageAccess::from_bits(0x100));
    assert_eq!(state.discard_content(), image(0x100, ImageLayout::Undefined));
    assert_eq!(
        state.replace_access(ImageAccess::from_bits(0x20)),
        image(0x20, ImageLayout::ColorAttachmentOptimal)
    );
    assert_eq!(state.with_no_access(), image(0, ImageLayout::ColorAttachmentOptimal));
    assert_eq!(
        state.with_all_access(),
        image(ImageAccess::ALL, ImageLayout::ColorAttachmentOptimal)
    );
    assert!(state.same(state));
    assert!(!state.same(state.discard_content()));
    assert!(!state.same(state.with_no_access()));
}

#[test]
fn identifiers_keep_their_index() {
    let id: Id<Buffer> = Id::new(7);
    assert_eq!(id.index(), 7);
    assert!(id == Id::new(7));
    assert!(id != Id::new(8));
    let copy = id;
    assert_eq!(copy.index(), id.index());
    let image: Id<Image> = Id::new(u32::MAX);
    assert_eq!(image.index(), u32::MAX);
}

#[test]
fn resource_states_merge() {
    let a: ResourceState<Image> = ResourceState {
        access: ImageAccess::from_bits(ImageAccess::SHADER_READ),
        layout: ImageLayout::ShaderReadOnlyOptimal,
        stages: PipelineStage::from_bits(PipelineStage::FRAGMENT_SHADER),
    };
    let b: ResourceState<Image> = ResourceState {
        access: ImageAccess::from_bits(ImageAccess::DEPTH_STENCIL_ATTACHMENT_READ),
        layout: ImageLayout::DepthStencilReadOnlyOptimal,
        stages: PipelineStage::from_bits(PipelineStage::EARLY_FRAGMENT_TESTS),
    };
    let merged = a.merge(b);
    assert_eq!(merged.access, ImageAccess::from_bits(0x220));
    assert_eq!(merged.layout, ImageLayout::DepthStencilReadOnlyOptimal);
    assert_eq!(merged.stages, PipelineStage::from_bits(0x180));
    assert!(a.compatible(b));
    assert!(!a.exclusive());
}

#[test]
fn resource_states_with_a_writer_are_not_compatible() {
    let read: ResourceState<Buffer> = ResourceState {
        access: BufferAccess::from_bits(BufferAccess::SHADER_READ),
        layout: BufferLayout,
        stages: PipelineStage::from_bits(PipelineStage::COMPUTE_SHADER),
    };
    let write: ResourceState<Buffer> = ResourceState {
        access: BufferAccess::from_bits(BufferAccess::TRANSFER_WRITE),
        layout: BufferLayout,
        stages: PipelineStage::from_bits(PipelineStage::TRANSFER),
    };
    assert!(write.exclusive());
    assert!(!read.exclusive());
    assert!(read.compatible(read));
    assert!(!read.compatible(write));
    assert!(!write.compatible(read));
    let merged = read.merge(write);
    assert_eq!(merged.access, BufferAccess::from_bits(0x1020));
    assert_eq!(merged.stages, PipelineStage::from_bits(0x1800));
}
