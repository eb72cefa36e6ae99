use gfx_chain::{
    Acquire, AttachmentLoadOp, AttachmentStoreOp, Chain, ChainId, ImageAccess, ImageChain,
    ImageInit, ImageLayout, ImageLink, ImageState, ImageUsage, LinkSync, PassLinks, PipelineStage,
    QueueFamilyId, QueueId, Release,
};
use gfx_hal::command::{ClearColor, ClearValue};

fn queue(family: usize, index: usize) -> QueueId {
    QueueId::new(QueueFamilyId(family), index)
}

fn pass(queue: QueueId, access: Option<(u32, ImageLayout, u32)>) -> PassLinks<ImageState, ImageUsage> {
    PassLinks {
        queue,
        links: access
            .into_iter()
            .map(|(access, layout, stages)| ImageLink {
                id: ChainId::new(0),
                stages: PipelineStage::from_bits(stages),
                state: ImageState(ImageAccess::from_bits(access), layout),
                usage: ImageUsage::from_bits(ImageUsage::COLOR_ATTACHMENT),
            })
            .collect(),
    }
}

fn build(init: ImageInit, passes: &[PassLinks<ImageState, ImageUsage>]) -> ImageChain<u32, u32> {
    let mut count = 0u32;
    assert!(ImageChain::<u32, u32>::can_build(ChainId::new(0), passes));
    Chain::build(ChainId::new(0), ImageUsage::from_bits(0), init, passes, || {
        count += 1;
        (count, count + 100)
    })
    .unwrap()
}

fn clear() -> ClearValue {
    ClearValue { color: ClearColor { uint32: [1, 2, 3, 4] } }
}

fn read_then_two_writes(init: ImageInit) -> ImageChain<u32, u32> {
    let q = queue(0, 0);
    build(
        init,
        &[
            pass(
                q,
                Some((
                    ImageAccess::SHADER_READ,
                    ImageLayout::ShaderReadOnlyOptimal,
                    PipelineStage::FRAGMENT_SHADER,
                )),
            ),
            pass(
                q,
                Some((
                    ImageAccess::COLOR_ATTACHMENT_WRITE,
                    ImageLayout::ColorAttachmentOptimal,
                    PipelineStage::COLOR_ATTACHMENT_OUTPUT,
                )),
            ),
            pass(
                q,
                Some((
                    ImageAccess::TRANSFER_WRITE,
                    ImageLayout::TransferDstOptimal,
                    PipelineStage::TRANSFER,
                )),
            ),
        ],
    )
}

#[test]
fn init_gives_load_op_and_clear_value() {
    assert_eq!(ImageInit::Load.load_op(), AttachmentLoadOp::Load);
    assert_eq!(ImageInit::DontCare.load_op(), AttachmentLoadOp::DontCare);
    assert_eq!(ImageInit::Clear(clear()).load_op(), AttachmentLoadOp::Clear);
    assert!(!ImageInit::Load.discard());
    assert!(ImageInit::DontCare.discard());
    assert!(ImageInit::Clear(clear()).discard());
    assert!(ImageInit::Load.clear_value().is_none());
    assert!(ImageInit::DontCare.clear_value().is_none());
    let value = ImageInit::Clear(clear()).clear_value().unwrap();
    assert_eq!(format!("{:?}", value), format!("{:?}", clear()));
}

#[test]
fn load_op_of_a_reader_is_load() {
    for init in [ImageInit::Load, ImageInit::DontCare, ImageInit::Clear(clear())] {
        let chain = read_then_two_writes(init);
        assert_eq!(chain.load_op(0), AttachmentLoadOp::Load);
        assert!(chain.clear_value(0).is_none());
    }
}

#[test]
fn load_op_of_a_writer_follows_the_init() {
    let chain = read_then_two_writes(ImageInit::Load);
    assert_eq!(chain.load_op(1), AttachmentLoadOp::Load);
    assert!(chain.clear_value(1).is_none());
    let chain = read_then_two_writes(ImageInit::DontCare);
    assert_eq!(chain.load_op(1), AttachmentLoadOp::DontCare);
    assert_eq!(chain.load_op(2), AttachmentLoadOp::DontCare);
    assert!(chain.clear_value(2).is_none());
    let chain = read_then_two_writes(ImageInit::Clear(clear()));
    assert_eq!(chain.load_op(1), AttachmentLoadOp::Clear);
    assert_eq!(chain.load_op(2), AttachmentLoadOp::Clear);
    assert_eq!(format!("{:?}", chain.clear_value(1).unwrap()), format!("{:?}", clear()));
    assert_eq!(format!("{:?}", chain.clear_value(2).unwrap()), format!("{:?}", clear()));
}

#[test]
fn store_op_is_store_where_a_later_pass_reads() {
    let chain = read_then_two_writes(ImageInit::Load);
    // Only the pass at 0 reads: after it come two writers.
    assert_eq!(chain.store_op(0), AttachmentStoreOp::DontCare);
    // After the passes at 1 and 2 the ring comes round to the reader.
    assert_eq!(chain.store_op(1), AttachmentStoreOp::Store);
    assert_eq!(chain.store_op(2), AttachmentStoreOp::Store);
}

#[test]
fn store_op_is_dont_care_where_nobody_reads() {
    let q = queue(0, 0);
    let chain = build(
        ImageInit::DontCare,
        &[
            pass(
                q,
                Some((
                    ImageAccess::COLOR_ATTACHMENT_WRITE,
                    ImageLayout::ColorAttachmentOptimal,
                    PipelineStage::COLOR_ATTACHMENT_OUTPUT,
                )),
            ),
            pass(q, None),
            pass(
                q,
                Some((
                    ImageAccess::TRANSFER_WRITE,
                    ImageLayout::TransferDstOptimal,
                    PipelineStage::TRANSFER,
                )),
            ),
        ],
    );
    assert_eq!(chain.store_op(0), AttachmentStoreOp::DontCare);
    assert_eq!(chain.store_op(1), AttachmentStoreOp::DontCare);
    assert_eq!(chain.store_op(2), AttachmentStoreOp::DontCare);
}

#[test]
fn subpass_layout_is_the_declared_layout() {
    let chain = read_then_two_writes(ImageInit::Load);
    assert_eq!(chain.subpass_layout(0), ImageLayout::ShaderReadOnlyOptimal);
    assert_eq!(chain.subpass_layout(1), ImageLayout::ColorAttachmentOptimal);
    assert_eq!(chain.subpass_layout(2), ImageLayout::TransferDstOptimal);
}

#[test]
fn presentable_sync_patches_both_ends() {
    let q = queue(0, 0);
    let mut chain = build(
        ImageInit::DontCare,
        &[
            pass(q, None),
            pass(
                q,
                Some((
                    ImageAccess::COLOR_ATTACHMENT_WRITE,
                    ImageLayout::ColorAttachmentOptimal,
                    PipelineStage::COLOR_ATTACHMENT_OUTPUT,
                )),
            ),
        ],
    );
    assert!(chain.can_accept_presentable_sync());
    chain.with_presentable_sync(7, ImageLayout::Undefined, 9, ImageLayout::Present);
    let write = ImageState(
        ImageAccess::from_bits(ImageAccess::COLOR_ATTACHMENT_WRITE),
        ImageLayout::ColorAttachmentOptimal,
    );
    let link = chain.link(1);
    assert_eq!(
        link.acquire,
        LinkSync::Transfer {
            semaphore: 7,
            states: ImageState(ImageAccess::from_bits(0), ImageLayout::Undefined)..write,
            stages: PipelineStage::from_bits(PipelineStage::BOTTOM_OF_PIPE)
                ..PipelineStage::from_bits(PipelineStage::COLOR_ATTACHMENT_OUTPUT),
            other: q,
        }
    );
    assert_eq!(
        link.release,
        LinkSync::Transfer {
            semaphore: 9,
            states: write..ImageState(ImageAccess::from_bits(0), ImageLayout::Present),
            stages: PipelineStage::from_bits(PipelineStage::COLOR_ATTACHMENT_OUTPUT)
                ..PipelineStage::from_bits(PipelineStage::TOP_OF_PIPE),
            other: q,
        }
    );
    assert!(chain.links[0].is_none());
    assert_eq!(link.state, write);
    assert_eq!(link.merged_state, write);
}

#[test]
fn presentable_sync_is_accepted_once() {
    let q = queue(0, 0);
    let mut chain = build(
        ImageInit::Clear(clear()),
        &[
            pass(
                q,
                Some((
                    ImageAccess::COLOR_ATTACHMENT_WRITE,
                    ImageLayout::ColorAttachmentOptimal,
                    PipelineStage::COLOR_ATTACHMENT_OUTPUT,
                )),
            ),
            pass(
                q,
                Some((
                    ImageAccess::SHADER_READ,
                    ImageLayout::ShaderReadOnlyOptimal,
                    PipelineStage::FRAGMENT_SHADER,
                )),
            ),
        ],
    );
    // The barrier after the last pass already stands there.
    assert!(!chain.can_accept_presentable_sync());
    let q1 = queue(0, 1);
    chain = build(
        ImageInit::Clear(clear()),
        &[
            pass(
                q,
                Some((
                    ImageAccess::SHADER_READ,
                    ImageLayout::ShaderReadOnlyOptimal,
                    PipelineStage::FRAGMENT_SHADER,
                )),
            ),
            pass(q1, None),
            pass(
                q,
                Some((
                    ImageAccess::SHADER_READ,
                    ImageLayout::ShaderReadOnlyOptimal,
                    PipelineStage::VERTEX_SHADER,
                )),
            ),
        ],
    );
    assert!(chain.can_accept_presentable_sync());
    chain.with_presentable_sync(1, ImageLayout::Present, 2, ImageLayout::Present);
    assert!(!chain.can_accept_presentable_sync());
    assert!(matches!(chain.link(0).acquire, LinkSync::Transfer { semaphore: 1, .. }));
    assert_eq!(chain.link(0).release, LinkSync::Noop(Release));
    assert_eq!(chain.link(2).acquire, LinkSync::Noop(Acquire));
    assert!(matches!(chain.link(2).release, LinkSync::Transfer { semaphore: 2, .. }));
}
