use gfx_chain::{
    Acquire, BarrierRanges, BufferAccess, BufferChain, BufferLink, BufferUsage, ChainId,
    GraphChains, LinkSync, PassLinks, PipelineStage, QueueFamilyId, QueueId, Release, Semantics,
};

fn queue(family: usize, index: usize) -> QueueId {
    QueueId::new(QueueFamilyId(family), index)
}

fn pass(queue: QueueId, links: Vec<(usize, u32, u32)>) -> PassLinks<BufferAccess, BufferUsage> {
    PassLinks {
        queue,
        links: links
            .into_iter()
            .map(|(id, access, stages)| BufferLink {
                id: ChainId::new(id),
                stages: PipelineStage::from_bits(stages),
                state: BufferAccess::from_bits(access),
                usage: BufferUsage::from_bits(BufferUsage::STORAGE),
            })
            .collect(),
    }
}

fn ring() -> Vec<PassLinks<BufferAccess, BufferUsage>> {
    vec![
        pass(
            queue(0, 0),
            vec![
                (0, BufferAccess::TRANSFER_WRITE, PipelineStage::TRANSFER),
                (2, BufferAccess::SHADER_READ, PipelineStage::COMPUTE_SHADER),
            ],
        ),
        pass(
            queue(0, 1),
            vec![
                (2, BufferAccess::SHADER_WRITE, PipelineStage::COMPUTE_SHADER),
                (0, BufferAccess::SHADER_READ, PipelineStage::VERTEX_SHADER),
            ],
        ),
        pass(queue(1, 0), vec![(2, BufferAccess::HOST_READ, PipelineStage::HOST)]),
    ]
}

fn graph() -> (GraphChains<BufferAccess, BufferUsage, (), u32, u32>, u32) {
    let passes = ring();
    let mut count = 0u32;
    let chains = GraphChains::new(3, (), BufferUsage::from_bits(BufferUsage::TRANSFER_DST), &passes, || {
        count += 1;
        (count, count + 100)
    });
    (chains, count)
}

#[test]
fn graph_builds_one_chain_for_each_identifier() {
    let (chains, allocated) = graph();
    assert_eq!(chains.chains.len(), 3);
    assert!(chains.has_chain(ChainId::new(0)));
    assert!(!chains.has_chain(ChainId::new(1)));
    assert!(chains.has_chain(ChainId::new(2)));
    assert!(!chains.has_chain(ChainId::new(3)));
    // Two pairs in the first chain and three in the last one cross queues.
    assert_eq!(allocated, 5);
    let first = chains.chain(ChainId::new(0));
    assert_eq!(first.usage, BufferUsage::from_bits(0x22));
    assert_eq!(first.links.len(), 3);
    assert!(first.links[2].is_none());
    assert_eq!(first.link(0).release, LinkSync::Semaphore { semaphore: 1 });
    assert_eq!(first.link(1).acquire, LinkSync::Semaphore { semaphore: 101 });
    assert_eq!(first.link(1).release, LinkSync::Semaphore { semaphore: 2 });
    assert_eq!(first.link(0).acquire, LinkSync::Semaphore { semaphore: 102 });
}

#[test]
fn graph_chains_go_on_with_one_allocator() {
    let (chains, _) = graph();
    let last = chains.chain(ChainId::new(2));
    assert_eq!(last.link(0).release, LinkSync::Semaphore { semaphore: 3 });
    assert_eq!(last.link(1).acquire, LinkSync::Semaphore { semaphore: 103 });
    assert_eq!(
        last.link(1).release,
        LinkSync::Transfer {
            semaphore: 4,
            states: BufferAccess::from_bits(0)..BufferAccess::from_bits(0),
            stages: PipelineStage::from_bits(PipelineStage::COMPUTE_SHADER)
                ..PipelineStage::from_bits(PipelineStage::HOST),
            other: queue(1, 0),
        }
    );
    assert_eq!(
        last.link(2).acquire,
        LinkSync::Transfer {
            semaphore: 104,
            states: BufferAccess::from_bits(0)..BufferAccess::from_bits(0),
            stages: PipelineStage::from_bits(PipelineStage::COMPUTE_SHADER)
                ..PipelineStage::from_bits(PipelineStage::HOST),
            other: queue(0, 1),
        }
    );
    assert!(matches!(last.link(2).release, LinkSync::Transfer { semaphore: 5, .. }));
    assert!(matches!(last.link(0).acquire, LinkSync::Transfer { semaphore: 105, .. }));
}

#[test]
fn default_graph_is_empty() {
    let chains: GraphChains<BufferAccess, BufferUsage, (), u32, u32> = GraphChains::default();
    assert!(chains.chains.is_empty());
    assert!(!chains.has_chain(ChainId::new(0)));
}

#[test]
fn graph_without_chains_is_empty() {
    let passes = ring();
    let chains: GraphChains<BufferAccess, BufferUsage, (), u32, u32> =
        GraphChains::new(0, (), BufferUsage::from_bits(0), &passes, || (0, 0));
    assert!(chains.chains.is_empty());
    assert!(!chains.has_chain(ChainId::new(0)));
}

#[test]
fn chains_can_be_changed_in_place() {
    let (mut chains, _) = graph();
    chains.chain_mut(ChainId::new(0)).usage = BufferUsage::from_bits(BufferUsage::ALL);
    assert_eq!(chains.chain(ChainId::new(0)).usage, BufferUsage::from_bits(0x1ff));
    let chain: &mut BufferChain<u32, u32> = chains.chain_mut(ChainId::new(2));
    chain.link_mut(1).merged_stages = PipelineStage::from_bits(PipelineStage::HOST);
    assert_eq!(chain.link(1).merged_stages, PipelineStage::from_bits(0x4000));
    chain.first_mut().stages = PipelineStage::from_bits(0x1);
    chain.last_mut().stages = PipelineStage::from_bits(0x2);
    assert_eq!(chain.link(0).stages, PipelineStage::from_bits(0x1));
    assert_eq!(chain.link(2).stages, PipelineStage::from_bits(0x2));
    assert!(chain.prev_mut(0).is_none());
    assert!(chain.next_mut(2).is_none());
    chain.prev_mut(2).unwrap().stages = PipelineStage::from_bits(0x4);
    chain.next_mut(0).unwrap().merged_state = BufferAccess::from_bits(0x8);
    assert_eq!(chain.link(1).stages, PipelineStage::from_bits(0x4));
    assert_eq!(chain.link(1).merged_state, BufferAccess::from_bits(0x8));
    assert_eq!(chain.first().stages, PipelineStage::from_bits(0x1));
    assert_eq!(chain.last().stages, PipelineStage::from_bits(0x2));
    assert_eq!(chain.prev(3).unwrap().stages, PipelineStage::from_bits(0x2));
}

#[test]
fn decisions_tell_their_semaphore_and_barrier() {
    let this = queue(0, 0);
    let states = BufferAccess::from_bits(0x40)..BufferAccess::from_bits(0x20);
    let stages = PipelineStage::from_bits(0x800)..PipelineStage::from_bits(0x8);
    let nothing: LinkSync<BufferAccess, u32, Release> = LinkSync::Noop(Release);
    assert!(nothing.is_none());
    assert_eq!(nothing.semaphore(), None);
    assert_eq!(nothing.signal(), None);
    assert_eq!(nothing.barrier(this), None);
    let barrier: LinkSync<BufferAccess, u32, Release> =
        LinkSync::Barrier { states: states.clone(), stages: stages.clone() };
    assert!(!barrier.is_none());
    assert_eq!(barrier.semaphore(), None);
    assert_eq!(
        barrier.barrier(this),
        Some(BarrierRanges {
            states: states.clone(),
            stages: stages.clone(),
            families: QueueFamilyId(0)..QueueFamilyId(0),
        })
    );
    let semaphore: LinkSync<BufferAccess, u32, Acquire> = LinkSync::Semaphore { semaphore: 5 };
    assert_eq!(semaphore.wait(), Some(&5));
    assert_eq!(semaphore.barrier(this), None);
    let both: LinkSync<BufferAccess, u32, Release> =
        LinkSync::BarrierSemaphore { semaphore: 6, states: states.clone(), stages: stages.clone() };
    assert_eq!(both.signal(), Some(&6));
    assert_eq!(
        both.barrier(this),
        Some(BarrierRanges {
            states: states.clone(),
            stages: stages.clone(),
            families: QueueFamilyId(0)..QueueFamilyId(0),
        })
    );
    let transfer: LinkSync<BufferAccess, u32, Acquire> = LinkSync::Transfer {
        semaphore: 7,
        states: states.clone(),
        stages: stages.clone(),
        other: queue(0, 3),
    };
    assert_eq!(transfer.wait(), Some(&7));
    assert_eq!(
        transfer.barrier(this),
        Some(BarrierRanges { states, stages, families: QueueFamilyId(0)..QueueFamilyId(0) })
    );
    assert_eq!(transfer.clone(), transfer);
}

#[test]
fn sides_order_the_families() {
    let this = QueueFamilyId(1);
    let other = QueueFamilyId(2);
    assert_eq!(Acquire::src_dst(this, other), (other, this));
    assert_eq!(Release::src_dst(this, other), (this, other));
}

#[test]
fn queue_identifiers() {
    let q = QueueId::new(QueueFamilyId(3), 4);
    assert_eq!(q.family(), QueueFamilyId(3));
    assert_eq!(q.index(), 4);
    assert!(q.same(queue(3, 4)));
    assert!(!q.same(queue(3, 5)));
    assert!(!q.same(queue(2, 4)));
    assert!(q.same_family(queue(3, 0)));
    assert!(!q.same_family(queue(4, 4)));
    let id: ChainId<BufferAccess> = ChainId::new(11);
    assert_eq!(id.index(), 11);
    assert!(id == ChainId::new(11));
    assert!(id != ChainId::new(12));
}

#[test]
fn chains_are_found_by_index() {
    let (chains, _) = graph();
    assert_eq!(chains[ChainId::new(0)].links.len(), 3);
    assert_eq!(chains[ChainId::new(2)].usage, BufferUsage::from_bits(0x22));
    let passes = ring();
    assert!(GraphChains::<BufferAccess, BufferUsage, (), u32, u32>::can_build(3, &passes));
}
