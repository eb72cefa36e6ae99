use gfx_chain::access::{is_read_only, Access};
use gfx_chain::{
    Acquire, BufferAccess, BufferUsage, Chain, ChainId, ChainLink, ImageAccess, ImageLayout,
    ImageState, ImageUsage, Link, LinkSync, PassLinks, PipelineStage, QueueFamilyId, QueueId,
    Release, State, Usage,
};

/// A small generator of numbers, the same on every run.
struct Numbers(u64);

impl Numbers {
    fn next(&mut self, below: u64) -> u64 {
        self.0 = self.0.wrapping_mul(6364136223846793005).wrapping_add(1442695040888963407);
        (self.0 >> 33) % below
    }
}

/// Goes round the ring step by step, as a reader of the rules would: collect
/// the links, merge neighbours in two rounds, then decide each transition.
fn step_by_step<T, U>(
    id: usize,
    usage: U,
    passes: &[PassLinks<T, U>],
) -> Option<(U, Vec<Option<ChainLink<T, u32, u32>>>)>
where
    T: State + PartialEq,
    U: Usage,
{
    let mut allocated = 0u32;
    let mut usage = usage;
    let mut links: Vec<Option<ChainLink<T, u32, u32>>> = Vec::new();
    for pass in passes {
        let found = pass.links.iter().find(|link| link.id.index() == id);
        links.push(found.map(|link| {
            usage = usage.union(link.usage);
            ChainLink {
                queue: pass.queue,
                stages: link.stages,
                state: link.state,
                merged_state: link.state,
                merged_stages: link.stages,
                acquire: LinkSync::Noop(Acquire),
                release: LinkSync::Noop(Release),
            }
        }));
    }
    let count = links.len();
    let next_of = |links: &Vec<Option<ChainLink<T, u32, u32>>>, index: usize| {
        (1..count).map(|step| (index + step) % count).find(|&other| links[other].is_some())
    };
    for turn in 0..count * 2 {
        let index = turn % count;
        let (queue, state, stages) = match &links[index] {
            Some(link) => (link.queue, link.state, link.stages),
            None => continue,
        };
        let next = match next_of(&links, index) {
            Some(next) => next,
            None => break,
        };
        let (next_queue, next_state, next_stages) = {
            let link = links[next].as_ref().unwrap();
            (link.queue, link.state, link.stages)
        };
        if let Some(merged) = state.merge(next_state) {
            if queue == next_queue {
                for position in [index, next] {
                    let link = links[position].as_mut().unwrap();
                    link.merged_state = merged;
                    link.merged_stages = stages.union(next_stages);
                }
            }
        }
    }
    for index in 0..count {
        let link = match &links[index] {
            Some(link) => link.clone(),
            None => continue,
        };
        let next_index = match next_of(&links, index) {
            Some(next) => next,
            None => break,
        };
        let next = links[next_index].clone().unwrap();
        let start = if is_read_only(next.state.access()) {
            link.merged_state
        } else {
            link.merged_state.discard_content()
        };
        let mut states = start..next.merged_state;
        let stages = link.merged_stages..next.merged_stages;
        let mergeable = link.state.merge(next.state).is_some();
        let (release, acquire) = if mergeable && link.queue == next.queue {
            (None, None)
        } else if link.queue == next.queue {
            (Some(LinkSync::Barrier { states, stages }), None)
        } else {
            allocated += 1;
            let (signal, wait) = (allocated, allocated + 1000);
            states = states.start.with_no_access()..states.end.with_no_access();
            if link.queue.family == next.queue.family {
                if states.start == states.end {
                    (
                        Some(LinkSync::Semaphore { semaphore: signal }),
                        Some(LinkSync::Semaphore { semaphore: wait }),
                    )
                } else {
                    (
                        Some(LinkSync::BarrierSemaphore { semaphore: signal, states, stages }),
                        Some(LinkSync::Semaphore { semaphore: wait }),
                    )
                }
            } else {
                (
                    Some(LinkSync::Transfer {
                        semaphore: signal,
                        states: states.clone(),
                        stages: stages.clone(),
                        other: next.queue,
                    }),
                    Some(LinkSync::Transfer { semaphore: wait, states, stages, other: link.queue }),
                )
            }
        };
        if let Some(release) = release {
            assert!(links[index].as_ref().unwrap().release.is_none());
            links[index].as_mut().unwrap().release = release;
        }
        if let Some(acquire) = acquire {
            assert!(links[next_index].as_ref().unwrap().acquire.is_none());
            links[next_index].as_mut().unwrap().acquire = acquire;
        }
    }
    if links.iter().all(Option::is_none) {
        None
    } else {
        Some((usage, links))
    }
}

fn compare<T, U>(id: usize, usage: U, passes: &[PassLinks<T, U>])
where
    T: State + PartialEq + std::fmt::Debug,
    U: Usage + PartialEq + std::fmt::Debug,
{
    if !Chain::<T, U, (), u32, u32>::can_build(ChainId::new(id), passes) {
        return;
    }
    let mut allocated = 0u32;
    let chain: Option<Chain<T, U, (), u32, u32>> =
        Chain::build(ChainId::new(id), usage, (), passes, || {
            allocated += 1;
            (allocated, allocated + 1000)
        });
    match (chain, step_by_step(id, usage, passes)) {
        (None, None) => {}
        (Some(chain), Some((usage, links))) => {
            assert_eq!(chain.usage, usage);
            assert_eq!(chain.links, links);
        }
        (chain, expected) => panic!("{:?} is not {:?}", chain.map(|c| c.links), expected),
    }
}

fn some_queue(numbers: &mut Numbers) -> QueueId {
    QueueId::new(QueueFamilyId(numbers.next(2) as usize), numbers.next(2) as usize)
}

#[test]
fn buffer_chains_are_what_the_traversal_gives() {
    let accesses = [0x20u32, 0x800, 0x2000, 0x8, 0x40, 0x1000, 0x4000, 0x820, 0x60, 0];
    let mut numbers = Numbers(1);
    for _ in 0..3000 {
        let count = numbers.next(7) as usize;
        let queues = 1 + numbers.next(3);
        let passes: Vec<PassLinks<BufferAccess, BufferUsage>> = (0..count)
            .map(|_| {
                let queue = if numbers.next(queues) == 0 {
                    QueueId::new(QueueFamilyId(0), 0)
                } else {
                    some_queue(&mut numbers)
                };
                let links = (0..numbers.next(3))
                    .map(|_| Link {
                        id: ChainId::new(numbers.next(2) as usize),
                        stages: PipelineStage::from_bits(1 << numbers.next(15)),
                        state: BufferAccess::from_bits(
                            accesses[numbers.next(accesses.len() as u64) as usize],
                        ),
                        usage: BufferUsage::from_bits(1 << numbers.next(9)),
                    })
                    .collect();
                PassLinks { queue, links }
            })
            .collect();
        compare(0, BufferUsage::from_bits(0), &passes);
        compare(1, BufferUsage::from_bits(BufferUsage::INDEX), &passes);
    }
}

#[test]
fn image_chains_are_what_the_traversal_gives() {
    let accesses = [0x20u32, 0x800, 0x80, 0x10, 0x40, 0x100, 0x1000, 0x820, 0x180, 0];
    let layouts = [
        ImageLayout::General,
        ImageLayout::ShaderReadOnlyOptimal,
        ImageLayout::DepthStencilReadOnlyOptimal,
        ImageLayout::ColorAttachmentOptimal,
        ImageLayout::TransferSrcOptimal,
        ImageLayout::Undefined,
        ImageLayout::Present,
    ];
    let mut numbers = Numbers(2);
    for _ in 0..3000 {
        let count = numbers.next(7) as usize;
        let queues = 1 + numbers.next(3);
        let passes: Vec<PassLinks<ImageState, ImageUsage>> = (0..count)
            .map(|_| {
                let queue = if numbers.next(queues) == 0 {
                    QueueId::new(QueueFamilyId(0), 0)
                } else {
                    some_queue(&mut numbers)
                };
                let links = (0..numbers.next(3))
                    .map(|_| Link {
                        id: ChainId::new(numbers.next(2) as usize),
                        stages: PipelineStage::from_bits(1 << numbers.next(15)),
                        state: ImageState(
                            ImageAccess::from_bits(
                                accesses[numbers.next(accesses.len() as u64) as usize],
                            ),
                            layouts[numbers.next(layouts.len() as u64) as usize],
                        ),
                        usage: ImageUsage::from_bits(1 << numbers.next(8)),
                    })
                    .collect();
                PassLinks { queue, links }
            })
            .collect();
        compare(0, ImageUsage::from_bits(0), &passes);
        compare(1, ImageUsage::from_bits(ImageUsage::SAMPLED), &passes);
    }
}
