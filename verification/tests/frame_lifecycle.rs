use render_graph::access::{BufferAccess, ImageAccess, Permission, STAGE_COMPUTE_SHADER};
use render_graph::barrier::Barrier;
use render_graph::graph::{
    Error, FramePhase, Present, RenderGraph, RenderGraphBuilder, RenderGraphInfo, Resource, Submit,
    Task, MAX_FRAMES_IN_FLIGHT,
};

fn slot_handles() -> (Option<Vec<u64>>, Option<Vec<u64>>) {
    let command_buffers: Vec<u64> = (100..100 + MAX_FRAMES_IN_FLIGHT as u64).collect();
    let fences: Vec<u64> = (200..200 + MAX_FRAMES_IN_FLIGHT as u64).collect();
    (Some(command_buffers), Some(fences))
}

fn empty_graph() -> RenderGraph {
    let builder = RenderGraphBuilder::new(&RenderGraphInfo { swapchain: 4, debug_name: "g" });
    let (cb, f) = slot_handles();
    builder.complete(cb, f, 1_000).unwrap()
}

#[test]
fn builder_defaults() {
    let info = RenderGraphInfo::default();
    assert_eq!(info.swapchain, u32::MAX);
    assert_eq!(info.debug_name, "RenderGraphBuilder");
}

#[test]
fn resolve_pairs_handle_with_declared_access() {
    let r = Resource::Buffer(BufferAccess::TransferWrite);
    match r.resolve(12) {
        render_graph::barrier::Qualifier::Buffer(h, a) => {
            assert_eq!(h, 12);
            assert_eq!(a, BufferAccess::TransferWrite);
        }
        _ => panic!("expected a buffer qualifier"),
    }
    let r = Resource::Image(ImageAccess::ColorAttachment, 1);
    match r.resolve(3) {
        render_graph::barrier::Qualifier::Image(h, a, aspect) => {
            assert_eq!(h, 3);
            assert_eq!(a, ImageAccess::ColorAttachment);
            assert_eq!(aspect, 1);
        }
        _ => panic!("expected an image qualifier"),
    }
}

#[test]
fn complete_fails_without_fences() {
    // The device cannot allocate the fences: Creation, and no partial graph.
    let builder = RenderGraphBuilder::new(&RenderGraphInfo::default());
    let (cb, _) = slot_handles();
    let r = builder.complete(cb, None, 0);
    assert_eq!(r.err(), Some(Error::Creation));
}

#[test]
fn complete_fails_without_command_buffers() {
    let builder = RenderGraphBuilder::new(&RenderGraphInfo::default());
    let (_, f) = slot_handles();
    let r = builder.complete(None, f, 0);
    assert_eq!(r.err(), Some(Error::Creation));
}

#[test]
fn complete_fails_on_short_fence_allocation() {
    let builder = RenderGraphBuilder::new(&RenderGraphInfo::default());
    let (cb, _) = slot_handles();
    let r = builder.complete(cb, Some(vec![200]), 0);
    assert_eq!(r.err(), Some(Error::Creation));
}

#[test]
fn unsignaled_fence_drops_frame_without_mutation() {
    // Backpressure: when the slot's fence is not signaled, render performs
    // zero mutations — clock, slot index, tables and phase all unchanged.
    let mut graph = empty_graph();
    let frame_before = graph.current_frame;
    let time_before = graph.frame_time();
    let proceed = graph.begin_frame(false, 5_000);
    assert!(!proceed);
    assert_eq!(graph.current_frame, frame_before);
    assert_eq!(graph.frame_time(), time_before);
    assert_eq!(graph.phase, FramePhase::Idle);
    assert_eq!(graph.tables.image_src(0), ImageAccess::Untouched);
}

#[test]
fn frame_time_tracks_clock_deltas() {
    let mut graph = empty_graph();
    assert_eq!(graph.frame_time(), 0);
    assert!(graph.begin_frame(true, 1_016));
    let a = graph.finish_frame(None, None);
    assert!(a.submit.is_none());
    assert_eq!(graph.frame_time(), 16);
    assert!(graph.begin_frame(true, 1_049));
    assert_eq!(graph.frame_time(), 33);
}

#[test]
fn rotation_is_a_modulo_cycle() {
    // After MAX_FRAMES_IN_FLIGHT successful frames the slot index is back
    // where it started, having visited every slot in between.
    let mut graph = empty_graph();
    let start = graph.current_frame;
    let mut seen = Vec::new();
    for i in 0..MAX_FRAMES_IN_FLIGHT as u64 {
        assert!(graph.begin_frame(true, 2_000 + i));
        graph.finish_frame(None, None);
        seen.push(graph.current_frame);
    }
    assert_eq!(graph.current_frame, start);
    for slot in 0..MAX_FRAMES_IN_FLIGHT {
        assert!(seen.contains(&slot));
    }
}

#[test]
fn submit_and_present_are_optional_and_independent() {
    let mut graph = empty_graph();

    // No requests: nothing reaches the queue, nothing is presented.
    assert!(graph.begin_frame(true, 2_000));
    let actions = graph.finish_frame(None, None);
    assert!(actions.submit.is_none());
    assert!(actions.present.is_none());

    // Submit without present: the queue is used, present is not.
    assert!(graph.begin_frame(true, 3_000));
    let slot = graph.current_frame;
    let actions = graph.finish_frame(
        Some(Submit { wait_semaphore: Some(8), signal_semaphore: None }),
        None,
    );
    let submit = actions.submit.unwrap();
    assert_eq!(submit.wait_semaphore, Some(8));
    assert_eq!(submit.signal_semaphore, None);
    assert_eq!(submit.command_buffer, 100 + slot as u64);
    assert_eq!(submit.fence, 200 + slot as u64);
    assert!(actions.present.is_none());

    // Present rides on its own request and waits on its own semaphore.
    assert!(graph.begin_frame(true, 4_000));
    let actions = graph.finish_frame(
        Some(Submit { wait_semaphore: None, signal_semaphore: Some(9) }),
        Some(Present { wait_semaphore: 9 }),
    );
    assert!(actions.submit.is_some());
    let present = actions.present.unwrap();
    assert_eq!(present.wait_semaphore, 9);
    assert_eq!(present.swapchain, 4);
}

#[test]
fn write_then_read_yields_one_compute_batch() {
    // Two tasks: A writes buffer X from a compute shader, B reads it from a
    // compute shader. B's frame sees exactly one merged batch with
    // src = dst = COMPUTE_SHADER carrying the write -> read transition.
    let mut builder = RenderGraphBuilder::new(&RenderGraphInfo { swapchain: 0, debug_name: "t" });
    builder.add(Task { resources: vec![Resource::Buffer(BufferAccess::ComputeShaderWriteOnly)] });
    builder.add(Task { resources: vec![Resource::Buffer(BufferAccess::ComputeShaderReadOnly)] });
    let (cb, f) = slot_handles();
    let mut graph = builder.complete(cb, f, 0).unwrap();

    assert!(graph.begin_frame(true, 10));
    let x = 42;

    let decl_a = Resource::Buffer(BufferAccess::ComputeShaderWriteOnly);
    let batches_a = graph.run_task(&vec![decl_a.resolve(x)], &vec![256]);
    assert_eq!(batches_a.len(), 1);

    let decl_b = Resource::Buffer(BufferAccess::ComputeShaderReadOnly);
    let batches_b = graph.run_task(&vec![decl_b.resolve(x)], &vec![256]);
    assert_eq!(batches_b.len(), 1);
    assert_eq!(batches_b[0].src_stage, STAGE_COMPUTE_SHADER);
    assert_eq!(batches_b[0].dst_stage, STAGE_COMPUTE_SHADER);
    assert_eq!(
        batches_b[0].barriers,
        vec![Barrier::Buffer {
            buffer: 0,
            offset: 0,
            size: 256,
            src_access: Permission::Write,
            dst_access: Permission::Read,
        }]
    );

    let actions = graph.finish_frame(None, None);
    assert!(actions.submit.is_none() && actions.present.is_none());
}

#[test]
fn image_handoff_across_tasks() {
    // Task A writes image Y via transfer, task B samples it: B's barrier
    // waits on the transfer stage and moves Y from the transfer-destination
    // layout to the read-only layout.
    let mut builder = RenderGraphBuilder::new(&RenderGraphInfo { swapchain: 0, debug_name: "t" });
    builder.add(Task { resources: vec![Resource::Image(ImageAccess::TransferWrite, 1)] });
    builder.add(Task { resources: vec![Resource::Image(ImageAccess::ShaderReadOnly, 1)] });
    let (cb, f) = slot_handles();
    let mut graph = builder.complete(cb, f, 0).unwrap();

    assert!(graph.begin_frame(true, 10));
    let y = 6;
    let write = Resource::Image(ImageAccess::TransferWrite, 1);
    let read = Resource::Image(ImageAccess::ShaderReadOnly, 1);
    graph.run_task(&vec![write.resolve(y)], &vec![0]);
    let batches = graph.run_task(&vec![read.resolve(y)], &vec![0]);
    assert_eq!(batches.len(), 1);
    assert_eq!(batches[0].src_stage, render_graph::access::STAGE_TRANSFER);
    assert_eq!(
        batches[0].barriers,
        vec![Barrier::Image {
            image: 0,
            old_layout: render_graph::access::ImageLayout::TransferDstOptimal,
            new_layout: render_graph::access::ImageLayout::ReadOnlyOptimal,
            src_access: Permission::Write,
            dst_access: Permission::Read,
            image_aspect: 1,
        }]
    );
    graph.finish_frame(None, None);
}

#[test]
fn abort_leaves_slot_unrotated() {
    let mut builder = RenderGraphBuilder::new(&RenderGraphInfo { swapchain: 0, debug_name: "t" });
    builder.add(Task { resources: vec![] });
    let (cb, f) = slot_handles();
    let mut graph = builder.complete(cb, f, 0).unwrap();
    let start = graph.current_frame;
    assert!(graph.begin_frame(true, 10));
    graph.abort_frame();
    assert_eq!(graph.phase, FramePhase::Idle);
    assert_eq!(graph.current_frame, start);
}

#[test]
fn mixed_task_splits_batches_by_stage_pair() {
    // One task touching a buffer and an image for the first time: both
    // barriers leave the empty source stage but request different
    // destination stages, so they land in two separate batches.
    let mut builder = RenderGraphBuilder::new(&RenderGraphInfo { swapchain: 0, debug_name: "t" });
    builder.add(Task {
        resources: vec![
            Resource::Buffer(BufferAccess::TransferWrite),
            Resource::Image(ImageAccess::ColorAttachment, 1),
        ],
    });
    let (cb, f) = slot_handles();
    let mut graph = builder.complete(cb, f, 0).unwrap();

    assert!(graph.begin_frame(true, 10));
    let qualifiers = vec![
        Resource::Buffer(BufferAccess::TransferWrite).resolve(1),
        Resource::Image(ImageAccess::ColorAttachment, 1).resolve(2),
    ];
    let batches = graph.run_task(&qualifiers, &vec![32, 0]);
    assert_eq!(batches.len(), 2);
    for batch in &batches {
        assert_eq!(batch.src_stage, render_graph::access::STAGE_NONE);
        assert_eq!(batch.barriers.len(), 1);
    }
    assert_ne!(batches[0].dst_stage, batches[1].dst_stage);
}

#[test]
fn recording_resumes_after_an_aborted_frame() {
    let mut builder = RenderGraphBuilder::new(&RenderGraphInfo { swapchain: 0, debug_name: "t" });
    builder.add(Task { resources: vec![Resource::Buffer(BufferAccess::TransferWrite)] });
    let (cb, f) = slot_handles();
    let mut graph = builder.complete(cb, f, 0).unwrap();

    assert!(graph.begin_frame(true, 10));
    graph.abort_frame();

    // The slot was not rotated, and a new frame starts from clean tables.
    assert!(graph.begin_frame(true, 20));
    let decl = Resource::Buffer(BufferAccess::TransferWrite);
    let batches = graph.run_task(&vec![decl.resolve(1)], &vec![8]);
    assert_eq!(batches[0].src_stage, render_graph::access::STAGE_NONE);
    let actions = graph.finish_frame(None, None);
    assert!(actions.submit.is_none());
}

#[test]
fn fresh_frame_starts_hazard_tracking_over() {
    // Hazards never span frames: the tables are rebuilt at frame start, so a
    // resource touched last frame derives from Untouched again.
    let mut builder = RenderGraphBuilder::new(&RenderGraphInfo { swapchain: 0, debug_name: "t" });
    builder.add(Task { resources: vec![Resource::Buffer(BufferAccess::TransferWrite)] });
    let (cb, f) = slot_handles();
    let mut graph = builder.complete(cb, f, 0).unwrap();

    assert!(graph.begin_frame(true, 10));
    let decl = Resource::Buffer(BufferAccess::TransferWrite);
    graph.run_task(&vec![decl.resolve(1)], &vec![8]);
    graph.finish_frame(None, None);

    assert!(graph.begin_frame(true, 20));
    let batches = graph.run_task(&vec![decl.resolve(1)], &vec![8]);
    assert_eq!(batches.len(), 1);
    assert_eq!(batches[0].src_stage, render_graph::access::STAGE_NONE);
}
