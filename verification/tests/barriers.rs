use render_graph::access::{
    BufferAccess, ImageAccess, ImageLayout, Permission, STAGE_COMPUTE_SHADER, STAGE_NONE,
    STAGE_TRANSFER, STAGE_VERTEX_SHADER,
};
use render_graph::barrier::{merge_barriers, naive_barriers, Barrier, PipelineBarrier, Qualifier};
use render_graph::hazard::HazardTables;

#[test]
fn hazard_table_tracks_last_access() {
    let mut tables = HazardTables::new();
    assert_eq!(tables.buffer_src(7), BufferAccess::Untouched);
    tables.record_buffer(7, BufferAccess::ComputeShaderWriteOnly);
    assert_eq!(tables.buffer_src(7), BufferAccess::ComputeShaderWriteOnly);
    tables.record_buffer(7, BufferAccess::TransferRead);
    tables.record_buffer(9, BufferAccess::HostTransferWrite);
    assert_eq!(tables.buffer_src(7), BufferAccess::TransferRead);
    assert_eq!(tables.buffer_src(9), BufferAccess::HostTransferWrite);
    assert_eq!(tables.image_src(7), ImageAccess::Untouched);
    tables.record_image(7, ImageAccess::ColorAttachment);
    assert_eq!(tables.image_src(7), ImageAccess::ColorAttachment);
}

#[test]
fn first_image_use_transitions_from_undefined() {
    // An image touched for the first time as a color attachment: the barrier
    // derives from "nothing" — empty source stage, Undefined -> AttachmentOptimal.
    let mut tables = HazardTables::new();
    let qualifiers = vec![Qualifier::Image(3, ImageAccess::ColorAttachment, 1)];
    let sizes = vec![0];
    let naive = naive_barriers(&mut tables, &qualifiers, &sizes);
    assert_eq!(naive.len(), 1);
    assert_eq!(naive[0].src_stage, STAGE_NONE);
    assert_eq!(naive[0].dst_stage, render_graph::access::STAGE_COLOR_ATTACHMENT_OUTPUT);
    assert_eq!(
        naive[0].barriers,
        vec![Barrier::Image {
            image: 0,
            old_layout: ImageLayout::Undefined,
            new_layout: ImageLayout::AttachmentOptimal,
            src_access: Permission::NoAccess,
            dst_access: Permission::ReadWrite,
            image_aspect: 1,
        }]
    );
}

#[test]
fn intra_task_reuse_orders_against_itself() {
    // One task reading then writing the same buffer: the second barrier's
    // source is the first qualifier's access, not "untouched".
    let mut tables = HazardTables::new();
    let qualifiers = vec![
        Qualifier::Buffer(5, BufferAccess::ComputeShaderReadOnly),
        Qualifier::Buffer(5, BufferAccess::ComputeShaderWriteOnly),
    ];
    let sizes = vec![64, 64];
    let naive = naive_barriers(&mut tables, &qualifiers, &sizes);
    assert_eq!(naive.len(), 2);
    assert_eq!(naive[0].src_stage, STAGE_NONE);
    assert_eq!(naive[1].src_stage, STAGE_COMPUTE_SHADER);
    assert_eq!(
        naive[1].barriers,
        vec![Barrier::Buffer {
            buffer: 1,
            offset: 0,
            size: 64,
            src_access: Permission::Read,
            dst_access: Permission::Write,
        }]
    );
    assert_eq!(tables.buffer_src(5), BufferAccess::ComputeShaderWriteOnly);
}

fn naive(src_stage: u32, dst_stage: u32, buffer: usize) -> PipelineBarrier {
    PipelineBarrier {
        src_stage,
        dst_stage,
        barriers: vec![Barrier::Buffer {
            buffer,
            offset: 0,
            size: 16,
            src_access: Permission::Read,
            dst_access: Permission::Write,
        }],
    }
}

#[test]
fn batching_merges_identical_pairs_only() {
    // Two barriers with the same (src, dst) pair always share a batch; two
    // with differing pairs never do; the batch count equals the number of
    // distinct pairs, not the number of barriers.
    let input = vec![
        naive(STAGE_COMPUTE_SHADER, STAGE_COMPUTE_SHADER, 0),
        naive(STAGE_TRANSFER, STAGE_COMPUTE_SHADER, 1),
        naive(STAGE_COMPUTE_SHADER, STAGE_COMPUTE_SHADER, 2),
        naive(STAGE_VERTEX_SHADER, STAGE_TRANSFER, 3),
        naive(STAGE_COMPUTE_SHADER, STAGE_COMPUTE_SHADER, 4),
        naive(STAGE_TRANSFER, STAGE_COMPUTE_SHADER, 5),
    ];
    let merged = merge_barriers(input);
    assert_eq!(merged.len(), 3);

    let compute = merged
        .iter()
        .find(|b| b.src_stage == STAGE_COMPUTE_SHADER && b.dst_stage == STAGE_COMPUTE_SHADER)
        .unwrap();
    let indices: Vec<usize> = compute
        .barriers
        .iter()
        .map(|b| match b {
            Barrier::Buffer { buffer, .. } => *buffer,
            Barrier::Image { image, .. } => *image,
        })
        .collect();
    // merged in original order
    assert_eq!(indices, vec![0, 2, 4]);

    let transfer = merged
        .iter()
        .find(|b| b.src_stage == STAGE_TRANSFER && b.dst_stage == STAGE_COMPUTE_SHADER)
        .unwrap();
    assert_eq!(transfer.barriers.len(), 2);

    let vertex = merged
        .iter()
        .find(|b| b.src_stage == STAGE_VERTEX_SHADER && b.dst_stage == STAGE_TRANSFER)
        .unwrap();
    assert_eq!(vertex.barriers.len(), 1);
}

#[test]
fn batching_keeps_distinct_pairs_apart() {
    let input = vec![
        naive(STAGE_COMPUTE_SHADER, STAGE_TRANSFER, 0),
        naive(STAGE_TRANSFER, STAGE_COMPUTE_SHADER, 1),
    ];
    let merged = merge_barriers(input);
    assert_eq!(merged.len(), 2);
    assert_eq!(merged[0].barriers.len(), 1);
    assert_eq!(merged[1].barriers.len(), 1);
}
