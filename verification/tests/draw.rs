use myth_render::graph::passes::draw::{submit_draw_commands, DrawCommand, IndexFormat, IndexedDraw, PassOp};

fn cmd(pipeline: u64, bg1: Option<u64>, stencil: Option<u32>, vbs: Vec<u64>, index: Option<u64>) -> DrawCommand {
    DrawCommand {
        pipeline,
        bind_group_1: bg1,
        bind_group_2: 50,
        bind_group_2_offset: 256,
        bind_group_3: None,
        stencil_reference: stencil,
        vertex_buffers: vbs,
        index_buffer: index.map(|b| IndexedDraw { buffer: b, format: IndexFormat::Uint32, count: 36 }),
        vertex_start: 0,
        vertex_end: 3,
        instance_start: 0,
        instance_end: 1,
    }
}

#[test]
fn empty_batch_issues_nothing() {
    assert!(submit_draw_commands(&[]).is_empty());
}

#[test]
fn single_command_binds_everything_it_names() {
    let ops = submit_draw_commands(&[cmd(1, Some(2), Some(7), vec![10, 11], Some(20))]);
    assert_eq!(
        ops,
        vec![
            PassOp::SetPipeline(1),
            PassOp::SetBindGroup { group: 1, bind_group: 2, dynamic_offset: None },
            PassOp::SetBindGroup { group: 2, bind_group: 50, dynamic_offset: Some(256) },
            PassOp::SetStencilReference(7),
            PassOp::SetVertexBuffer { slot: 0, buffer: 10 },
            PassOp::SetVertexBuffer { slot: 1, buffer: 11 },
            PassOp::SetIndexBuffer { buffer: 20, format: IndexFormat::Uint32 },
            PassOp::DrawIndexed { index_count: 36, instance_start: 0, instance_end: 1 },
        ]
    );
}

#[test]
fn repeated_state_is_skipped_but_object_group_always_set() {
    let ops = submit_draw_commands(&[
        cmd(1, Some(2), None, vec![10], None),
        cmd(1, Some(2), None, vec![10], None),
    ]);
    assert_eq!(
        ops,
        vec![
            PassOp::SetPipeline(1),
            PassOp::SetBindGroup { group: 1, bind_group: 2, dynamic_offset: None },
            PassOp::SetBindGroup { group: 2, bind_group: 50, dynamic_offset: Some(256) },
            PassOp::SetVertexBuffer { slot: 0, buffer: 10 },
            PassOp::Draw { vertex_start: 0, vertex_end: 3, instance_start: 0, instance_end: 1 },
            PassOp::SetBindGroup { group: 2, bind_group: 50, dynamic_offset: Some(256) },
            PassOp::Draw { vertex_start: 0, vertex_end: 3, instance_start: 0, instance_end: 1 },
        ]
    );
}

#[test]
fn changed_state_is_rebound() {
    let ops = submit_draw_commands(&[
        cmd(1, Some(2), Some(3), vec![10], Some(20)),
        cmd(4, None, Some(3), vec![12], Some(20)),
    ]);
    let second: Vec<PassOp> = ops[7..].to_vec();
    assert_eq!(
        second,
        vec![
            PassOp::SetPipeline(4),
            PassOp::SetBindGroup { group: 2, bind_group: 50, dynamic_offset: Some(256) },
            PassOp::SetVertexBuffer { slot: 0, buffer: 12 },
            PassOp::DrawIndexed { index_count: 36, instance_start: 0, instance_end: 1 },
        ]
    );
}

#[test]
fn dropping_the_stencil_reference_forgets_it() {
    let ops = submit_draw_commands(&[
        cmd(1, None, Some(3), vec![], None),
        cmd(1, None, None, vec![], None),
        cmd(1, None, Some(3), vec![], None),
    ]);
    let stencil_sets = ops.iter().filter(|op| matches!(op, PassOp::SetStencilReference(_))).count();
    assert_eq!(stencil_sets, 2);
    let draws = ops.iter().filter(|op| matches!(op, PassOp::Draw { .. })).count();
    assert_eq!(draws, 3);
}
