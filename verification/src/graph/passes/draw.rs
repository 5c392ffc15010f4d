//! Draw-command submission: the render-pass calls a batch of draw commands
//! turns into, skipping state that is already bound.
//!
//! GPU objects are named by identities (stable per object), so the pass
//! state tracked here is a set of identities. The calls are produced as
//! [`PassOp`]s, which the embedding layer performs on the real render pass.
use vstd::prelude::*;

verus! {

/// Number of vertex buffer slots a command can bind.
pub const MAX_VERTEX_BUFFERS: usize = 8;

/// Element type of an index buffer.
#[derive(Debug, Clone, Copy, PartialEq, Eq, Structural, Hash)]
pub enum IndexFormat {
    Uint16,
    Uint32,
}

/// An indexed draw: the index buffer, its format, and the indices drawn.
#[derive(Debug, Clone, Copy, PartialEq, Eq, Structural)]
pub struct IndexedDraw {
    pub buffer: u64,
    pub format: IndexFormat,
    pub count: u32,
}

/// One pre-baked draw.
pub struct DrawCommand {
    pub pipeline: u64,
    /// Material bind group (group 1), if the command has one.
    pub bind_group_1: Option<u64>,
    /// Object bind group (group 2) and its dynamic offset.
    pub bind_group_2: u64,
    pub bind_group_2_offset: u32,
    /// Screen bind group (group 3), if the command has one.
    pub bind_group_3: Option<u64>,
    pub stencil_reference: Option<u32>,
    /// Vertex buffers by slot.
    pub vertex_buffers: Vec<u64>,
    pub index_buffer: Option<IndexedDraw>,
    pub vertex_start: u32,
    pub vertex_end: u32,
    pub instance_start: u32,
    pub instance_end: u32,
}

/// A render-pass call.
#[derive(Debug, Clone, Copy, PartialEq, Eq, Structural)]
pub enum PassOp {
    SetPipeline(u64),
    SetBindGroup { group: u32, bind_group: u64, dynamic_offset: Option<u32> },
    SetStencilReference(u32),
    SetVertexBuffer { slot: u32, buffer: u64 },
    SetIndexBuffer { buffer: u64, format: IndexFormat },
    DrawIndexed { index_count: u32, instance_start: u32, instance_end: u32 },
    Draw { vertex_start: u32, vertex_end: u32, instance_start: u32, instance_end: u32 },
}

/// What the submission believes is bound (vertex slots are kept apart).
#[derive(Debug, Clone, Copy, PartialEq, Eq, Structural)]
pub struct DrawTracking {
    pub pipeline: Option<u64>,
    pub bind_group_1: Option<u64>,
    pub bind_group_3: Option<u64>,
    pub stencil: Option<u32>,
    pub index_buffer: Option<u64>,
}

/// Nothing is known to be bound at the start of a batch.
pub open spec fn initial_tracking() -> DrawTracking {
    DrawTracking { pipeline: None, bind_group_1: None, bind_group_3: None, stencil: None, index_buffer: None }
}

/// No vertex buffer is known to be bound at the start of a batch.
pub open spec fn initial_vertex_slots() -> Seq<Option<u64>> {
    Seq::new(MAX_VERTEX_BUFFERS as nat, |i: int| None::<u64>)
}

/// The vertex-buffer calls for `bufs` given the slots `cur`: a slot is set
/// when it holds another buffer.
pub open spec fn vertex_ops(cur: Seq<Option<u64>>, bufs: Seq<u64>) -> (Seq<PassOp>, Seq<Option<u64>>)
    decreases bufs.len(),
{
    if bufs.len() == 0 {
        (Seq::empty(), cur)
    } else {
        let (ops, c) = vertex_ops(cur, bufs.drop_last());
        let slot = bufs.len() - 1;
        let b = bufs.last();
        if c[slot] != Some(b) {
            (ops.push(PassOp::SetVertexBuffer { slot: slot as u32, buffer: b }), c.update(slot, Some(b)))
        } else {
            (ops, c)
        }
    }
}

/// The final draw call of a command.
pub open spec fn draw_op(c: DrawCommand) -> PassOp {
    match c.index_buffer {
        Some(ix) => PassOp::DrawIndexed {
            index_count: ix.count,
            instance_start: c.instance_start,
            instance_end: c.instance_end,
        },
        None => PassOp::Draw {
            vertex_start: c.vertex_start,
            vertex_end: c.vertex_end,
            instance_start: c.instance_start,
            instance_end: c.instance_end,
        },
    }
}

/// Binding the pipeline unless it is the tracked one.
pub open spec fn pipeline_stage(t: DrawTracking, c: DrawCommand) -> (Seq<PassOp>, DrawTracking) {
    if t.pipeline != Some(c.pipeline) {
        (seq![PassOp::SetPipeline(c.pipeline)], DrawTracking { pipeline: Some(c.pipeline), ..t })
    } else {
        (Seq::empty(), t)
    }
}

/// Binding the material group, when the command has one that is not the
/// tracked one.
pub open spec fn material_stage(t: DrawTracking, c: DrawCommand) -> (Seq<PassOp>, DrawTracking) {
    match c.bind_group_1 {
        Some(b) => if t.bind_group_1 != Some(b) {
            (
                seq![PassOp::SetBindGroup { group: 1, bind_group: b, dynamic_offset: None }],
                DrawTracking { bind_group_1: Some(b), ..t },
            )
        } else {
            (Seq::empty(), t)
        },
        None => (Seq::empty(), t),
    }
}

/// Binding the object group: always, as its dynamic offset varies.
pub open spec fn object_stage(c: DrawCommand) -> Seq<PassOp> {
    seq![
        PassOp::SetBindGroup {
            group: 2,
            bind_group: c.bind_group_2,
            dynamic_offset: Some(c.bind_group_2_offset),
        },
    ]
}

/// Binding the screen group, when the command has one that is not the
/// tracked one.
pub open spec fn screen_stage(t: DrawTracking, c: DrawCommand) -> (Seq<PassOp>, DrawTracking) {
    match c.bind_group_3 {
        Some(b) => if t.bind_group_3 != Some(b) {
            (
                seq![PassOp::SetBindGroup { group: 3, bind_group: b, dynamic_offset: None }],
                DrawTracking { bind_group_3: Some(b), ..t },
            )
        } else {
            (Seq::empty(), t)
        },
        None => (Seq::empty(), t),
    }
}

/// Setting the stencil reference when the command's differs from the
/// tracked one; a command without one forgets the tracked one.
pub open spec fn stencil_stage(t: DrawTracking, c: DrawCommand) -> (Seq<PassOp>, DrawTracking) {
    if c.stencil_reference != t.stencil {
        (
            match c.stencil_reference {
                Some(v) => seq![PassOp::SetStencilReference(v)],
                None => Seq::empty(),
            },
            DrawTracking { stencil: c.stencil_reference, ..t },
        )
    } else {
        (Seq::empty(), t)
    }
}

/// The calls before the vertex buffers.
pub open spec fn binding_ops(t: DrawTracking, c: DrawCommand) -> (Seq<PassOp>, DrawTracking) {
    let (o1, t1) = pipeline_stage(t, c);
    let (o2, t2) = material_stage(t1, c);
    let (o4, t4) = screen_stage(t2, c);
    let (o5, t5) = stencil_stage(t4, c);
    (o1 + o2 + object_stage(c) + o4 + o5, t5)
}

/// Binding the index buffer unless it is the tracked one, then the draw.
pub open spec fn draw_stage(t: DrawTracking, c: DrawCommand) -> (Seq<PassOp>, DrawTracking) {
    match c.index_buffer {
        Some(ix) => if t.index_buffer != Some(ix.buffer) {
            (
                seq![PassOp::SetIndexBuffer { buffer: ix.buffer, format: ix.format }, draw_op(c)],
                DrawTracking { index_buffer: Some(ix.buffer), ..t },
            )
        } else {
            (seq![draw_op(c)], t)
        },
        None => (seq![draw_op(c)], t),
    }
}

/// The calls for one command given what is tracked, and the tracking after
/// it.
pub open spec fn command_ops(t: DrawTracking, vb: Seq<Option<u64>>, c: DrawCommand) -> (
    Seq<PassOp>,
    DrawTracking,
    Seq<Option<u64>>,
) {
    let (a, ta) = binding_ops(t, c);
    let (v, vb2) = vertex_ops(vb, c.vertex_buffers@);
    let (d, td) = draw_stage(ta, c);
    (a + v + d, td, vb2)
}

/// The calls for a batch, with the tracking after it.
pub open spec fn batch_ops(cmds: Seq<DrawCommand>) -> (Seq<PassOp>, DrawTracking, Seq<Option<u64>>)
    decreases cmds.len(),
{
    if cmds.len() == 0 {
        (Seq::empty(), initial_tracking(), initial_vertex_slots())
    } else {
        let (ops, t, vb) = batch_ops(cmds.drop_last());
        let (o, t2, vb2) = command_ops(t, vb, cmds.last());
        (ops + o, t2, vb2)
    }
}

/// Every command binds at most `MAX_VERTEX_BUFFERS` vertex buffers.
pub open spec fn vertex_counts_ok(cmds: Seq<DrawCommand>) -> bool {
    forall|i: int| 0 <= i < cmds.len() ==> #[trigger] cmds[i].vertex_buffers@.len() <= MAX_VERTEX_BUFFERS
}

/// Turns `commands` into render-pass calls, skipping state already bound.
pub fn submit_draw_commands(commands: &[DrawCommand]) -> (r: Vec<PassOp>)
    requires
        vertex_counts_ok(commands@),
    ensures
        r@ == batch_ops(commands@).0,
{
    let mut ops: Vec<PassOp> = Vec::new();
    let mut t = DrawTracking {
        pipeline: None,
        bind_group_1: None,
        bind_group_3: None,
        stencil: None,
        index_buffer: None,
    };
    let mut vb: Vec<Option<u64>> = vec![None, None, None, None, None, None, None, None];
    assert(vb@ =~= initial_vertex_slots());
    let mut i: usize = 0;
    while i < commands.len()
        invariant
            i <= commands@.len(),
            vertex_counts_ok(commands@),
            batch_ops(commands@.take(i as int)) == (ops@, t, vb@),
            vb@.len() == MAX_VERTEX_BUFFERS,
        decreases commands@.len() - i,
    {
        let ghost before = (ops@, t, vb@);
        let c = &commands[i];
        let ghost step = command_ops(t, vb@, *c);
        submit_one(c, &mut ops, &mut t, &mut vb);
        proof {
            let p = commands@.take(i as int + 1);
            assert(p.drop_last() =~= commands@.take(i as int));
            assert(p.last() == commands@[i as int]);
        }
        i = i + 1;
    }
    assert(commands@.take(commands@.len() as int) =~= commands@);
    ops
}

/// Appends the calls of one command and advances the tracking.
fn submit_one(c: &DrawCommand, ops: &mut Vec<PassOp>, t: &mut DrawTracking, vb: &mut Vec<Option<u64>>)
    requires
        old(vb)@.len() == MAX_VERTEX_BUFFERS,
        c.vertex_buffers@.len() <= MAX_VERTEX_BUFFERS,
    ensures
        final(vb)@.len() == MAX_VERTEX_BUFFERS,
        ({
            let (o, t2, vb2) = command_ops(*old(t), old(vb)@, *c);
            &&& final(ops)@ == old(ops)@ + o
            &&& *final(t) == t2
            &&& final(vb)@ == vb2
        }),
{
    let ghost ops0 = ops@;
    let ghost t0 = *t;
    push_binding_ops(c, ops, t);
    let ghost ops1 = ops@;
    let ghost t1 = *t;
    push_vertex_ops(c, ops, vb);
    let ghost ops2 = ops@;
    push_draw_stage(c, ops, t);
    proof {
        let (a, ta) = binding_ops(t0, *c);
        let (v, vb2) = vertex_ops(old(vb)@, c.vertex_buffers@);
        let (d, td) = draw_stage(ta, *c);
        assert(ops@ =~= ops0 + (a + v + d));
    }
}

fn push_binding_ops(c: &DrawCommand, ops: &mut Vec<PassOp>, t: &mut DrawTracking)
    ensures
        final(ops)@ == old(ops)@ + binding_ops(*old(t), *c).0,
        *final(t) == binding_ops(*old(t), *c).1,
{
    let ghost ops0 = ops@;
    let ghost t0 = *t;
    if t.pipeline != Some(c.pipeline) {
        ops.push(PassOp::SetPipeline(c.pipeline));
        t.pipeline = Some(c.pipeline);
    }
    let ghost ops1 = ops@;
    let ghost t1 = *t;
    assert(ops1 =~= ops0 + pipeline_stage(t0, *c).0);
    if let Some(b) = c.bind_group_1 {
        if t.bind_group_1 != Some(b) {
            ops.push(PassOp::SetBindGroup { group: 1, bind_group: b, dynamic_offset: None });
            t.bind_group_1 = Some(b);
        }
    }
    let ghost ops2 = ops@;
    let ghost t2 = *t;
    assert(ops2 =~= ops1 + material_stage(t1, *c).0);
    ops.push(
        PassOp::SetBindGroup { group: 2, bind_group: c.bind_group_2, dynamic_offset: Some(c.bind_group_2_offset) },
    );
    let ghost ops3 = ops@;
    assert(ops3 =~= ops2 + object_stage(*c));
    if let Some(b) = c.bind_group_3 {
        if t.bind_group_3 != Some(b) {
            ops.push(PassOp::SetBindGroup { group: 3, bind_group: b, dynamic_offset: None });
            t.bind_group_3 = Some(b);
        }
    }
    let ghost ops4 = ops@;
    let ghost t4 = *t;
    assert(ops4 =~= ops3 + screen_stage(t2, *c).0);
    if c.stencil_reference != t.stencil {
        if let Some(v) = c.stencil_reference {
            ops.push(PassOp::SetStencilReference(v));
        }
        t.stencil = c.stencil_reference;
    }
    assert(ops@ =~= ops4 + stencil_stage(t4, *c).0);
    assert(ops@ =~= ops0 + binding_ops(t0, *c).0);
}

fn push_vertex_ops(c: &DrawCommand, ops: &mut Vec<PassOp>, vb: &mut Vec<Option<u64>>)
    requires
        old(vb)@.len() == MAX_VERTEX_BUFFERS,
        c.vertex_buffers@.len() <= MAX_VERTEX_BUFFERS,
    ensures
        final(vb)@.len() == MAX_VERTEX_BUFFERS,
        final(ops)@ == old(ops)@ + vertex_ops(old(vb)@, c.vertex_buffers@).0,
        final(vb)@ == vertex_ops(old(vb)@, c.vertex_buffers@).1,
{
    let ghost ops5 = ops@;
    let ghost vbs = vb@;
    let n = c.vertex_buffers.len();
    let mut slot: usize = 0;
    assert(ops@.skip(ops5.len() as int) =~= Seq::<PassOp>::empty());
    assert(c.vertex_buffers@.take(0) =~= Seq::<u64>::empty());
    while slot < n
        invariant
            slot <= n,
            n == c.vertex_buffers@.len(),
            n <= MAX_VERTEX_BUFFERS,
            vb@.len() == MAX_VERTEX_BUFFERS,
            vertex_ops(vbs, c.vertex_buffers@.take(slot as int)) == (ops@.skip(ops5.len() as int), vb@),
            ops@.len() >= ops5.len(),
            ops@.take(ops5.len() as int) == ops5,
        decreases n - slot,
    {
        let buf = c.vertex_buffers[slot];
        let ghost pre = c.vertex_buffers@.take(slot as int + 1);
        proof {
            assert(pre.drop_last() =~= c.vertex_buffers@.take(slot as int));
            assert(pre.last() == buf);
        }
        if vb[slot] != Some(buf) {
            let ghost o_before = ops@;
            ops.push(PassOp::SetVertexBuffer { slot: slot as u32, buffer: buf });
            vb.set(slot, Some(buf));
            proof {
                assert(ops@.skip(ops5.len() as int) =~= o_before.skip(ops5.len() as int).push(
                    PassOp::SetVertexBuffer { slot: slot as u32, buffer: buf },
                ));
                assert(ops@.take(ops5.len() as int) =~= o_before.take(ops5.len() as int));
            }
        }
        slot = slot + 1;
    }
    proof {
        assert(c.vertex_buffers@.take(n as int) =~= c.vertex_buffers@);
        assert(ops@ =~= ops5 + ops@.skip(ops5.len() as int));
    }
}

fn push_draw_stage(c: &DrawCommand, ops: &mut Vec<PassOp>, t: &mut DrawTracking)
    ensures
        final(ops)@ == old(ops)@ + draw_stage(*old(t), *c).0,
        *final(t) == draw_stage(*old(t), *c).1,
{
    let ghost ops0 = ops@;
    let ghost t0 = *t;
    if let Some(ix) = c.index_buffer {
        if t.index_buffer != Some(ix.buffer) {
            ops.push(PassOp::SetIndexBuffer { buffer: ix.buffer, format: ix.format });
            t.index_buffer = Some(ix.buffer);
        }
        ops.push(
            PassOp::DrawIndexed { index_count: ix.count, instance_start: c.instance_start, instance_end: c.instance_end },
        );
    } else {
        ops.push(
            PassOp::Draw {
                vertex_start: c.vertex_start,
                vertex_end: c.vertex_end,
                instance_start: c.instance_start,
                instance_end: c.instance_end,
            },
        );
    }
    assert(ops@ =~= ops0 + draw_stage(t0, *c).0);
}

/// What a render pass has bound (vertex slots are kept apart).
pub struct PassBindings {
    pub pipeline: Option<u64>,
    pub bind_group_1: Option<u64>,
    pub bind_group_2: Option<(u64, Option<u32>)>,
    pub bind_group_3: Option<u64>,
    pub stencil: Option<u32>,
    pub index_buffer: Option<(u64, IndexFormat)>,
}

/// A fresh render pass: nothing bound.
pub open spec fn initial_bindings() -> PassBindings {
    PassBindings {
        pipeline: None,
        bind_group_1: None,
        bind_group_2: None,
        bind_group_3: None,
        stencil: None,
        index_buffer: None,
    }
}

/// The bindings after a state-setting call.
pub open spec fn apply_op(b: PassBindings, op: PassOp) -> PassBindings {
    match op {
        PassOp::SetPipeline(p) => PassBindings { pipeline: Some(p), ..b },
        PassOp::SetBindGroup { group, bind_group, dynamic_offset } => if group == 1 {
            PassBindings { bind_group_1: Some(bind_group), ..b }
        } else if group == 2 {
            PassBindings { bind_group_2: Some((bind_group, dynamic_offset)), ..b }
        } else if group == 3 {
            PassBindings { bind_group_3: Some(bind_group), ..b }
        } else {
            b
        },
        PassOp::SetStencilReference(v) => PassBindings { stencil: Some(v), ..b },
        PassOp::SetIndexBuffer { buffer, format } => PassBindings { index_buffer: Some((buffer, format)), ..b },
        _ => b,
    }
}

/// The vertex slots after a call.
pub open spec fn apply_vertex(v: Seq<Option<u64>>, op: PassOp) -> Seq<Option<u64>> {
    match op {
        PassOp::SetVertexBuffer { slot, buffer } => if slot < v.len() {
            v.update(slot as int, Some(buffer))
        } else {
            v
        },
        _ => v,
    }
}

pub open spec fn is_draw(op: PassOp) -> bool {
    op is Draw || op is DrawIndexed
}

/// What one draw sees: the bindings, the vertex slots, and the draw call.
pub type DrawSnapshot = (PassBindings, Seq<Option<u64>>, PassOp);

/// Performing `ops` on a pass bound as `b`, `v`: the final bindings and
/// slots, and what each draw saw.
pub open spec fn replay_from(b: PassBindings, v: Seq<Option<u64>>, ops: Seq<PassOp>) -> (
    PassBindings,
    Seq<Option<u64>>,
    Seq<DrawSnapshot>,
)
    decreases ops.len(),
{
    if ops.len() == 0 {
        (b, v, Seq::empty())
    } else {
        let (b1, v1, s1) = replay_from(b, v, ops.drop_last());
        let op = ops.last();
        if is_draw(op) {
            (b1, v1, s1.push((b1, v1, op)))
        } else {
            (apply_op(b1, op), apply_vertex(v1, op), s1)
        }
    }
}

/// Performing `ops` on a fresh pass.
pub open spec fn replay(ops: Seq<PassOp>) -> (PassBindings, Seq<Option<u64>>, Seq<DrawSnapshot>) {
    replay_from(initial_bindings(), initial_vertex_slots(), ops)
}

/// Setting every vertex buffer of `bufs`.
pub open spec fn naive_vertex(bufs: Seq<u64>) -> Seq<PassOp>
    decreases bufs.len(),
{
    if bufs.len() == 0 {
        Seq::empty()
    } else {
        naive_vertex(bufs.drop_last()).push(
            PassOp::SetVertexBuffer { slot: (bufs.len() - 1) as u32, buffer: bufs.last() },
        )
    }
}

/// The calls for one command that bind everything it names.
pub open spec fn naive_command(c: DrawCommand) -> Seq<PassOp> {
    seq![PassOp::SetPipeline(c.pipeline)] + match c.bind_group_1 {
        Some(b) => seq![PassOp::SetBindGroup { group: 1, bind_group: b, dynamic_offset: None }],
        None => Seq::empty(),
    } + object_stage(c) + match c.bind_group_3 {
        Some(b) => seq![PassOp::SetBindGroup { group: 3, bind_group: b, dynamic_offset: None }],
        None => Seq::empty(),
    } + match c.stencil_reference {
        Some(v) => seq![PassOp::SetStencilReference(v)],
        None => Seq::empty(),
    } + naive_vertex(c.vertex_buffers@) + match c.index_buffer {
        Some(ix) => seq![PassOp::SetIndexBuffer { buffer: ix.buffer, format: ix.format }, draw_op(c)],
        None => seq![draw_op(c)],
    }
}

/// The calls for a batch that bind everything each command names.
pub open spec fn naive_batch(cmds: Seq<DrawCommand>) -> Seq<PassOp>
    decreases cmds.len(),
{
    if cmds.len() == 0 {
        Seq::empty()
    } else {
        naive_batch(cmds.drop_last()) + naive_command(cmds.last())
    }
}

/// An index buffer is always drawn with the same format.
pub open spec fn index_formats_consistent(cmds: Seq<DrawCommand>) -> bool {
    forall|i: int, j: int|
        0 <= i < cmds.len() && 0 <= j < cmds.len() && (#[trigger] cmds[i].index_buffer) is Some
            && (#[trigger] cmds[j].index_buffer) is Some && cmds[i].index_buffer.unwrap().buffer
            == cmds[j].index_buffer.unwrap().buffer ==> cmds[i].index_buffer.unwrap().format
            == cmds[j].index_buffer.unwrap().format
}

/// Skipping state that is already bound is unobservable: every draw of the
/// batch sees the same bindings, vertex buffers and draw call as when each
/// command binds everything it names, and the pass ends bound the same way.
/// (A buffer drawn with two index formats is left out: the index buffer is
/// tracked by identity alone.)
pub proof fn lemma_skipping_bound_state_is_unobservable(cmds: Seq<DrawCommand>)
    requires
        vertex_counts_ok(cmds),
        index_formats_consistent(cmds),
    ensures
        replay(batch_ops(cmds).0) == replay(naive_batch(cmds)),
{
    lemma_batch_prefix(cmds, cmds.len() as int);
    assert(cmds.take(cmds.len() as int) =~= cmds);
}

/// Appending calls continues the replay from where it stopped.
pub proof fn lemma_replay_append(b: PassBindings, v: Seq<Option<u64>>, x: Seq<PassOp>, y: Seq<PassOp>)
    ensures
        ({
            let (b1, v1, s1) = replay_from(b, v, x);
            let (b2, v2, s2) = replay_from(b1, v1, y);
            replay_from(b, v, x + y) == (b2, v2, s1 + s2)
        }),
    decreases y.len(),
{
    if y.len() == 0 {
        assert(x + y =~= x);
        let (b1, v1, s1) = replay_from(b, v, x);
        assert(s1 + Seq::<DrawSnapshot>::empty() =~= s1);
    } else {
        lemma_replay_append(b, v, x, y.drop_last());
        assert((x + y).drop_last() =~= x + y.drop_last());
        assert((x + y).last() == y.last());
        let (b1, v1, s1) = replay_from(b, v, x);
        let (b2, v2, s2) = replay_from(b1, v1, y.drop_last());
        assert(s1 + s2.push((b2, v2, y.last())) =~= (s1 + s2).push((b2, v2, y.last())));
    }
}

/// Replays of two call sequences that agree agree after the same
/// continuation-equivalent suffixes.
proof fn lemma_replay_chain(
    b: PassBindings,
    v: Seq<Option<u64>>,
    x1: Seq<PassOp>,
    y1: Seq<PassOp>,
    x2: Seq<PassOp>,
    y2: Seq<PassOp>,
)
    requires
        replay_from(b, v, x1) == replay_from(b, v, y1),
        replay_from(replay_from(b, v, x1).0, replay_from(b, v, x1).1, x2) == replay_from(
            replay_from(b, v, x1).0,
            replay_from(b, v, x1).1,
            y2,
        ),
    ensures
        replay_from(b, v, x1 + x2) == replay_from(b, v, y1 + y2),
{
    lemma_replay_append(b, v, x1, x2);
    lemma_replay_append(b, v, y1, y2);
}

proof fn lemma_replay_one(b: PassBindings, v: Seq<Option<u64>>, op: PassOp)
    ensures
        replay_from(b, v, seq![op]) == (if is_draw(op) {
            (b, v, seq![(b, v, op)])
        } else {
            (apply_op(b, op), apply_vertex(v, op), Seq::<DrawSnapshot>::empty())
        }),
{
    let ops = seq![op];
    assert(ops.drop_last() =~= Seq::<PassOp>::empty());
    assert(ops.last() == op);
    assert(replay_from(b, v, ops.drop_last()) == (b, v, Seq::<DrawSnapshot>::empty()));
    assert(Seq::<DrawSnapshot>::empty().push((b, v, op)) =~= seq![(b, v, op)]);
}

proof fn lemma_replay_empty(b: PassBindings, v: Seq<Option<u64>>)
    ensures
        replay_from(b, v, Seq::<PassOp>::empty()) == (b, v, Seq::<DrawSnapshot>::empty()),
{
}

/// A command indexed by the bound index buffer uses its format.
pub open spec fn format_agrees(bound: Option<(u64, IndexFormat)>, c: DrawCommand) -> bool {
    match (bound, c.index_buffer) {
        (Some(p), Some(ix)) => ix.buffer == p.0 ==> ix.format == p.1,
        _ => true,
    }
}

/// `c` draws with index buffer `buffer` in format `format`.
pub open spec fn drawn_with(c: DrawCommand, buffer: u64, format: IndexFormat) -> bool {
    match c.index_buffer {
        Some(ix) => ix.buffer == buffer && ix.format == format,
        None => false,
    }
}

/// What the submission tracks agrees with what the pass has bound.
pub open spec fn tracking_agrees(t: DrawTracking, vb: Seq<Option<u64>>, b: PassBindings, v: Seq<Option<u64>>) -> bool {
    &&& t.pipeline == b.pipeline
    &&& t.bind_group_1 == b.bind_group_1
    &&& t.bind_group_3 == b.bind_group_3
    &&& (t.stencil is Some ==> b.stencil == t.stencil)
    &&& t.index_buffer == (match b.index_buffer {
        Some(p) => Some(p.0),
        None => None,
    })
    &&& vb == v
    &&& v.len() == MAX_VERTEX_BUFFERS
}

proof fn lemma_vertex_stage(b: PassBindings, v: Seq<Option<u64>>, bufs: Seq<u64>)
    requires
        v.len() == MAX_VERTEX_BUFFERS,
        bufs.len() <= MAX_VERTEX_BUFFERS,
    ensures
        replay_from(b, v, vertex_ops(v, bufs).0) == (b, vertex_ops(v, bufs).1, Seq::<DrawSnapshot>::empty()),
        replay_from(b, v, naive_vertex(bufs)) == (b, vertex_ops(v, bufs).1, Seq::<DrawSnapshot>::empty()),
        vertex_ops(v, bufs).1.len() == MAX_VERTEX_BUFFERS,
    decreases bufs.len(),
{
    if bufs.len() > 0 {
        let pre = bufs.drop_last();
        lemma_vertex_stage(b, v, pre);
        let (ops, c) = vertex_ops(v, pre);
        let slot = bufs.len() - 1;
        let op = PassOp::SetVertexBuffer { slot: slot as u32, buffer: bufs.last() };
        lemma_replay_one(b, c, op);
        lemma_replay_append(b, v, naive_vertex(pre), seq![op]);
        assert(naive_vertex(pre).push(op) =~= naive_vertex(pre) + seq![op]);
        if c[slot] != Some(bufs.last()) {
            lemma_replay_append(b, v, ops, seq![op]);
            assert(ops.push(op) =~= ops + seq![op]);
        } else {
            assert(c.update(slot, Some(bufs.last())) =~= c);
        }
    }
}

proof fn lemma_binding_stage(t: DrawTracking, vb: Seq<Option<u64>>, b: PassBindings, v: Seq<Option<u64>>, c: DrawCommand)
    requires
        tracking_agrees(t, vb, b, v),
    ensures
        replay_from(b, v, binding_ops(t, c).0) == replay_from(
            b,
            v,
            seq![PassOp::SetPipeline(c.pipeline)] + match c.bind_group_1 {
                Some(g) => seq![PassOp::SetBindGroup { group: 1, bind_group: g, dynamic_offset: None }],
                None => Seq::empty(),
            } + object_stage(c) + match c.bind_group_3 {
                Some(g) => seq![PassOp::SetBindGroup { group: 3, bind_group: g, dynamic_offset: None }],
                None => Seq::empty(),
            } + match c.stencil_reference {
                Some(s) => seq![PassOp::SetStencilReference(s)],
                None => Seq::empty(),
            },
        ),
        replay_from(b, v, binding_ops(t, c).0).1 == v,
        replay_from(b, v, binding_ops(t, c).0).2 == Seq::<DrawSnapshot>::empty(),
        tracking_agrees(binding_ops(t, c).1, vb, replay_from(b, v, binding_ops(t, c).0).0, v),
        binding_ops(t, c).1.index_buffer == t.index_buffer,
        replay_from(b, v, binding_ops(t, c).0).0.index_buffer == b.index_buffer,
{
    let (o1, t1) = pipeline_stage(t, c);
    let (o2, t2) = material_stage(t1, c);
    let o3 = object_stage(c);
    let (o4, t4) = screen_stage(t2, c);
    let (o5, t5) = stencil_stage(t4, c);
    let n1 = seq![PassOp::SetPipeline(c.pipeline)];
    let n2 = match c.bind_group_1 {
        Some(g) => seq![PassOp::SetBindGroup { group: 1, bind_group: g, dynamic_offset: None }],
        None => Seq::<PassOp>::empty(),
    };
    let n4 = match c.bind_group_3 {
        Some(g) => seq![PassOp::SetBindGroup { group: 3, bind_group: g, dynamic_offset: None }],
        None => Seq::<PassOp>::empty(),
    };
    let n5 = match c.stencil_reference {
        Some(s) => seq![PassOp::SetStencilReference(s)],
        None => Seq::<PassOp>::empty(),
    };
    // pipeline
    lemma_replay_one(b, v, PassOp::SetPipeline(c.pipeline));
    lemma_replay_empty(b, v);
    let b1 = PassBindings { pipeline: Some(c.pipeline), ..b };
    if t.pipeline == Some(c.pipeline) {
        assert(b1 == b);
    }
    assert(replay_from(b, v, o1) == replay_from(b, v, n1));
    assert(replay_from(b, v, o1) == (b1, v, Seq::<DrawSnapshot>::empty()));
    // material
    lemma_replay_empty(b1, v);
    let b2 = match c.bind_group_1 {
        Some(g) => PassBindings { bind_group_1: Some(g), ..b1 },
        None => b1,
    };
    match c.bind_group_1 {
        Some(g) => {
            lemma_replay_one(b1, v, PassOp::SetBindGroup { group: 1, bind_group: g, dynamic_offset: None });
            if t1.bind_group_1 == Some(g) {
                assert(b2 == b1);
            }
        },
        None => {},
    }
    assert(replay_from(b1, v, o2) == replay_from(b1, v, n2));
    assert(replay_from(b1, v, o2) == (b2, v, Seq::<DrawSnapshot>::empty()));
    lemma_replay_chain(b, v, o1, n1, o2, n2);
    lemma_replay_append(b, v, o1, o2);
    // object
    let b3 = PassBindings { bind_group_2: Some((c.bind_group_2, Some(c.bind_group_2_offset))), ..b2 };
    lemma_replay_one(b2, v, o3[0]);
    assert(o3 =~= seq![o3[0]]);
    lemma_replay_chain(b, v, o1 + o2, n1 + n2, o3, o3);
    lemma_replay_append(b, v, o1 + o2, o3);
    // screen
    lemma_replay_empty(b3, v);
    let b4 = match c.bind_group_3 {
        Some(g) => PassBindings { bind_group_3: Some(g), ..b3 },
        None => b3,
    };
    match c.bind_group_3 {
        Some(g) => {
            lemma_replay_one(b3, v, PassOp::SetBindGroup { group: 3, bind_group: g, dynamic_offset: None });
            if t2.bind_group_3 == Some(g) {
                assert(b4 == b3);
            }
        },
        None => {},
    }
    assert(replay_from(b3, v, o4) == replay_from(b3, v, n4));
    assert(replay_from(b3, v, o4) == (b4, v, Seq::<DrawSnapshot>::empty()));
    lemma_replay_chain(b, v, o1 + o2 + o3, n1 + n2 + o3, o4, n4);
    lemma_replay_append(b, v, o1 + o2 + o3, o4);
    // stencil
    lemma_replay_empty(b4, v);
    let b5 = match c.stencil_reference {
        Some(s) => PassBindings { stencil: Some(s), ..b4 },
        None => b4,
    };
    match c.stencil_reference {
        Some(s) => {
            lemma_replay_one(b4, v, PassOp::SetStencilReference(s));
            if t4.stencil == Some(s) {
                assert(b5 == b4);
            }
        },
        None => {},
    }
    assert(replay_from(b4, v, o5) == replay_from(b4, v, n5));
    assert(replay_from(b4, v, o5) == (b5, v, Seq::<DrawSnapshot>::empty()));
    lemma_replay_chain(b, v, o1 + o2 + o3 + o4, n1 + n2 + o3 + n4, o5, n5);
    lemma_replay_append(b, v, o1 + o2 + o3 + o4, o5);
    assert(replay_from(b, v, binding_ops(t, c).0) == (b5, v, Seq::<DrawSnapshot>::empty())) by {
        assert(Seq::<DrawSnapshot>::empty() + Seq::<DrawSnapshot>::empty() =~= Seq::<DrawSnapshot>::empty());
    }
}

proof fn lemma_draw_stage(t: DrawTracking, vb: Seq<Option<u64>>, b: PassBindings, v: Seq<Option<u64>>, c: DrawCommand)
    requires
        tracking_agrees(t, vb, b, v),
        format_agrees(b.index_buffer, c),
    ensures
        replay_from(b, v, draw_stage(t, c).0) == replay_from(
            b,
            v,
            match c.index_buffer {
                Some(ix) => seq![PassOp::SetIndexBuffer { buffer: ix.buffer, format: ix.format }, draw_op(c)],
                None => seq![draw_op(c)],
            },
        ),
        tracking_agrees(draw_stage(t, c).1, vb, replay_from(b, v, draw_stage(t, c).0).0, v),
        replay_from(b, v, draw_stage(t, c).0).1 == v,
        replay_from(b, v, draw_stage(t, c).0).0.index_buffer == (match c.index_buffer {
            Some(ix) => Some((ix.buffer, ix.format)),
            None => b.index_buffer,
        }),
{
    let d = draw_op(c);
    assert(is_draw(d));
    match c.index_buffer {
        Some(ix) => {
            let set = PassOp::SetIndexBuffer { buffer: ix.buffer, format: ix.format };
            let b1 = PassBindings { index_buffer: Some((ix.buffer, ix.format)), ..b };
            lemma_replay_one(b, v, set);
            lemma_replay_one(b1, v, d);
            lemma_replay_append(b, v, seq![set], seq![d]);
            assert(seq![set] + seq![d] =~= seq![set, d]);
            assert(Seq::<DrawSnapshot>::empty() + seq![(b1, v, d)] =~= seq![(b1, v, d)]);
            if t.index_buffer == Some(ix.buffer) {
                assert(b1 == b);
                lemma_replay_one(b, v, d);
            }
        },
        None => {
            lemma_replay_one(b, v, d);
        },
    }
}

proof fn lemma_command(t: DrawTracking, vb: Seq<Option<u64>>, b: PassBindings, v: Seq<Option<u64>>, c: DrawCommand)
    requires
        tracking_agrees(t, vb, b, v),
        c.vertex_buffers@.len() <= MAX_VERTEX_BUFFERS,
        format_agrees(b.index_buffer, c),
    ensures
        replay_from(b, v, command_ops(t, vb, c).0) == replay_from(b, v, naive_command(c)),
        tracking_agrees(
            command_ops(t, vb, c).1,
            command_ops(t, vb, c).2,
            replay_from(b, v, command_ops(t, vb, c).0).0,
            replay_from(b, v, command_ops(t, vb, c).0).1,
        ),
        replay_from(b, v, command_ops(t, vb, c).0).0.index_buffer == (match c.index_buffer {
            Some(ix) => Some((ix.buffer, ix.format)),
            None => b.index_buffer,
        }),
{
    let (a, ta) = binding_ops(t, c);
    let (vo, vb2) = vertex_ops(vb, c.vertex_buffers@);
    let (d, td) = draw_stage(ta, c);
    let na = seq![PassOp::SetPipeline(c.pipeline)] + match c.bind_group_1 {
        Some(g) => seq![PassOp::SetBindGroup { group: 1, bind_group: g, dynamic_offset: None }],
        None => Seq::empty(),
    } + object_stage(c) + match c.bind_group_3 {
        Some(g) => seq![PassOp::SetBindGroup { group: 3, bind_group: g, dynamic_offset: None }],
        None => Seq::empty(),
    } + match c.stencil_reference {
        Some(s) => seq![PassOp::SetStencilReference(s)],
        None => Seq::empty(),
    };
    let nd = match c.index_buffer {
        Some(ix) => seq![PassOp::SetIndexBuffer { buffer: ix.buffer, format: ix.format }, draw_op(c)],
        None => seq![draw_op(c)],
    };
    lemma_binding_stage(t, vb, b, v, c);
    let ba = replay_from(b, v, a).0;
    lemma_vertex_stage(ba, v, c.vertex_buffers@);
    lemma_replay_chain(b, v, a, na, vo, naive_vertex(c.vertex_buffers@));
    lemma_replay_append(b, v, a, vo);
    assert(Seq::<DrawSnapshot>::empty() + Seq::<DrawSnapshot>::empty() =~= Seq::<DrawSnapshot>::empty());
    assert(replay_from(b, v, a + vo) == (ba, vb2, Seq::<DrawSnapshot>::empty()));
    lemma_draw_stage(ta, vb2, ba, vb2, c);
    lemma_replay_chain(b, v, a + vo, na + naive_vertex(c.vertex_buffers@), d, nd);
    lemma_replay_append(b, v, a + vo, d);
    assert(naive_command(c) =~= na + naive_vertex(c.vertex_buffers@) + nd);
}

/// The property carried along a batch: the replays agree, the tracking
/// agrees with the pass, and the bound index buffer has the format some
/// earlier command drew it with.
proof fn lemma_batch_prefix(cmds: Seq<DrawCommand>, n: int)
    requires
        0 <= n <= cmds.len(),
        vertex_counts_ok(cmds),
        index_formats_consistent(cmds),
    ensures
        replay(batch_ops(cmds.take(n)).0) == replay(naive_batch(cmds.take(n))),
        tracking_agrees(
            batch_ops(cmds.take(n)).1,
            batch_ops(cmds.take(n)).2,
            replay(batch_ops(cmds.take(n)).0).0,
            replay(batch_ops(cmds.take(n)).0).1,
        ),
        match replay(batch_ops(cmds.take(n)).0).0.index_buffer {
            Some(p) => exists|k: int| 0 <= k < n && drawn_with(#[trigger] cmds[k], p.0, p.1),
            None => true,
        },
    decreases n,
{
    if n == 0 {
        assert(cmds.take(0) =~= Seq::<DrawCommand>::empty());
        assert(initial_vertex_slots().len() == MAX_VERTEX_BUFFERS);
    } else {
        lemma_batch_prefix(cmds, n - 1);
        let p = cmds.take(n);
        assert(p.drop_last() =~= cmds.take(n - 1));
        assert(p.last() == cmds[n - 1]);
        let (ops, t, vb) = batch_ops(cmds.take(n - 1));
        let (eb, ev, es) = replay(ops);
        let c = cmds[n - 1];
        assert(c.vertex_buffers@.len() <= MAX_VERTEX_BUFFERS);
        if eb.index_buffer is Some && c.index_buffer is Some && c.index_buffer.unwrap().buffer
            == eb.index_buffer.unwrap().0 {
            let q = eb.index_buffer.unwrap();
            let k = choose|k: int| 0 <= k < n - 1 && drawn_with(#[trigger] cmds[k], q.0, q.1);
            assert(cmds[k].index_buffer is Some);
            assert(cmds[n - 1].index_buffer is Some);
        }
        lemma_command(t, vb, eb, ev, c);
        lemma_replay_chain(
            initial_bindings(),
            initial_vertex_slots(),
            ops,
            naive_batch(cmds.take(n - 1)),
            command_ops(t, vb, c).0,
            naive_command(c),
        );
        lemma_replay_append(initial_bindings(), initial_vertex_slots(), ops, command_ops(t, vb, c).0);
        let nb = replay(batch_ops(p).0).0;
        if nb.index_buffer is Some {
            if c.index_buffer is Some {
                assert(drawn_with(cmds[n - 1], nb.index_buffer.unwrap().0, nb.index_buffer.unwrap().1));
            } else {
                let q = eb.index_buffer.unwrap();
                let k = choose|k: int| 0 <= k < n - 1 && drawn_with(#[trigger] cmds[k], q.0, q.1);
                assert(drawn_with(cmds[k], nb.index_buffer.unwrap().0, nb.index_buffer.unwrap().1));
            }
        }
    }
}

} // verus!
