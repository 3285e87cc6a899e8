//! The command recorder: one reusable submission per swapchain image.
//!
//! For the current framebuffer set the recorder first attaches the GPU
//! resources that shapes still lack — at most once per shape, checked by
//! presence — and then builds, for every framebuffer, the same fixed command
//! list: begin the pass with the fixed clear color, bind the pipeline, and
//! for each shape in registration order bind its binding, bind its vertex
//! buffer and issue one non-indexed draw. The host program replays each
//! list against the real device.

use vstd::prelude::*;

use crate::geometry::Color;
use crate::shape::Shape;
use crate::shape::Triangle;
use crate::shape::Rectangle;
use crate::swapchain::FramebufferInfo;

verus! {

/// Bit pattern of the 0.1 channels of the fixed dark-gray clear color.
pub const CLEAR_CHANNEL_BITS: u32 = 0x3DCC_CCCD;

/// Bit pattern of the 1.0 alpha channel of the fixed clear color.
pub const CLEAR_ALPHA_BITS: u32 = 0x3F80_0000;

/// The fixed clear color every pass begins with: dark gray, opaque.
pub open spec fn spec_clear_color() -> Color {
    Color {
        r: CLEAR_CHANNEL_BITS,
        g: CLEAR_CHANNEL_BITS,
        b: CLEAR_CHANNEL_BITS,
        a: CLEAR_ALPHA_BITS,
    }
}

/// The fixed clear color every pass begins with: dark gray, opaque.
pub fn clear_color() -> (c: Color)
    ensures
        c == spec_clear_color(),
{
    Color {
        r: CLEAR_CHANNEL_BITS,
        g: CLEAR_CHANNEL_BITS,
        b: CLEAR_CHANNEL_BITS,
        a: CLEAR_ALPHA_BITS,
    }
}

/// One step of a recorded submission.
#[derive(Clone, Copy, Debug, PartialEq, Eq, Structural)]
pub enum Command {
    /// Open the render pass on a framebuffer, clearing every attachment.
    BeginRenderPass { framebuffer: FramebufferInfo, clear_color: Color, clear_value_count: usize },
    /// Bind the generation's graphics pipeline.
    BindPipeline,
    /// Bind a shape's binding (descriptor set).
    BindDescriptorSet { set_index: u32, descriptor_set: u64 },
    /// Bind a shape's vertex buffer.
    BindVertexBuffer { slot: u32, vertex_buffer: u64 },
    /// Draw, non-indexed.
    Draw { vertex_count: usize, instance_count: u32 },
    /// Close the render pass.
    EndRenderPass,
}

/// One precomputed submission: the command list replayed for one swapchain
/// image.
pub struct Submission {
    pub framebuffer: FramebufferInfo,
    pub commands: Vec<Command>,
}

/// Hands out fresh handles for GPU resources, in order.
#[derive(Clone, Copy, Debug, PartialEq, Eq, Structural)]
pub struct ResourceIds {
    pub next: u64,
}

impl ResourceIds {
    pub fn new() -> (ids: ResourceIds)
        ensures
            ids.next == 0,
    {
        ResourceIds { next: 0 }
    }

    /// The next handle; never handed out twice.
    pub fn fresh(&mut self) -> (id: u64)
        requires
            old(self).next < u64::MAX,
        ensures
            id == old(self).next,
            final(self).next == old(self).next + 1,
    {
        let id = self.next;
        self.next = self.next + 1;
        id
    }
}

/// How many fresh handles attaching resources to one shape consumes.
pub open spec fn ids_needed_one(s: Shape) -> nat {
    (if s.spec_descriptor_set() is None {
        1nat
    } else {
        0nat
    }) + (if s.spec_vertex_buffer() is None {
        1nat
    } else {
        0nat
    })
}

/// How many fresh handles attaching resources to a whole shape list
/// consumes.
pub open spec fn ids_needed(shapes: Seq<Shape>) -> nat
    decreases shapes.len(),
{
    if shapes.len() == 0 {
        0nat
    } else {
        ids_needed(shapes.drop_last()) + ids_needed_one(shapes.last())
    }
}

proof fn lemma_ids_needed_take_succ(shapes: Seq<Shape>, k: int)
    requires
        0 <= k < shapes.len(),
    ensures
        ids_needed(shapes.take(k + 1)) == ids_needed(shapes.take(k)) + ids_needed_one(shapes[k]),
{
    assert(shapes.take(k + 1).drop_last() =~= shapes.take(k));
    assert(shapes.take(k + 1).last() == shapes[k]);
}

proof fn lemma_ids_needed_take_le(shapes: Seq<Shape>, k: int)
    requires
        0 <= k <= shapes.len(),
    ensures
        ids_needed(shapes.take(k)) <= ids_needed(shapes),
    decreases shapes.len() - k,
{
    if k == shapes.len() {
        assert(shapes.take(k) =~= shapes);
    } else {
        lemma_ids_needed_take_succ(shapes, k);
        lemma_ids_needed_take_le(shapes, k + 1);
    }
}

/// A shape list never needs more than two handles per shape.
pub proof fn lemma_ids_needed_bound(shapes: Seq<Shape>)
    ensures
        ids_needed(shapes) <= 2 * shapes.len(),
    decreases shapes.len(),
{
    if shapes.len() > 0 {
        lemma_ids_needed_bound(shapes.drop_last());
    }
}

/// A list needs no handles exactly when each of its shapes needs none.
pub proof fn lemma_ids_needed_zero(shapes: Seq<Shape>)
    ensures
        ids_needed(shapes) == 0 <==> forall|k: int|
            0 <= k < shapes.len() ==> ids_needed_one(#[trigger] shapes[k]) == 0,
    decreases shapes.len(),
{
    if shapes.len() > 0 {
        lemma_ids_needed_zero(shapes.drop_last());
        assert(forall|k: int|
            0 <= k < shapes.len() - 1 ==> shapes.drop_last()[k] == #[trigger] shapes[k]);
        assert(shapes.last() == shapes[shapes.len() - 1]);
    }
}

/// How `materialize_shape` relates a produced shape to its source, given the
/// first handle it may consume.
pub open spec fn materialized_from(before: Shape, after: Shape, start: int) -> bool {
    &&& after.same_shape(before)
    &&& after.materialized()
    &&& after.spec_descriptor_set() == (if before.spec_descriptor_set() is Some {
        before.spec_descriptor_set()
    } else {
        Some(start as u64)
    })
    &&& after.spec_vertex_buffer() == (if before.spec_vertex_buffer() is Some {
        before.spec_vertex_buffer()
    } else {
        Some(
            (start + (if before.spec_descriptor_set() is Some {
                0int
            } else {
                1int
            })) as u64,
        )
    })
}

/// Whether two shapes agree on everything observable: kind, vertices, color,
/// and both attached resources.
pub open spec fn same_state(a: Shape, b: Shape) -> bool {
    &&& a.same_shape(b)
    &&& a.spec_descriptor_set() == b.spec_descriptor_set()
    &&& a.spec_vertex_buffer() == b.spec_vertex_buffer()
}

/// The lazy attachment path for one shape: a copy with both resources
/// present, where a resource that was already attached is kept — never
/// re-created — and a missing one is attached with a fresh handle.
pub fn materialize_shape(s: &Shape, ids: &mut ResourceIds) -> (out: Shape)
    requires
        old(ids).next + ids_needed_one(*s) <= u64::MAX,
    ensures
        materialized_from(*s, out, old(ids).next as int),
        final(ids).next == old(ids).next + ids_needed_one(*s),
        ids_needed_one(*s) == 0 ==> same_state(out, *s) && *final(ids) == *old(ids),
{
    let vertices = s.get_vertices();
    let color = s.get_color();
    let descriptor_set = match s.get_descriptor_set() {
        Some(d) => Some(d),
        None => Some(ids.fresh()),
    };
    let vertex_buffer = match s.get_vertex_buffer() {
        Some(b) => Some(b),
        None => Some(ids.fresh()),
    };
    match s {
        Shape::Triangle(_) => Shape::Triangle(
            Triangle { vertices, color, descriptor_set, vertex_buffer },
        ),
        Shape::Rectangle(_) => Shape::Rectangle(
            Rectangle { vertices, color, descriptor_set, vertex_buffer },
        ),
    }
}

/// How `attach_missing_resources` relates a produced shape list to its
/// source: pointwise materialized, with fresh handles assigned in
/// registration order starting at `base`.
pub open spec fn attached_with_ids(before: Seq<Shape>, after: Seq<Shape>, base: int) -> bool {
    &&& after.len() == before.len()
    &&& forall|k: int|
        0 <= k < before.len() ==> materialized_from(
            #[trigger] before[k],
            #[trigger] after[k],
            base + ids_needed(before.take(k)),
        )
}

/// Attaches the resources the shapes still lack, in registration order,
/// checking presence first so that an attached resource is never re-created.
pub fn attach_missing_resources(shapes: &mut Vec<Shape>, ids: &mut ResourceIds)
    requires
        old(ids).next + ids_needed(old(shapes)@) <= u64::MAX,
    ensures
        attached_with_ids(old(shapes)@, final(shapes)@, old(ids).next as int),
        final(ids).next == old(ids).next + ids_needed(old(shapes)@),
{
    let ghost orig = old(shapes)@;
    let ghost base = old(ids).next as int;
    let mut k: usize = 0;
    while k < shapes.len()
        invariant
            k <= orig.len(),
            shapes@.len() == orig.len(),
            base + ids_needed(orig) <= u64::MAX,
            forall|j: int| k <= j < orig.len() ==> #[trigger] shapes@[j] == orig[j],
            ids.next == base + ids_needed(orig.take(k as int)),
            forall|j: int|
                0 <= j < k ==> materialized_from(
                    #[trigger] orig[j],
                    #[trigger] shapes@[j],
                    base + ids_needed(orig.take(j)),
                ),
        decreases orig.len() - k,
    {
        proof {
            lemma_ids_needed_take_succ(orig, k as int);
            lemma_ids_needed_take_le(orig, k as int + 1);
        }
        let out = materialize_shape(&shapes[k], ids);
        shapes.set(k, out);
        k = k + 1;
    }
    proof {
        assert(orig.take(orig.len() as int) =~= orig);
    }
}

/// Once every shape is materialized, running the attachment path again
/// neither changes a shape nor consumes a handle: attachment is idempotent.
pub proof fn lemma_attach_idempotent(before: Seq<Shape>, after: Seq<Shape>, base: int)
    requires
        ids_needed(before) == 0,
        attached_with_ids(before, after, base),
    ensures
        forall|k: int| 0 <= k < before.len() ==> same_state(#[trigger] after[k], before[k]),
{
    lemma_ids_needed_zero(before);
    assert forall|k: int| 0 <= k < before.len() implies same_state(#[trigger] after[k], before[k]) by {
        assert(ids_needed_one(before[k]) == 0);
        assert(materialized_from(before[k], after[k], base + ids_needed(before.take(k))));
    }
}

/// The three commands that draw one shape: bind its binding at set index 0,
/// bind its vertex buffer at slot 0, and draw its whole vertex list once.
pub open spec fn shape_commands(s: Shape) -> Seq<Command> {
    seq![
        Command::BindDescriptorSet { set_index: 0, descriptor_set: s.spec_descriptor_set()->0 },
        Command::BindVertexBuffer { slot: 0, vertex_buffer: s.spec_vertex_buffer()->0 },
        Command::Draw { vertex_count: s.spec_vertices().len() as usize, instance_count: 1 },
    ]
}

/// The draw commands of a whole shape list, in registration order.
pub open spec fn shapes_commands(shapes: Seq<Shape>) -> Seq<Command>
    decreases shapes.len(),
{
    if shapes.len() == 0 {
        Seq::empty()
    } else {
        shapes_commands(shapes.drop_last()) + shape_commands(shapes.last())
    }
}

proof fn lemma_shapes_commands_take_succ(shapes: Seq<Shape>, k: int)
    requires
        0 <= k < shapes.len(),
    ensures
        shapes_commands(shapes.take(k + 1)) == shapes_commands(shapes.take(k)) + shape_commands(
            shapes[k],
        ),
{
    assert(shapes.take(k + 1).drop_last() =~= shapes.take(k));
    assert(shapes.take(k + 1).last() == shapes[k]);
}

/// The full command list of one submission.
pub open spec fn submission_commands(fb: FramebufferInfo, shapes: Seq<Shape>) -> Seq<Command> {
    seq![
        Command::BeginRenderPass {
            framebuffer: fb,
            clear_color: spec_clear_color(),
            clear_value_count: fb.attachment_count() as usize,
        },
        Command::BindPipeline,
    ] + shapes_commands(shapes) + seq![Command::EndRenderPass]
}

/// Records the submission for one framebuffer from already-materialized
/// shapes.
fn record_one(fb: FramebufferInfo, shapes: &Vec<Shape>) -> (sub: Submission)
    requires
        forall|k: int| 0 <= k < shapes@.len() ==> (#[trigger] shapes@[k]).materialized(),
    ensures
        sub.framebuffer == fb,
        sub.commands@ == submission_commands(fb, shapes@),
{
    let clear_value_count: usize = if fb.multisampled {
        2
    } else {
        1
    };
    let mut commands: Vec<Command> = Vec::new();
    commands.push(
        Command::BeginRenderPass { framebuffer: fb, clear_color: clear_color(), clear_value_count },
    );
    commands.push(Command::BindPipeline);
    let ghost prefix = commands@;
    let mut k: usize = 0;
    while k < shapes.len()
        invariant
            k <= shapes@.len(),
            forall|j: int| 0 <= j < shapes@.len() ==> (#[trigger] shapes@[j]).materialized(),
            commands@ == prefix + shapes_commands(shapes@.take(k as int)),
        decreases shapes@.len() - k,
    {
        let s = &shapes[k];
        let descriptor_set = s.get_descriptor_set().unwrap();
        let vertex_buffer = s.get_vertex_buffer().unwrap();
        let vertex_count = s.vertex_count();
        commands.push(Command::BindDescriptorSet { set_index: 0, descriptor_set });
        commands.push(Command::BindVertexBuffer { slot: 0, vertex_buffer });
        commands.push(Command::Draw { vertex_count, instance_count: 1 });
        proof {
            lemma_shapes_commands_take_succ(shapes@, k as int);
            assert(commands@ =~= prefix + shapes_commands(shapes@.take(k as int + 1)));
        }
        k = k + 1;
    }
    commands.push(Command::EndRenderPass);
    proof {
        assert(shapes@.take(shapes@.len() as int) =~= shapes@);
        assert(commands@ =~= submission_commands(fb, shapes@));
    }
    Submission { framebuffer: fb, commands }
}

/// Records the submission set for one swapchain generation: first the lazy
/// resource attachment over the shape list, then one submission per
/// framebuffer, each listing every shape's draw in registration order, so
/// that later shapes draw over earlier ones.
pub fn record_commands(
    framebuffers: &Vec<FramebufferInfo>,
    shapes: &mut Vec<Shape>,
    ids: &mut ResourceIds,
) -> (submissions: Vec<Submission>)
    requires
        old(ids).next + ids_needed(old(shapes)@) <= u64::MAX,
    ensures
        attached_with_ids(old(shapes)@, final(shapes)@, old(ids).next as int),
        final(ids).next == old(ids).next + ids_needed(old(shapes)@),
        submissions@.len() == framebuffers@.len(),
        forall|i: int|
            0 <= i < framebuffers@.len() ==> {
                &&& (#[trigger] submissions@[i]).framebuffer == framebuffers@[i]
                &&& submissions@[i].commands@ == submission_commands(
                    framebuffers@[i],
                    final(shapes)@,
                )
            },
{
    attach_missing_resources(shapes, ids);
    proof {
        assert forall|k: int| 0 <= k < shapes@.len() implies (#[trigger] shapes@[k]).materialized() by {
            assert(materialized_from(
                old(shapes)@[k],
                shapes@[k],
                old(ids).next + ids_needed(old(shapes)@.take(k)),
            ));
        }
    }
    let mut submissions: Vec<Submission> = Vec::new();
    let mut i: usize = 0;
    while i < framebuffers.len()
        invariant
            i <= framebuffers@.len(),
            forall|k: int| 0 <= k < shapes@.len() ==> (#[trigger] shapes@[k]).materialized(),
            submissions@.len() == i,
            forall|j: int|
                0 <= j < i ==> {
                    &&& (#[trigger] submissions@[j]).framebuffer == framebuffers@[j]
                    &&& submissions@[j].commands@ == submission_commands(framebuffers@[j], shapes@)
                },
        decreases framebuffers@.len() - i,
    {
        let sub = record_one(framebuffers[i], shapes);
        submissions.push(sub);
        i = i + 1;
    }
    submissions
}

} // verus!
