use renderloop::commands::Command;
use renderloop::commands::ResourceIds;
use renderloop::commands::materialize_shape;
use renderloop::geometry::Color;
use renderloop::geometry::Vertex;
use renderloop::pipeline::ShaderInterface;
use renderloop::renderer::AcquireResult;
use renderloop::renderer::RecreateError;
use renderloop::renderer::RedrawPlan;
use renderloop::renderer::SubmitOutcome;
use renderloop::renderer::Vulkan;
use renderloop::shape::Shape;
use renderloop::swapchain::Extent;
use renderloop::swapchain::PresentMode;
use renderloop::swapchain::SwapchainPlan;

fn rgba(r: f32, g: f32, b: f32, a: f32) -> Color {
    Color { r: r.to_bits(), g: g.to_bits(), b: b.to_bits(), a: a.to_bits() }
}

fn triangle(color: Color) -> Shape {
    Shape::new_triangle(
        vec![Vertex { x: -100, y: -100 }, Vertex { x: 0, y: 0 }, Vertex { x: -100, y: 0 }],
        color,
    )
}

fn reflected_shader() -> ShaderInterface {
    ShaderInterface {
        vertex_input_locations: vec![0],
        uniform_bindings: vec![(0, 0)],
        color_output_count: 1,
    }
}

fn test_plan(extent: Extent) -> SwapchainPlan {
    SwapchainPlan {
        min_image_count: 2,
        image_format: 50,
        composite_alpha: 1,
        present_mode: PresentMode::Fifo,
        extent,
    }
}

fn make_renderer(image_count: usize, sample_count: u32, shapes: Vec<Shape>) -> Vulkan {
    Vulkan::initialize(
        test_plan(Extent { width: 800, height: 600 }),
        image_count,
        shapes,
        sample_count,
        reflected_shader(),
    )
}

fn render_plan(v: &Vulkan, image_index: usize, suboptimal: bool) -> renderloop::renderer::SubmitPlan {
    match v.plan_redraw(AcquireResult::Ready { image_index, suboptimal }) {
        RedrawPlan::Render(sp) => sp,
        RedrawPlan::MustRecreate => panic!("expected a render plan"),
    }
}

#[test]
fn fence_slots_after_initialize() {
    let v = make_renderer(3, 1, vec![triangle(rgba(1.0, 0.0, 0.0, 1.0))]);
    assert_eq!(v.fences, vec![None, None, None]);
    assert_eq!(v.previous_fence, 0);
    assert_eq!(v.image_count(), 3);
}

#[test]
fn fence_slots_track_image_count_across_recreates() {
    let mut v = make_renderer(3, 1, vec![triangle(rgba(1.0, 0.0, 0.0, 1.0))]);
    v.commit_redraw(1, false, SubmitOutcome::Submitted { fence: 100 });
    // Growing the image count keeps existing slots and adds empty ones.
    let grown = v.recreate_swapchain(Extent { width: 640, height: 480 }, 4);
    assert_eq!(grown, Ok(()));
    assert_eq!(v.fences, vec![None, Some(100), None, None]);
    // Shrinking keeps the surviving prefix.
    let shrunk = v.recreate_swapchain(Extent { width: 320, height: 240 }, 2);
    assert_eq!(shrunk, Ok(()));
    assert_eq!(v.fences, vec![None, Some(100)]);
    assert_eq!(v.image_count(), 2);
}

#[test]
fn out_of_range_previous_fence_is_reset_by_recreate() {
    let mut v = make_renderer(3, 1, vec![triangle(rgba(1.0, 0.0, 0.0, 1.0))]);
    v.commit_redraw(2, false, SubmitOutcome::Submitted { fence: 7 });
    assert_eq!(v.previous_fence, 2);
    v.recreate_swapchain(Extent { width: 100, height: 100 }, 2).unwrap();
    assert_eq!(v.previous_fence, 0);
}

#[test]
fn out_of_date_acquisition_touches_nothing() {
    let mut v = make_renderer(2, 1, vec![triangle(rgba(0.0, 1.0, 0.0, 1.0))]);
    v.commit_redraw(0, false, SubmitOutcome::Submitted { fence: 55 });
    let fences_before = v.fences.clone();
    let previous_before = v.previous_fence;
    let plan = v.plan_redraw(AcquireResult::OutOfDate);
    assert_eq!(plan, RedrawPlan::MustRecreate);
    assert_eq!(v.fences, fences_before);
    assert_eq!(v.previous_fence, previous_before);
}

#[test]
fn redraw_drains_the_acquired_images_own_fence() {
    let mut v = make_renderer(2, 1, vec![triangle(rgba(0.0, 0.0, 1.0, 1.0))]);
    v.commit_redraw(0, false, SubmitOutcome::Submitted { fence: 100 });
    let sp = render_plan(&v, 0, false);
    assert_eq!(sp.image_index, 0);
    assert_eq!(sp.wait_fence, Some(100));
    // Image 0 is also the previously submitted image, so the new submission
    // chains on the same fence.
    assert_eq!(sp.chain_fence, Some(100));
}

#[test]
fn redraw_chains_on_the_previously_submitted_image() {
    let mut v = make_renderer(3, 1, vec![triangle(rgba(0.0, 0.0, 1.0, 1.0))]);
    v.commit_redraw(1, false, SubmitOutcome::Submitted { fence: 100 });
    let sp = render_plan(&v, 2, false);
    // Image 2 has no fence of its own yet, so nothing to drain...
    assert_eq!(sp.wait_fence, None);
    // ...but the frame depends on image 1's fence, the previous submission.
    assert_eq!(sp.chain_fence, Some(100));
}

struct FenceSim {
    signaled: Vec<u64>,
}

impl FenceSim {
    fn new() -> FenceSim {
        FenceSim { signaled: Vec::new() }
    }

    fn is_signaled(&self, fence: u64) -> bool {
        self.signaled.contains(&fence)
    }

    fn complete(&mut self, fence: u64) {
        self.signaled.push(fence);
    }
}

#[test]
fn frame_pacing_blocks_until_fence_signals() {
    // Fences signal only on an explicit `complete` call; the scheduler must
    // never direct a submission to an image whose previous fence is still
    // unsignaled without first demanding a wait on exactly that fence.
    let mut gpu = FenceSim::new();
    let mut v = make_renderer(2, 1, vec![triangle(rgba(1.0, 0.0, 0.0, 1.0))]);

    // Frame 1 renders image 0; nothing to drain, nothing to chain.
    let sp1 = render_plan(&v, 0, false);
    assert_eq!((sp1.wait_fence, sp1.chain_fence), (None, None));
    v.commit_redraw(0, false, SubmitOutcome::Submitted { fence: 100 });

    // Frame 2 renders image 1; no drain, but chained on frame 1's fence.
    let sp2 = render_plan(&v, 1, false);
    assert_eq!((sp2.wait_fence, sp2.chain_fence), (None, Some(100)));
    v.commit_redraw(1, false, SubmitOutcome::Submitted { fence: 101 });

    // Frame 3 acquires image 0 again while fence 100 has not signaled: the
    // plan demands a drain on exactly that fence before the submission.
    let sp3 = render_plan(&v, 0, false);
    assert_eq!(sp3.wait_fence, Some(100));
    assert!(!gpu.is_signaled(100));
    // The host blocks here until the GPU signals the fence.
    gpu.complete(100);
    assert!(gpu.is_signaled(100));
    // Only now is the frame submitted and committed.
    let needs = v.commit_redraw(0, false, SubmitOutcome::Submitted { fence: 102 });
    assert!(!needs);
    assert_eq!(v.fences, vec![Some(102), Some(101)]);
}

#[test]
fn commit_reports_staleness_and_clears_the_slot() {
    let mut v = make_renderer(2, 1, vec![triangle(rgba(1.0, 0.0, 0.0, 1.0))]);
    v.commit_redraw(1, false, SubmitOutcome::Submitted { fence: 9 });
    let needs = v.commit_redraw(1, false, SubmitOutcome::OutOfDate);
    assert!(needs);
    assert_eq!(v.fences[1], None);
}

#[test]
fn commit_tolerates_other_failures_without_recreate() {
    let mut v = make_renderer(2, 1, vec![triangle(rgba(1.0, 0.0, 0.0, 1.0))]);
    let needs = v.commit_redraw(0, false, SubmitOutcome::OtherFailure);
    assert!(!needs);
    // The slot is left empty, so the next frame on image 0 skips the drain.
    assert_eq!(v.fences[0], None);
    let sp = render_plan(&v, 0, false);
    assert_eq!(sp.wait_fence, None);
}

#[test]
fn suboptimal_acquisition_still_renders_but_reports_recreate() {
    let mut v = make_renderer(2, 1, vec![triangle(rgba(1.0, 0.0, 0.0, 1.0))]);
    let sp = render_plan(&v, 0, true);
    assert!(sp.suboptimal);
    let needs = v.commit_redraw(sp.image_index, sp.suboptimal, SubmitOutcome::Submitted {
        fence: 10,
    });
    assert!(needs);
    assert_eq!(v.fences[0], Some(10));
}

#[test]
fn recreate_replaces_every_framebuffer_and_submission() {
    let mut v = make_renderer(2, 4, vec![
        triangle(rgba(1.0, 0.0, 0.0, 1.0)),
        triangle(rgba(0.0, 1.0, 0.0, 1.0)),
    ]);
    let ids_before = v.ids;
    let old_generation = v.generation;
    let new_extent = Extent { width: 1024, height: 768 };
    v.recreate_swapchain(new_extent, 2).unwrap();
    assert_eq!(v.generation, old_generation + 1);
    assert_eq!(v.framebuffers.len(), 2);
    for fb in &v.framebuffers {
        assert_eq!(fb.extent, new_extent);
        assert_eq!(fb.generation, v.generation);
    }
    assert_eq!(v.submissions.len(), 2);
    for sub in &v.submissions {
        // No submission references the prior generation's images.
        assert_eq!(sub.framebuffer.generation, v.generation);
        assert_eq!(sub.framebuffer.extent, new_extent);
        match sub.commands[0] {
            Command::BeginRenderPass { framebuffer, .. } => {
                assert_eq!(framebuffer.generation, v.generation);
            }
            _ => panic!("submissions must open their render pass first"),
        }
    }
    // The shapes kept their resources: recording again allocated nothing.
    assert_eq!(v.ids, ids_before);
}

#[test]
fn recreate_with_zero_area_extent_fails_cleanly() {
    let mut v = make_renderer(2, 1, vec![triangle(rgba(1.0, 0.0, 0.0, 1.0))]);
    v.commit_redraw(1, false, SubmitOutcome::Submitted { fence: 3 });
    let fences_before = v.fences.clone();
    let r = v.recreate_swapchain(Extent { width: 0, height: 600 }, 2);
    assert_eq!(r, Err(RecreateError::EmptyExtent));
    // The failed attempt changed nothing: no partial recreation.
    assert_eq!(v.generation, 0);
    assert_eq!(v.fences, fences_before);
    let r2 = v.recreate_swapchain(Extent { width: 800, height: 0 }, 2);
    assert_eq!(r2, Err(RecreateError::EmptyExtent));
}

#[test]
fn materialization_is_idempotent() {
    let mut ids = ResourceIds::new();
    let bare = triangle(rgba(1.0, 1.0, 0.0, 1.0));
    let first = materialize_shape(&bare, &mut ids);
    assert_eq!(first.get_descriptor_set(), Some(0));
    assert_eq!(first.get_vertex_buffer(), Some(1));
    assert_eq!(ids.next, 2);
    // Running the attachment path again allocates nothing and changes
    // nothing.
    let second = materialize_shape(&first, &mut ids);
    assert_eq!(ids.next, 2);
    assert_eq!(second.get_descriptor_set(), first.get_descriptor_set());
    assert_eq!(second.get_vertex_buffer(), first.get_vertex_buffer());
    assert_eq!(second.get_vertices(), first.get_vertices());
    assert_eq!(second.get_color(), first.get_color());
}

#[test]
fn partially_attached_shape_keeps_its_resource() {
    let mut ids = ResourceIds::new();
    ids.fresh();
    ids.fresh();
    ids.fresh();
    let mut bare = triangle(rgba(0.2, 0.4, 0.6, 1.0));
    bare.update_vertex_buffer(1);
    let out = materialize_shape(&bare, &mut ids);
    // The existing buffer is kept; only the missing binding is attached.
    assert_eq!(out.get_vertex_buffer(), Some(1));
    assert_eq!(out.get_descriptor_set(), Some(3));
    assert_eq!(ids.next, 4);
}

#[test]
fn scenario_two_triangles_draw_in_registration_order() {
    let red = rgba(1.0, 0.0, 0.0, 1.0);
    let green = rgba(0.0, 1.0, 0.0, 1.0);
    let mut v = make_renderer(3, 1, vec![triangle(red), triangle(green)]);

    // One redraw, as the host loop would run it.
    let sp = render_plan(&v, 0, false);
    assert_eq!(sp.image_index, 0);
    v.commit_redraw(0, false, SubmitOutcome::Submitted { fence: 100 });

    // Registration order is kept, and resources were attached in it.
    assert_eq!(v.elements[0].get_color(), red);
    assert_eq!(v.elements[1].get_color(), green);
    let red_binding = v.elements[0].get_descriptor_set().unwrap();
    let red_buffer = v.elements[0].get_vertex_buffer().unwrap();
    let green_binding = v.elements[1].get_descriptor_set().unwrap();
    let green_buffer = v.elements[1].get_vertex_buffer().unwrap();
    assert_eq!((red_binding, red_buffer, green_binding, green_buffer), (0, 1, 2, 3));

    // Each of the three per-image submissions records the two draws, red
    // before green.
    assert_eq!(v.submissions.len(), 3);
    for (i, sub) in v.submissions.iter().enumerate() {
        assert_eq!(sub.framebuffer, v.framebuffers[i]);
        let c = &sub.commands;
        assert_eq!(c.len(), 9);
        match c[0] {
            Command::BeginRenderPass { framebuffer, clear_color, clear_value_count } => {
                assert_eq!(framebuffer, v.framebuffers[i]);
                assert_eq!(f32::from_bits(clear_color.r), 0.1);
                assert_eq!(f32::from_bits(clear_color.g), 0.1);
                assert_eq!(f32::from_bits(clear_color.b), 0.1);
                assert_eq!(f32::from_bits(clear_color.a), 1.0);
                assert_eq!(clear_value_count, 1);
            }
            _ => panic!("pass must be opened first"),
        }
        assert_eq!(c[1], Command::BindPipeline);
        assert_eq!(c[2], Command::BindDescriptorSet { set_index: 0, descriptor_set: red_binding });
        assert_eq!(c[3], Command::BindVertexBuffer { slot: 0, vertex_buffer: red_buffer });
        assert_eq!(c[4], Command::Draw { vertex_count: 3, instance_count: 1 });
        assert_eq!(
            c[5],
            Command::BindDescriptorSet { set_index: 0, descriptor_set: green_binding }
        );
        assert_eq!(c[6], Command::BindVertexBuffer { slot: 0, vertex_buffer: green_buffer });
        assert_eq!(c[7], Command::Draw { vertex_count: 3, instance_count: 1 });
        assert_eq!(c[8], Command::EndRenderPass);
    }
}

#[test]
fn multisampled_passes_clear_both_attachments() {
    let v = make_renderer(2, 4, vec![triangle(rgba(1.0, 0.0, 0.0, 1.0))]);
    for fb in &v.framebuffers {
        assert!(fb.multisampled);
    }
    for sub in &v.submissions {
        match sub.commands[0] {
            Command::BeginRenderPass { clear_value_count, .. } => {
                assert_eq!(clear_value_count, 2);
            }
            _ => panic!("pass must be opened first"),
        }
    }
}

#[test]
fn rectangle_submission_draws_six_vertices() {
    let v = make_renderer(1, 1, vec![Shape::new_rectangle(
        -100,
        -100,
        200,
        200,
        rgba(0.0, 0.5, 1.0, 1.0),
    )]);
    let c = &v.submissions[0].commands;
    assert_eq!(c[4], Command::Draw { vertex_count: 6, instance_count: 1 });
}

#[test]
fn resource_ids_are_handed_out_in_order() {
    let mut ids = ResourceIds::new();
    assert_eq!(ids.fresh(), 0);
    assert_eq!(ids.fresh(), 1);
    assert_eq!(ids.fresh(), 2);
    assert_eq!(ids.next, 3);
}
