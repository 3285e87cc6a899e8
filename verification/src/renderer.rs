//! The renderer: swapchain generations and the frame scheduler.
//!
//! `Vulkan` holds one swapchain generation — framebuffers, pipeline
//! configuration and precomputed submissions — together with the fence-slot
//! array that paces frames. The host program owns the real device objects;
//! it feeds acquisition results in, performs the waits, submissions and
//! presents a redraw plan calls for, and reports the outcome back.

use vstd::prelude::*;

use crate::commands::ResourceIds;
use crate::commands::Submission;
use crate::commands::attached_with_ids;
use crate::commands::ids_needed;
use crate::commands::lemma_attach_idempotent;
use crate::commands::lemma_ids_needed_bound;
use crate::commands::lemma_ids_needed_zero;
use crate::commands::record_commands;
use crate::commands::same_state;
use crate::commands::submission_commands;
use crate::pipeline::PipelineConfig;
use crate::pipeline::ShaderInterface;
use crate::pipeline::build_pipeline_config;
use crate::pipeline::valid_sample_count;
use crate::shape::Shape;
use crate::swapchain::Extent;
use crate::swapchain::FramebufferInfo;
use crate::swapchain::SwapchainPlan;
use crate::swapchain::build_framebuffers;

verus! {

/// What acquiring the next presentable image reported.
#[derive(Clone, Copy, Debug, PartialEq, Eq, Structural)]
pub enum AcquireResult {
    /// The swapchain is unusable; nothing was acquired.
    OutOfDate,
    /// An image was acquired; `suboptimal` reports that the swapchain no
    /// longer matches the surface exactly.
    Ready { image_index: usize, suboptimal: bool },
}

/// What submitting and presenting one frame reported.
#[derive(Clone, Copy, Debug, PartialEq, Eq, Structural)]
pub enum SubmitOutcome {
    /// The chain was submitted and a new completion fence was created.
    Submitted { fence: u64 },
    /// The swapchain became unusable; the fence cannot be trusted.
    OutOfDate,
    /// Another submission failure; tolerated, the slot is left empty.
    OtherFailure,
}

/// The actions one redraw must perform, in order: wait for `wait_fence` if
/// present (drain), then chain `chain_fence` (or an already-complete base
/// dependency if empty) with the acquisition, execute the submission for
/// `image_index`, present that image, and request a new completion fence.
#[derive(Clone, Copy, Debug, PartialEq, Eq, Structural)]
pub struct SubmitPlan {
    pub image_index: usize,
    /// The acquired image's own previous fence; it must be waited on before
    /// that image's resources are touched again.
    pub wait_fence: Option<u64>,
    /// The fence of the previously submitted image, which the new submission
    /// depends on.
    pub chain_fence: Option<u64>,
    pub suboptimal: bool,
}

/// What one redraw call decides.
#[derive(Clone, Copy, Debug, PartialEq, Eq, Structural)]
pub enum RedrawPlan {
    /// Abort the redraw and have the swapchain recreated; no fence slot is
    /// touched.
    MustRecreate,
    /// Render this frame.
    Render(SubmitPlan),
}

/// Recreation failures; all of them are fatal to the recreation attempt.
#[derive(Clone, Copy, Debug, PartialEq, Eq, Structural)]
pub enum RecreateError {
    /// The requested extent has zero area (for instance a minimized window).
    /// The policy is to fail the attempt, not to clamp the extent.
    EmptyExtent,
}

/// One swapchain generation plus the frame scheduler's state.
pub struct Vulkan {
    /// The registered shapes, in registration (and so draw) order.
    pub elements: Vec<Shape>,
    /// One framebuffer per presentable image of the current generation.
    pub framebuffers: Vec<FramebufferInfo>,
    /// One precomputed submission per presentable image.
    pub submissions: Vec<Submission>,
    /// One completion-fence slot per presentable image; a slot holds a fence
    /// only while GPU work targeting that image may still be in flight.
    pub fences: Vec<Option<u64>>,
    /// The image index of the most recently submitted frame.
    pub previous_fence: usize,
    /// Counts swapchain generations; bumped by every recreation.
    pub generation: u64,
    /// The choices the swapchain was created with.
    pub plan: SwapchainPlan,
    /// The configured multisample count.
    pub sample_count: u32,
    /// What the shader programs consume, as reflected once at startup.
    pub shader: ShaderInterface,
    /// The current generation's pipeline configuration.
    pub pipeline: PipelineConfig,
    /// Hands out handles for lazily attached shape resources.
    pub ids: ResourceIds,
}

impl Vulkan {
    /// How many presentable images (and so framebuffers, submissions and
    /// fence slots) the current generation has.
    pub open spec fn spec_image_count(self) -> nat {
        self.framebuffers@.len()
    }

    /// The renderer's invariant: the fence-slot array matches the image
    /// count, every framebuffer belongs to the current generation at the
    /// current extent, every submission replays the recorded command list
    /// for its framebuffer, and every shape is materialized.
    pub open spec fn wf(self) -> bool {
        &&& self.framebuffers@.len() >= 1
        &&& self.fences@.len() == self.framebuffers@.len()
        &&& self.submissions@.len() == self.framebuffers@.len()
        &&& (self.previous_fence as int) < self.fences@.len()
        &&& forall|i: int|
            0 <= i < self.framebuffers@.len() ==> #[trigger] self.framebuffers@[i]
                == (FramebufferInfo {
                generation: self.generation,
                image_index: i as usize,
                extent: self.plan.extent,
                multisampled: self.sample_count > 1,
            })
        &&& forall|i: int|
            0 <= i < self.submissions@.len() ==> {
                &&& (#[trigger] self.submissions@[i]).framebuffer == self.framebuffers@[i]
                &&& self.submissions@[i].commands@ == submission_commands(
                    self.framebuffers@[i],
                    self.elements@,
                )
            }
        &&& forall|k: int| 0 <= k < self.elements@.len() ==> (#[trigger] self.elements@[k]).materialized()
        &&& valid_sample_count(self.sample_count)
        &&& self.pipeline.wf_for(self.plan.extent, self.sample_count, self.shader)
    }

    /// How many presentable images the current generation has.
    pub fn image_count(&self) -> (n: usize)
        ensures
            n == self.spec_image_count(),
    {
        self.framebuffers.len()
    }

    /// Builds the renderer for a freshly created swapchain: framebuffers of
    /// generation zero at the planned extent, the pipeline configuration for
    /// that extent, the per-image submissions (attaching the shapes' GPU
    /// resources on this first recording pass), and an all-empty fence-slot
    /// array with one slot per image.
    pub fn initialize(
        plan: SwapchainPlan,
        image_count: usize,
        elements: Vec<Shape>,
        sample_count: u32,
        shader: ShaderInterface,
    ) -> (v: Vulkan)
        requires
            image_count >= 1,
            valid_sample_count(sample_count),
            elements@.len() <= 0x4000_0000_0000_0000,
        ensures
            v.wf(),
            v.generation == 0,
            v.plan == plan,
            v.sample_count == sample_count,
            v.spec_image_count() == image_count,
            v.fences@.len() == image_count,
            forall|i: int| 0 <= i < image_count ==> (#[trigger] v.fences@[i]) is None,
            v.previous_fence == 0,
            attached_with_ids(elements@, v.elements@, 0),
    {
        proof {
            lemma_ids_needed_bound(elements@);
        }
        let framebuffers = build_framebuffers(0, image_count, plan.extent, sample_count);
        let pipeline = build_pipeline_config(plan.extent, sample_count, &shader);
        let mut elements = elements;
        let ghost elements_in = elements@;
        let mut ids = ResourceIds::new();
        let submissions = record_commands(&framebuffers, &mut elements, &mut ids);
        proof {
            assert forall|k: int|
                0 <= k < elements@.len() implies (#[trigger] elements@[k]).materialized() by {
                assert(crate::commands::materialized_from(
                    elements_in[k],
                    elements@[k],
                    ids_needed(elements_in.take(k)) as int,
                ));
            }
        }
        let mut fences: Vec<Option<u64>> = Vec::new();
        let mut i: usize = 0;
        while i < image_count
            invariant
                i <= image_count,
                fences@.len() == i,
                forall|k: int| 0 <= k < i ==> (#[trigger] fences@[k]) is None,
            decreases image_count - i,
        {
            fences.push(None);
            i = i + 1;
        }
        Vulkan {
            elements,
            framebuffers,
            submissions,
            fences,
            previous_fence: 0,
            generation: 0,
            plan,
            sample_count,
            shader,
            pipeline,
            ids,
        }
    }

    /// Discards and rebuilds the whole generation against a new extent and
    /// image count: new framebuffers, a new pipeline configuration and new
    /// submissions; nothing of the old generation is kept. A zero-area
    /// extent fails the attempt — the policy is to fail, not to clamp — and
    /// leaves the renderer untouched. Fence slots are carried over where the
    /// image index still exists; new slots start empty.
    pub fn recreate_swapchain(&mut self, new_extent: Extent, new_image_count: usize) -> (r: Result<
        (),
        RecreateError,
    >)
        requires
            old(self).wf(),
            new_image_count >= 1,
            old(self).generation < u64::MAX,
        ensures
            final(self).wf(),
            r is Err <==> new_extent.is_empty(),
            r is Err ==> *final(self) == *old(self),
            r is Ok ==> {
                &&& final(self).generation == old(self).generation + 1
                &&& final(self).plan == (SwapchainPlan { extent: new_extent, ..old(self).plan })
                &&& final(self).sample_count == old(self).sample_count
                &&& final(self).spec_image_count() == new_image_count
                &&& forall|i: int|
                    0 <= i < new_image_count ==> {
                        &&& (#[trigger] final(self).framebuffers@[i]).extent == new_extent
                        &&& final(self).framebuffers@[i].generation == old(self).generation + 1
                    }
                &&& forall|i: int|
                    0 <= i < new_image_count ==> (#[trigger] final(self).submissions@[i])
                        .framebuffer.generation == old(self).generation + 1
                &&& final(self).elements@.len() == old(self).elements@.len()
                &&& forall|k: int|
                    0 <= k < old(self).elements@.len() ==> same_state(
                        #[trigger] final(self).elements@[k],
                        old(self).elements@[k],
                    )
                &&& final(self).ids == old(self).ids
                &&& final(self).fences@.len() == new_image_count
                &&& forall|i: int|
                    0 <= i < new_image_count ==> #[trigger] final(self).fences@[i] == (
                    if i < old(self).fences@.len() {
                        old(self).fences@[i]
                    } else {
                        None
                    })
                &&& final(self).previous_fence == (if (old(self).previous_fence as int)
                    < new_image_count {
                    old(self).previous_fence
                } else {
                    0
                })
            },
    {
        if new_extent.width == 0 || new_extent.height == 0 {
            return Err(RecreateError::EmptyExtent);
        }
        proof {
            lemma_ids_needed_zero(self.elements@);
        }
        let new_generation = self.generation + 1;
        self.generation = new_generation;
        self.plan = SwapchainPlan { extent: new_extent, ..self.plan };
        self.framebuffers = build_framebuffers(
            new_generation,
            new_image_count,
            new_extent,
            self.sample_count,
        );
        self.pipeline = build_pipeline_config(new_extent, self.sample_count, &self.shader);
        let ghost elements_before = self.elements@;
        let ghost ids_before = self.ids;
        self.submissions = record_commands(&self.framebuffers, &mut self.elements, &mut self.ids);
        proof {
            lemma_attach_idempotent(elements_before, self.elements@, ids_before.next as int);
        }
        let mut new_fences: Vec<Option<u64>> = Vec::new();
        let mut i: usize = 0;
        while i < new_image_count
            invariant
                i <= new_image_count,
                new_fences@.len() == i,
                forall|k: int|
                    0 <= k < i ==> #[trigger] new_fences@[k] == (if k < self.fences@.len() {
                        self.fences@[k]
                    } else {
                        None
                    }),
            decreases new_image_count - i,
        {
            let slot = if i < self.fences.len() {
                self.fences[i]
            } else {
                None
            };
            new_fences.push(slot);
            i = i + 1;
        }
        self.fences = new_fences;
        if self.previous_fence >= new_image_count {
            self.previous_fence = 0;
        }
        Ok(())
    }
}

/// The fence a commit stores in the acquired image's slot: the new
/// completion fence on success, nothing when the outcome was stale or a
/// tolerated failure.
pub open spec fn spec_commit_fence(outcome: SubmitOutcome) -> Option<u64> {
    match outcome {
        SubmitOutcome::Submitted { fence } => Some(fence),
        SubmitOutcome::OutOfDate => None,
        SubmitOutcome::OtherFailure => None,
    }
}

/// What a redraw decides from the acquisition report alone: abort on a
/// stale swapchain without touching anything, else render the acquired
/// image — draining that image's own previous fence first and chaining the
/// previously submitted image's fence into the new submission.
pub open spec fn spec_plan_redraw(v: Vulkan, acquire: AcquireResult) -> RedrawPlan {
    match acquire {
        AcquireResult::OutOfDate => RedrawPlan::MustRecreate,
        AcquireResult::Ready { image_index, suboptimal } => RedrawPlan::Render(
            SubmitPlan {
                image_index,
                wait_fence: v.fences@[image_index as int],
                chain_fence: v.fences@[v.previous_fence as int],
                suboptimal,
            },
        ),
    }
}

impl Vulkan {
    /// Decides one redraw from the acquisition report. The renderer is not
    /// changed; a `MustRecreate` plan in particular leaves every fence slot
    /// as it was. The host performs the plan's actions in order and then
    /// reports the outcome to `commit_redraw`.
    pub fn plan_redraw(&self, acquire: AcquireResult) -> (plan: RedrawPlan)
        requires
            self.wf(),
            acquire matches AcquireResult::Ready { image_index, .. } ==> (image_index as int)
                < self.spec_image_count(),
        ensures
            plan == spec_plan_redraw(*self, acquire),
    {
        match acquire {
            AcquireResult::OutOfDate => RedrawPlan::MustRecreate,
            AcquireResult::Ready { image_index, suboptimal } => {
                let wait_fence = self.fences[image_index];
                let chain_fence = self.fences[self.previous_fence];
                RedrawPlan::Render(SubmitPlan { image_index, wait_fence, chain_fence, suboptimal })
            },
        }
    }

    /// Commits one rendered frame: stores the outcome's fence (or clears the
    /// slot when the outcome was stale or failed), records the image as the
    /// previously submitted one, and reports whether the swapchain should be
    /// recreated before the next redraw — which is the case exactly when
    /// acquisition was suboptimal or presentation reported staleness.
    pub fn commit_redraw(
        &mut self,
        image_index: usize,
        suboptimal: bool,
        outcome: SubmitOutcome,
    ) -> (needs_recreate: bool)
        requires
            old(self).wf(),
            (image_index as int) < old(self).spec_image_count(),
        ensures
            final(self).wf(),
            final(self).fences@ == old(self).fences@.update(
                image_index as int,
                spec_commit_fence(outcome),
            ),
            final(self).previous_fence == image_index,
            needs_recreate == (suboptimal || outcome is OutOfDate),
            final(self).elements == old(self).elements,
            final(self).framebuffers == old(self).framebuffers,
            final(self).submissions == old(self).submissions,
            final(self).generation == old(self).generation,
            final(self).plan == old(self).plan,
            final(self).sample_count == old(self).sample_count,
            final(self).ids == old(self).ids,
    {
        let slot = match outcome {
            SubmitOutcome::Submitted { fence } => Some(fence),
            SubmitOutcome::OutOfDate => None,
            SubmitOutcome::OtherFailure => None,
        };
        self.fences.set(image_index, slot);
        self.previous_fence = image_index;
        let stale = match outcome {
            SubmitOutcome::OutOfDate => true,
            SubmitOutcome::Submitted { .. } => false,
            SubmitOutcome::OtherFailure => false,
        };
        suboptimal || stale
    }
}

/// Frame pacing: once a frame has been submitted to image `i`, a later
/// redraw that acquires `i` again — with no recreation and no other commit
/// to that slot in between — is instructed to wait on exactly that frame's
/// completion fence before anything new is submitted to `i`; and, since `i`
/// is now the previously submitted image, the new submission is chained on
/// that same fence.
pub proof fn lemma_frame_pacing(
    v_before: Vulkan,
    v_after: Vulkan,
    image_index: usize,
    fence: u64,
    suboptimal: bool,
)
    requires
        v_before.wf(),
        (image_index as int) < v_before.spec_image_count(),
        v_after.wf(),
        v_after.fences@ == v_before.fences@.update(image_index as int, Some(fence)),
        v_after.previous_fence == image_index,
    ensures
        spec_plan_redraw(v_after, AcquireResult::Ready { image_index, suboptimal })
            == RedrawPlan::Render(
            SubmitPlan {
                image_index,
                wait_fence: Some(fence),
                chain_fence: Some(fence),
                suboptimal,
            },
        ),
{
}

/// The fence-slot array always has exactly one slot per presentable image;
/// `initialize` and `recreate_swapchain` establish this for their image
/// count, and every redraw preserves it.
pub proof fn lemma_one_slot_per_image(v: Vulkan)
    requires
        v.wf(),
    ensures
        v.fences@.len() == v.spec_image_count(),
{
}

/// Every submission of a well-formed renderer opens its render pass on a
/// framebuffer of the current generation at the current extent: after a
/// recreation, no submission can reference the previous generation.
pub proof fn lemma_submissions_current_generation(v: Vulkan, i: int)
    requires
        v.wf(),
        0 <= i < v.submissions@.len(),
    ensures
        v.submissions@[i].framebuffer.generation == v.generation,
        v.submissions@[i].framebuffer.extent == v.plan.extent,
        v.submissions@[i].commands@[0] == (crate::commands::Command::BeginRenderPass {
            framebuffer: v.submissions@[i].framebuffer,
            clear_color: crate::commands::spec_clear_color(),
            clear_value_count: v.submissions@[i].framebuffer.attachment_count() as usize,
        }),
{
}

} // verus!
