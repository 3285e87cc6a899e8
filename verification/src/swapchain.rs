//! Swapchain planning: the choices made when the presentable-image chain is
//! created.
//!
//! Surface formats, composite-alpha modes and presentation modes are carried
//! as the raw numeric codes of the graphics API, in the order the surface
//! reports them; the plan picks among them without touching the device.

use vstd::prelude::*;

verus! {

/// A surface size in pixels.
#[derive(Clone, Copy, Debug, PartialEq, Eq, Structural)]
pub struct Extent {
    pub width: u32,
    pub height: u32,
}

impl Extent {
    /// An extent with no area cannot be rendered to.
    pub open spec fn is_empty(self) -> bool {
        self.width == 0 || self.height == 0
    }
}

/// How presented images are paced against the display.
#[derive(Clone, Copy, Debug, PartialEq, Eq, Structural)]
pub enum PresentMode {
    /// Present immediately; tearing is possible.
    Immediate,
    /// First-in first-out, locked to the vertical blank.
    Fifo,
}

/// What the surface reports about itself before a swapchain is created.
pub struct SurfaceCapabilities {
    /// The fewest images a swapchain on this surface may have.
    pub min_image_count: u32,
    /// The supported composite-alpha modes, in the order the surface reports
    /// them.
    pub supported_composite_alpha: Vec<u32>,
}

/// The choices a swapchain is created with.
#[derive(Clone, Copy, Debug, PartialEq, Eq, Structural)]
pub struct SwapchainPlan {
    pub min_image_count: u32,
    pub image_format: u32,
    pub composite_alpha: u32,
    pub present_mode: PresentMode,
    pub extent: Extent,
}

/// One framebuffer of one swapchain generation: the image views a render
/// pass writes into for one presentable image.
///
/// When multisampling is configured the framebuffer pairs a transient
/// multisample attachment with the presentable image's view and resolves
/// into it, so it has two attachments; otherwise it has only the image view.
#[derive(Clone, Copy, Debug, PartialEq, Eq, Structural)]
pub struct FramebufferInfo {
    /// Which swapchain generation the framebuffer belongs to.
    pub generation: u64,
    /// Which presentable image it targets.
    pub image_index: usize,
    pub extent: Extent,
    /// Whether a multisample attachment is paired with the image view.
    pub multisampled: bool,
}

impl FramebufferInfo {
    /// How many attachments the framebuffer has, and so how many clear
    /// values a pass over it takes.
    pub open spec fn attachment_count(self) -> int {
        if self.multisampled {
            2
        } else {
            1
        }
    }
}

/// Builds the framebuffer set of one swapchain generation: one framebuffer
/// per presentable image, all at the same extent, each with a multisample
/// attachment exactly when more than one sample is configured.
pub fn build_framebuffers(
    generation: u64,
    image_count: usize,
    extent: Extent,
    sample_count: u32,
) -> (framebuffers: Vec<FramebufferInfo>)
    ensures
        framebuffers@.len() == image_count,
        forall|i: int|
            0 <= i < image_count ==> #[trigger] framebuffers@[i] == (FramebufferInfo {
                generation,
                image_index: i as usize,
                extent,
                multisampled: sample_count > 1,
            }),
{
    let multisampled = sample_count > 1;
    let mut framebuffers: Vec<FramebufferInfo> = Vec::new();
    let mut i: usize = 0;
    while i < image_count
        invariant
            i <= image_count,
            framebuffers@.len() == i,
            forall|k: int|
                0 <= k < i ==> #[trigger] framebuffers@[k] == (FramebufferInfo {
                    generation,
                    image_index: k as usize,
                    extent,
                    multisampled,
                }),
        decreases image_count - i,
    {
        framebuffers.push(FramebufferInfo { generation, image_index: i, extent, multisampled });
        i = i + 1;
    }
    framebuffers
}

/// The fixed format preference list: 16-bit packed formats first, then
/// 24-bit, then 32-bit, then the 32-bit sRGB variants.
pub open spec fn preferred_format_order() -> Seq<u32> {
    seq![
        FORMAT_R5G6B5_UNORM_PACK16,
        FORMAT_A1R5G5B5_UNORM_PACK16,
        FORMAT_B4G4R4A4_UNORM_PACK16,
        FORMAT_R8G8B8_UNORM,
        FORMAT_B8G8R8_UNORM,
        FORMAT_R8G8B8A8_UNORM,
        FORMAT_B8G8R8A8_UNORM,
        FORMAT_R8G8B8A8_SRGB,
        FORMAT_B8G8R8A8_SRGB,
    ]
}

/// 16 bits per pixel.
pub const FORMAT_R5G6B5_UNORM_PACK16: u32 = 4;

/// 16 bits per pixel.
pub const FORMAT_A1R5G5B5_UNORM_PACK16: u32 = 8;

/// 16 bits per pixel.
pub const FORMAT_B4G4R4A4_UNORM_PACK16: u32 = 3;

/// 24 bits per pixel.
pub const FORMAT_R8G8B8_UNORM: u32 = 23;

/// 24 bits per pixel.
pub const FORMAT_B8G8R8_UNORM: u32 = 30;

/// 32 bits per pixel.
pub const FORMAT_R8G8B8A8_UNORM: u32 = 37;

/// 32 bits per pixel.
pub const FORMAT_B8G8R8A8_UNORM: u32 = 44;

/// 32 bits per pixel, sRGB.
pub const FORMAT_R8G8B8A8_SRGB: u32 = 43;

/// 32 bits per pixel, sRGB.
pub const FORMAT_B8G8R8A8_SRGB: u32 = 50;

/// The first entry of `order` that `available` offers, or `fallback` if none
/// is offered.
pub open spec fn choose_from(order: Seq<u32>, available: Seq<u32>, fallback: u32) -> u32
    decreases order.len(),
{
    if order.len() == 0 {
        fallback
    } else if available.contains(order[0]) {
        order[0]
    } else {
        choose_from(order.drop_first(), available, fallback)
    }
}

/// The format the swapchain is created with: the first entry of the
/// preference list that the surface offers, else the first format the
/// surface reports.
pub open spec fn chosen_format(available: Seq<u32>) -> u32 {
    choose_from(preferred_format_order(), available, available[0])
}

proof fn lemma_choose_from_skip(order: Seq<u32>, available: Seq<u32>, fallback: u32, i: int)
    requires
        0 <= i <= order.len(),
        forall|j: int| 0 <= j < i ==> !available.contains(#[trigger] order[j]),
    ensures
        choose_from(order, available, fallback) == choose_from(order.skip(i), available, fallback),
    decreases i,
{
    if i > 0 {
        assert(!available.contains(order[0]));
        lemma_choose_from_skip(order.drop_first(), available, fallback, i - 1);
        assert(order.drop_first().skip(i - 1) =~= order.skip(i));
    } else {
        assert(order.skip(0) =~= order);
    }
}

/// Whether `v` holds `x`.
fn vec_contains(v: &Vec<u32>, x: u32) -> (found: bool)
    ensures
        found == v@.contains(x),
{
    let mut i: usize = 0;
    while i < v.len()
        invariant
            i <= v@.len(),
            forall|k: int| 0 <= k < i ==> v@[k] != x,
        decreases v@.len() - i,
    {
        if v[i] == x {
            return true;
        }
        i = i + 1;
    }
    proof {
        assert(forall|k: int| 0 <= k < v@.len() ==> v@[k] != x);
    }
    false
}

/// The fixed format preference list as a vector.
fn preferred_formats() -> (v: Vec<u32>)
    ensures
        v@ == preferred_format_order(),
{
    let mut v: Vec<u32> = Vec::new();
    v.push(FORMAT_R5G6B5_UNORM_PACK16);
    v.push(FORMAT_A1R5G5B5_UNORM_PACK16);
    v.push(FORMAT_B4G4R4A4_UNORM_PACK16);
    v.push(FORMAT_R8G8B8_UNORM);
    v.push(FORMAT_B8G8R8_UNORM);
    v.push(FORMAT_R8G8B8A8_UNORM);
    v.push(FORMAT_B8G8R8A8_UNORM);
    v.push(FORMAT_R8G8B8A8_SRGB);
    v.push(FORMAT_B8G8R8A8_SRGB);
    proof {
        assert(v@ =~= preferred_format_order());
    }
    v
}

/// Picks the most memory-efficient surface format the surface offers,
/// following the fixed preference list, and falling back to the first
/// reported format when none of the preferred ones is offered.
pub fn choose_memory_efficient_format(available_formats: &Vec<u32>) -> (format: u32)
    requires
        available_formats@.len() > 0,
    ensures
        format == chosen_format(available_formats@),
{
    let order = preferred_formats();
    let ghost order_seq = preferred_format_order();
    let mut i: usize = 0;
    while i < order.len()
        invariant
            i <= order_seq.len(),
            order@ == order_seq,
            order_seq == preferred_format_order(),
            available_formats@.len() > 0,
            forall|j: int| 0 <= j < i ==> !available_formats@.contains(#[trigger] order_seq[j]),
        decreases order_seq.len() - i,
    {
        let candidate = order[i];
        if vec_contains(available_formats, candidate) {
            proof {
                lemma_choose_from_skip(
                    order_seq,
                    available_formats@,
                    available_formats@[0],
                    i as int,
                );
                let tail = order_seq.skip(i as int);
                assert(tail.len() > 0);
                assert(tail[0] == candidate);
                assert(available_formats@.contains(tail[0]));
                assert(choose_from(tail, available_formats@, available_formats@[0])
                    == candidate);
            }
            return candidate;
        }
        i = i + 1;
    }
    proof {
        lemma_choose_from_skip(
            order_seq,
            available_formats@,
            available_formats@[0],
            order_seq.len() as int,
        );
        assert(order_seq.skip(order_seq.len() as int).len() == 0);
    }
    available_formats[0]
}

/// The presentation mode a swapchain is created with: immediate presentation
/// when tearing is allowed, else vertical-sync-locked first-in first-out.
pub open spec fn spec_present_mode(allow_tearing: bool) -> PresentMode {
    if allow_tearing {
        PresentMode::Immediate
    } else {
        PresentMode::Fifo
    }
}

/// Plans a swapchain for a surface: minimum image count from the
/// capabilities, the most memory-efficient offered format, the first
/// supported composite-alpha mode, and the presentation mode implied by the
/// tearing policy.
pub fn plan_swapchain(
    caps: &SurfaceCapabilities,
    available_formats: &Vec<u32>,
    extent: Extent,
    allow_tearing: bool,
) -> (plan: SwapchainPlan)
    requires
        available_formats@.len() > 0,
        caps.supported_composite_alpha@.len() > 0,
    ensures
        plan.min_image_count == caps.min_image_count,
        plan.image_format == chosen_format(available_formats@),
        plan.composite_alpha == caps.supported_composite_alpha@[0],
        plan.present_mode == spec_present_mode(allow_tearing),
        plan.extent == extent,
{
    let image_format = choose_memory_efficient_format(available_formats);
    let present_mode = if allow_tearing {
        PresentMode::Immediate
    } else {
        PresentMode::Fifo
    };
    SwapchainPlan {
        min_image_count: caps.min_image_count,
        image_format,
        composite_alpha: caps.supported_composite_alpha[0],
        present_mode,
        extent,
    }
}

} // verus!
