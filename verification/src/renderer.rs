//! The renderer: owner of every graphics object in this core and driver of
//! the per-frame cycle wait-fence → reset-fence → acquire → record →
//! submit → present → advance. Exactly one frame is ever in flight, so the
//! one fence and the two semaphores bound the reuse of everything here.
//!
//! The renderer is a pure state machine: the unverified shell performs the
//! fence wait and the image acquisition, reports their outcomes, and gets
//! back either a complete plan for the frame — the recorded commands, the
//! submission and the presentation request — or a distinguishable error
//! telling it to stop or to rebuild the surface-bound objects.

use vstd::prelude::*;

use crate::command_manager::ClearValues;
use crate::command_manager::Command;
use crate::command_manager::CommandBufferRole;
use crate::command_manager::CommandManager;
use crate::command_manager::FenceRole;
use crate::command_manager::QueueFamilies;
use crate::command_manager::SemaphoreRole;
use crate::command_manager::SubmitRequest;
use crate::errors::InitError;
use crate::errors::RenderError;
use crate::geometry::upload_mesh;
use crate::geometry::valid_vertex_bytes;
use crate::geometry::Mesh;
use crate::geometry::UploadRequest;
use crate::layout::valid_format_pair;
use crate::layout::Format;
use crate::layout::RenderTargetLayout;
use crate::target::build_frame_targets;
use crate::target::Extent2d;
use crate::target::FrameTarget;

verus! {

/// Bit pattern of the 32-bit float 1.0, used for the alpha and depth clear
/// values.
pub const FLOAT_ONE_BITS: u32 = 0x3f80_0000;

/// The clear values every frame opens with: an opaque black background and
/// the depth buffer cleared to the far plane.
pub open spec fn engine_clear_values() -> ClearValues {
    ClearValues {
        color_r_bits: 0,
        color_g_bits: 0,
        color_b_bits: 0,
        color_a_bits: FLOAT_ONE_BITS,
        depth_bits: FLOAT_ONE_BITS,
        stencil: 0,
    }
}

/// What the surface reported when asked for the next presentable image.
#[derive(Clone, Copy, PartialEq, Eq, Structural, Debug)]
pub enum AcquireOutcome {
    /// An image is available; the present semaphore will be signaled when
    /// the presentation engine is done with it.
    Acquired { index: u32, suboptimal: bool },
    /// The surface is out of date (for example after a resize); the
    /// swapchain-bound objects must be rebuilt before rendering again.
    OutOfDate,
    /// Acquisition failed for another, unrecoverable reason.
    Failed,
}

/// The presentation request that closes a frame: hand the acquired image
/// back to the surface once the render semaphore is signaled.
#[derive(Debug)]
pub struct PresentRequest {
    pub image_index: u32,
    pub wait_semaphores: Vec<SemaphoreRole>,
}

/// Everything the shell must do to finish one frame: replay the recorded
/// commands into the main buffer, enqueue the submission, and present.
/// `framenumber` is the number of the frame being drawn, from which the
/// shell derives the per-frame transforms.
#[derive(Debug)]
pub struct FramePlan {
    pub image_index: u32,
    pub framenumber: u64,
    pub submit: SubmitRequest,
    pub present: PresentRequest,
}

/// What the swapchain collaborator exposes: the chosen formats, one color
/// view handle per presentable image, the shared depth view, and the
/// surface extent.
#[derive(Debug)]
pub struct SwapchainDescription {
    pub color_format: Format,
    pub depth_format: Format,
    pub color_views: Vec<u64>,
    pub depth_view: u64,
    pub extent: Extent2d,
}

/// One named, decoded geometry source to be uploaded at startup.
#[derive(Debug)]
pub struct MeshSource {
    pub name: String,
    pub vertex_bytes: Vec<u8>,
}

/// One step of the teardown walk, children before parents: geometry before
/// the sync objects, framebuffers before the render pass they reference,
/// the command pools last.
#[derive(Clone, Copy, PartialEq, Eq, Structural, Debug)]
pub enum DestroyOp {
    /// Block on the frame fence so no in-flight work can still reference
    /// what follows.
    WaitFrameFence,
    /// Release the device buffer and allocation of one mesh slot.
    FreeMeshBuffer { mesh: usize },
    DestroySemaphore { semaphore: SemaphoreRole },
    DestroyFence { fence: FenceRole },
    DestroyPipeline,
    DestroyFramebuffer { target: usize },
    DestroyRenderPass,
    DestroyCommandPool { pool: CommandBufferRole },
}

/// The draw commands for the first `n` mesh slots, in arena order: bind the
/// slot's vertex buffer, set its push constants, draw its vertices once.
pub open spec fn mesh_draw_commands(meshes: Seq<Mesh>, n: int) -> Seq<Command>
    decreases n,
{
    if n <= 0 {
        Seq::empty()
    } else {
        mesh_draw_commands(meshes, n - 1).push(
            Command::BindVertexBuffers { first_binding: 0, mesh: (n - 1) as usize, offset: 0 },
        ).push(Command::PushConstants { mesh: (n - 1) as usize }).push(
            Command::Draw {
                vertex_count: meshes[n - 1].vertex_count,
                instance_count: 1,
                first_vertex: 0,
                first_instance: 0,
            },
        )
    }
}

/// The two commands every frame opens with: the render pass on the acquired
/// image's target, and the mesh pipeline.
pub open spec fn frame_prefix(image_index: usize) -> Seq<Command> {
    seq![
        (Command::BeginRenderPass { target: image_index, clear: engine_clear_values() }),
        Command::BindPipeline,
    ]
}

/// Everything one frame records: the prefix, one draw group per mesh slot,
/// and the render-pass close.
pub open spec fn frame_commands(meshes: Seq<Mesh>, image_index: usize) -> Seq<Command> {
    frame_prefix(image_index) + mesh_draw_commands(meshes, meshes.len() as int) + seq![
        Command::EndRenderPass,
    ]
}

/// How many draw calls a command list holds.
pub open spec fn draw_calls(commands: Seq<Command>) -> int
    decreases commands.len(),
{
    if commands.len() == 0 {
        0
    } else {
        draw_calls(commands.drop_last()) + if commands.last() is Draw {
            1int
        } else {
            0int
        }
    }
}

proof fn lemma_draw_calls_push(s: Seq<Command>, c: Command)
    ensures
        draw_calls(s.push(c)) == draw_calls(s) + if c is Draw {
            1int
        } else {
            0int
        },
{
    assert(s.push(c).drop_last() =~= s);
    assert(s.push(c).last() == c);
}

proof fn lemma_draw_calls_add(a: Seq<Command>, b: Seq<Command>)
    ensures
        draw_calls(a + b) == draw_calls(a) + draw_calls(b),
    decreases b.len(),
{
    if b.len() == 0 {
        assert(a + b =~= a);
    } else {
        lemma_draw_calls_add(a, b.drop_last());
        assert((a + b).drop_last() =~= a + b.drop_last());
        assert((a + b).last() == b.last());
    }
}

proof fn lemma_mesh_draw_commands_draw_calls(meshes: Seq<Mesh>, n: int)
    requires
        0 <= n,
    ensures
        draw_calls(mesh_draw_commands(meshes, n)) == n,
    decreases n,
{
    if n > 0 {
        lemma_mesh_draw_commands_draw_calls(meshes, n - 1);
        let base = mesh_draw_commands(meshes, n - 1);
        let c1 = Command::BindVertexBuffers { first_binding: 0, mesh: (n - 1) as usize, offset: 0 };
        let c2 = Command::PushConstants { mesh: (n - 1) as usize };
        let c3 = Command::Draw {
            vertex_count: meshes[n - 1].vertex_count,
            instance_count: 1,
            first_vertex: 0,
            first_instance: 0,
        };
        lemma_draw_calls_push(base, c1);
        lemma_draw_calls_push(base.push(c1), c2);
        lemma_draw_calls_push(base.push(c1).push(c2), c3);
    }
}

/// A frame records exactly one draw call per renderable mesh slot — and so
/// an empty renderable set records none at all.
pub proof fn lemma_one_draw_per_mesh(meshes: Seq<Mesh>, image_index: usize)
    ensures
        draw_calls(frame_commands(meshes, image_index)) == meshes.len(),
{
    let prefix = frame_prefix(image_index);
    let draws = mesh_draw_commands(meshes, meshes.len() as int);
    lemma_mesh_draw_commands_draw_calls(meshes, meshes.len() as int);
    let open_pass = Command::BeginRenderPass { target: image_index, clear: engine_clear_values() };
    assert(prefix =~= Seq::empty().push(open_pass).push(Command::BindPipeline));
    lemma_draw_calls_push(Seq::empty(), open_pass);
    lemma_draw_calls_push(Seq::empty().push(open_pass), Command::BindPipeline);
    lemma_draw_calls_add(prefix, draws);
    lemma_draw_calls_add(prefix + draws, seq![Command::EndRenderPass]);
    assert(seq![Command::EndRenderPass] =~= Seq::empty().push(Command::EndRenderPass));
    lemma_draw_calls_push(Seq::empty(), Command::EndRenderPass);
}

/// The renderer: the immutable layout, one frame target per swapchain
/// image, the command recorder, the mesh arena with its name registry, and
/// the frame-synchronization state — the frame counter and the model of the
/// one fence. `fence_signaled` says the fence is signaled now;
/// `fence_pending` says a submission in flight will signal it.
pub struct Renderer {
    pub framenumber: u64,
    pub layout: RenderTargetLayout,
    pub targets: Vec<FrameTarget>,
    pub command_manager: CommandManager,
    pub fence_signaled: bool,
    pub fence_pending: bool,
    pub meshes: Vec<Mesh>,
    pub mesh_names: Vec<String>,
    pub extent: Extent2d,
    pub torn_down: bool,
}

impl Renderer {
    /// Well-formedness: the layout is internally consistent, there is a
    /// target to render into, every mesh slot is an uploaded mesh with its
    /// registry name, and the recorder is between frames.
    pub open spec fn wf(self) -> bool {
        &&& self.layout.wf()
        &&& self.targets@.len() > 0
        &&& self.extent.is_nonzero()
        &&& self.mesh_names@.len() == self.meshes@.len()
        &&& forall|i: int|
            0 <= i < self.meshes@.len() ==> (#[trigger] self.meshes@[i]).wf()
                && self.meshes@[i].is_uploaded()
        &&& self.command_manager.is_quiescent()
    }

    /// The wait that opens the next cycle terminates under normal GPU
    /// completion: the fence is already signaled, or work in flight will
    /// signal it.
    pub open spec fn cycle_wait_terminates(self) -> bool {
        self.fence_signaled || self.fence_pending
    }

    /// The renderer after an aborted cycle: the fence was already reset
    /// when the abort happened, and nothing was submitted that would
    /// signal it.
    pub open spec fn aborted_after_reset(r: Renderer) -> Renderer {
        Renderer { fence_signaled: false, fence_pending: false, ..r }
    }

    /// Inputs `new` accepts: at least one swapchain image, a drawable
    /// extent, a usable format pair, and every geometry source uploadable.
    pub open spec fn valid_init(swapchain: SwapchainDescription, sources: Seq<MeshSource>) -> bool {
        &&& swapchain.color_views@.len() > 0
        &&& swapchain.extent.is_nonzero()
        &&& valid_format_pair(swapchain.color_format, swapchain.depth_format)
        &&& forall|i: int|
            0 <= i < sources.len() ==> valid_vertex_bytes(
                (#[trigger] sources[i]).vertex_bytes@,
            )
    }

    /// What `new` hands back on success: a well-formed renderer at frame
    /// zero whose fence starts signaled — so the first cycle's wait is a
    /// no-op — together with one upload request per geometry source, in
    /// source order.
    pub open spec fn good_init(
        swapchain: SwapchainDescription,
        queue: QueueFamilies,
        sources: Seq<MeshSource>,
        renderer: Renderer,
        uploads: Seq<UploadRequest>,
    ) -> bool {
        &&& renderer.wf()
        &&& renderer.framenumber == 0
        &&& renderer.fence_signaled
        &&& !renderer.fence_pending
        &&& renderer.cycle_wait_terminates()
        &&& !renderer.torn_down
        &&& renderer.layout.is_engine_layout(swapchain.color_format, swapchain.depth_format)
        &&& renderer.extent == swapchain.extent
        &&& renderer.targets@.len() == swapchain.color_views@.len()
        &&& forall|i: int|
            0 <= i < renderer.targets@.len() ==> #[trigger] renderer.targets@[i] == (FrameTarget {
                color_view: swapchain.color_views@[i],
                depth_view: swapchain.depth_view,
                extent: swapchain.extent,
            })
        &&& renderer.command_manager.queue == queue
        &&& renderer.command_manager.state is Ready
        &&& renderer.meshes@.len() == sources.len()
        &&& renderer.mesh_names@.len() == sources.len()
        &&& forall|i: int|
            0 <= i < sources.len() ==> (#[trigger] renderer.mesh_names@[i])@ == sources[i].name@
        &&& forall|i: int|
            0 <= i < sources.len() ==> {
                &&& (#[trigger] renderer.meshes@[i]).vertex_buffer matches Some(buffer)
                &&& buffer.device_contents@ == sources[i].vertex_bytes@
            }
        &&& uploads.len() == sources.len()
        &&& forall|i: int|
            0 <= i < sources.len() ==> (#[trigger] uploads[i]).mesh == i && uploads[i].bytes@
                == sources[i].vertex_bytes@ && uploads[i].size == sources[i].vertex_bytes@.len()
    }

    /// Builds the renderer from what the device and surface collaborators
    /// chose: the layout description, one frame target per swapchain image,
    /// the command recorder, the frame-synchronization state with the fence
    /// created signaled, and the uploaded mesh arena with its name
    /// registry. Succeeds exactly on valid inputs; nothing partially built
    /// is returned otherwise.
    pub fn new(
        swapchain: SwapchainDescription,
        queue: QueueFamilies,
        sources: Vec<MeshSource>,
    ) -> (r: Result<(Renderer, Vec<UploadRequest>), InitError>)
        ensures
            r is Ok <==> Self::valid_init(swapchain, sources@),
            swapchain.color_views@.len() == 0 ==> r == Err::<
                (Renderer, Vec<UploadRequest>),
                InitError,
            >(InitError::NoSwapchainImages),
            swapchain.color_views@.len() > 0 && !swapchain.extent.is_nonzero() ==> r == Err::<
                (Renderer, Vec<UploadRequest>),
                InitError,
            >(InitError::ZeroExtent),
            swapchain.color_views@.len() > 0 && swapchain.extent.is_nonzero()
                && !valid_format_pair(swapchain.color_format, swapchain.depth_format) ==> r
                matches Err(InitError::LayoutRejected(_)),
            r matches Err(InitError::BadGeometry(bad)) ==> exists|i: int|
                0 <= i < sources@.len() && !valid_vertex_bytes(
                    (#[trigger] sources@[i]).vertex_bytes@,
                ) && (forall|j: int|
                    0 <= j < i ==> valid_vertex_bytes(#[trigger] sources@[j].vertex_bytes@)) && bad
                    == crate::geometry::vertex_bytes_error(sources@[i].vertex_bytes@),
            r matches Ok(pair) ==> Self::good_init(swapchain, queue, sources@, pair.0, pair.1@),
    {
        if swapchain.color_views.len() == 0 {
            return Err(InitError::NoSwapchainImages);
        }
        if swapchain.extent.width == 0 || swapchain.extent.height == 0 {
            return Err(InitError::ZeroExtent);
        }
        let layout = match RenderTargetLayout::build(
            swapchain.color_format,
            swapchain.depth_format,
        ) {
            Ok(layout) => layout,
            Err(e) => {
                return Err(InitError::LayoutRejected(e));
            },
        };
        let targets = build_frame_targets(
            &swapchain.color_views,
            swapchain.depth_view,
            swapchain.extent,
        );
        let command_manager = CommandManager::new(queue);

        let ghost sources_view = sources@;
        let mut remaining = sources;
        let n = remaining.len();
        let mut meshes: Vec<Mesh> = Vec::new();
        let mut mesh_names: Vec<String> = Vec::new();
        let mut uploads: Vec<UploadRequest> = Vec::new();
        let mut i: usize = 0;
        proof {
            assert(sources_view.subrange(0, n as int) =~= sources_view);
        }
        while i < n
            invariant
                i <= n,
                sources_view == sources@,
                n == sources_view.len(),
                remaining@ == sources_view.subrange(i as int, n as int),
                swapchain.color_views@.len() > 0,
                swapchain.extent.is_nonzero(),
                valid_format_pair(swapchain.color_format, swapchain.depth_format),
                meshes@.len() == i,
                mesh_names@.len() == i,
                uploads@.len() == i,
                forall|j: int|
                    0 <= j < i ==> valid_vertex_bytes(#[trigger] sources_view[j].vertex_bytes@),
                forall|j: int|
                    0 <= j < i ==> (#[trigger] meshes@[j]).wf() && meshes@[j].is_uploaded(),
                forall|j: int|
                    0 <= j < i ==> {
                        &&& (#[trigger] meshes@[j]).vertex_buffer matches Some(buffer)
                        &&& buffer.device_contents@ == sources_view[j].vertex_bytes@
                    },
                forall|j: int|
                    0 <= j < i ==> (#[trigger] mesh_names@[j])@ == sources_view[j].name@,
                forall|j: int|
                    0 <= j < i ==> (#[trigger] uploads@[j]).mesh == j && uploads@[j].bytes@
                        == sources_view[j].vertex_bytes@ && uploads@[j].size
                        == sources_view[j].vertex_bytes@.len(),
            decreases n - i,
        {
            let source = remaining.remove(0);
            proof {
                assert(source == sources_view[i as int]);
                assert(remaining@ =~= sources_view.subrange(i + 1, n as int));
            }
            let MeshSource { name, vertex_bytes } = source;
            let mut mesh = match Mesh::from_vertex_bytes(vertex_bytes) {
                Ok(mesh) => mesh,
                Err(bad) => {
                    proof {
                        assert(!valid_vertex_bytes(sources@[i as int].vertex_bytes@));
                        assert(forall|j: int|
                            0 <= j < i ==> valid_vertex_bytes(
                                #[trigger] sources@[j].vertex_bytes@,
                            ));
                    }
                    return Err(InitError::BadGeometry(bad));
                },
            };
            let request = match upload_mesh(&mut mesh, i) {
                Ok(request) => request,
                Err(bad) => {
                    proof {
                        assert(false);
                    }
                    return Err(InitError::BadGeometry(bad));
                },
            };
            meshes.push(mesh);
            mesh_names.push(name);
            uploads.push(request);
            i = i + 1;
        }
        let renderer = Renderer {
            framenumber: 0,
            layout,
            targets,
            command_manager,
            fence_signaled: true,
            fence_pending: false,
            meshes,
            mesh_names,
            extent: swapchain.extent,
            torn_down: false,
        };
        Ok((renderer, uploads))
    }

    /// What a completed cycle leaves behind and hands out, for the image at
    /// `index`: the plan carries exactly the frame's commands and the
    /// submission that waits on the acquire handoff, signals the render
    /// handoff and signals the frame fence; the renderer has advanced its
    /// counter, holds the fence unsignaled with that submission pending,
    /// and owns everything else unchanged.
    pub open spec fn good_frame(pre: Renderer, post: Renderer, plan: FramePlan, index: u32) -> bool {
        &&& plan.image_index == index
        &&& plan.framenumber == pre.framenumber
        &&& plan.submit.buffer is Main
        &&& plan.submit.commands@ == frame_commands(pre.meshes@, index as usize)
        &&& plan.submit.wait_semaphores@ == seq![SemaphoreRole::Present]
        &&& plan.submit.wait_stage is ColorAttachmentOutput
        &&& plan.submit.signal_semaphores@ == seq![SemaphoreRole::Render]
        &&& plan.submit.fence == FenceRole::Frame
        &&& plan.present.image_index == index
        &&& plan.present.wait_semaphores@ == seq![SemaphoreRole::Render]
        &&& post.framenumber == pre.framenumber + 1
        &&& !post.fence_signaled
        &&& post.fence_pending
        &&& post.command_manager.state is Submitted
        &&& post.command_manager.queue == pre.command_manager.queue
        &&& post.layout == pre.layout
        &&& post.targets == pre.targets
        &&& post.meshes == pre.meshes
        &&& post.mesh_names == pre.mesh_names
        &&& post.extent == pre.extent
        &&& post.torn_down == pre.torn_down
    }

    /// Runs exactly one frame cycle, given what the shell observed at the
    /// two suspension points: whether the bounded fence wait ended with the
    /// fence signaled, and what image acquisition reported. A timeout is
    /// fatal and changes nothing; an out-of-date surface aborts the cycle
    /// with its own distinguishable error so the caller can rebuild; on
    /// success the returned plan is the whole frame, and the submission it
    /// carries is what will signal the fence for the next cycle's wait.
    pub fn render(&mut self, fence_was_signaled: bool, acquire: AcquireOutcome) -> (r: Result<
        FramePlan,
        RenderError,
    >)
        requires
            old(self).wf(),
            !old(self).torn_down,
            old(self).framenumber < u64::MAX,
        ensures
            final(self).wf(),
            !fence_was_signaled ==> r == Err::<FramePlan, RenderError>(RenderError::FenceTimeout)
                && *final(self) == *old(self),
            fence_was_signaled ==> match acquire {
                AcquireOutcome::OutOfDate => r == Err::<FramePlan, RenderError>(
                    RenderError::SurfaceOutOfDate,
                ) && *final(self) == Self::aborted_after_reset(*old(self)),
                AcquireOutcome::Failed => r == Err::<FramePlan, RenderError>(
                    RenderError::AcquireFailed,
                ) && *final(self) == Self::aborted_after_reset(*old(self)),
                AcquireOutcome::Acquired { index, suboptimal: _ } => if index
                    < old(self).targets@.len() {
                    r matches Ok(plan) && Self::good_frame(*old(self), *final(self), plan, index)
                } else {
                    r == Err::<FramePlan, RenderError>(RenderError::UnknownImageIndex)
                        && *final(self) == Self::aborted_after_reset(*old(self))
                },
            },
            r is Ok ==> final(self).cycle_wait_terminates(),
            r is Ok ==> draw_calls(r->Ok_0.submit.commands@) == old(self).meshes@.len(),
    {
        if !fence_was_signaled {
            return Err(RenderError::FenceTimeout);
        }
        // The fence is observed signaled: the previous submission is fully
        // retired, so the fence may be reset and the command buffer reused.
        self.fence_signaled = false;
        self.fence_pending = false;
        let index: u32 = match acquire {
            AcquireOutcome::OutOfDate => {
                return Err(RenderError::SurfaceOutOfDate);
            },
            AcquireOutcome::Failed => {
                return Err(RenderError::AcquireFailed);
            },
            AcquireOutcome::Acquired { index, suboptimal: _ } => index,
        };
        if index as usize >= self.targets.len() {
            return Err(RenderError::UnknownImageIndex);
        }
        let ghost pre = *self;
        let target_index: usize = index as usize;

        self.command_manager.begin_main_command_buffer();
        self.command_manager.begin_render_pass(
            target_index,
            ClearValues {
                color_r_bits: 0,
                color_g_bits: 0,
                color_b_bits: 0,
                color_a_bits: FLOAT_ONE_BITS,
                depth_bits: FLOAT_ONE_BITS,
                stencil: 0,
            },
        );
        self.command_manager.bind_pipeline();
        proof {
            assert(self.command_manager.commands@ =~= frame_prefix(target_index)
                + mesh_draw_commands(pre.meshes@, 0));
        }
        let mut i: usize = 0;
        while i < self.meshes.len()
            invariant
                i <= self.meshes@.len(),
                self.command_manager.state is InRenderPass,
                self.command_manager.commands@ == frame_prefix(target_index)
                    + mesh_draw_commands(pre.meshes@, i as int),
                self.command_manager.queue == pre.command_manager.queue,
                self.framenumber == pre.framenumber,
                self.layout == pre.layout,
                self.targets == pre.targets,
                self.meshes == pre.meshes,
                self.mesh_names == pre.mesh_names,
                self.extent == pre.extent,
                self.torn_down == pre.torn_down,
                !self.fence_signaled,
                !self.fence_pending,
            decreases self.meshes@.len() - i,
        {
            self.command_manager.bind_vertex_buffers(0, i, 0);
            self.command_manager.push_constants(i);
            let vertex_count = self.meshes[i].vertex_count;
            self.command_manager.draw(vertex_count, 1, 0, 0);
            proof {
                let prefix = frame_prefix(target_index);
                let base = mesh_draw_commands(pre.meshes@, i as int);
                let c1 = Command::BindVertexBuffers { first_binding: 0, mesh: i, offset: 0 };
                let c2 = Command::PushConstants { mesh: i };
                let c3 = Command::Draw {
                    vertex_count,
                    instance_count: 1,
                    first_vertex: 0,
                    first_instance: 0,
                };
                assert((prefix + base).push(c1) =~= prefix + base.push(c1));
                assert((prefix + base.push(c1)).push(c2) =~= prefix + base.push(c1).push(c2));
                assert((prefix + base.push(c1).push(c2)).push(c3) =~= prefix + base.push(c1).push(
                    c2,
                ).push(c3));
                assert(mesh_draw_commands(pre.meshes@, i + 1) == base.push(c1).push(c2).push(c3));
            }
            i = i + 1;
        }
        self.command_manager.end_render_pass();
        let closed = self.command_manager.end_main_command_buffer();
        proof {
            assert(closed is Ok);
        }
        let mut wait_semaphores: Vec<SemaphoreRole> = Vec::new();
        wait_semaphores.push(SemaphoreRole::Present);
        let mut signal_semaphores: Vec<SemaphoreRole> = Vec::new();
        signal_semaphores.push(SemaphoreRole::Render);
        proof {
            assert(self.command_manager.commands@ =~= frame_prefix(target_index)
                + mesh_draw_commands(pre.meshes@, pre.meshes@.len() as int) + seq![
                Command::EndRenderPass,
            ]);
            assert(wait_semaphores@ =~= seq![SemaphoreRole::Present]);
            assert(signal_semaphores@ =~= seq![SemaphoreRole::Render]);
        }
        let submit = self.command_manager.submit_main_command_buffer(
            wait_semaphores,
            signal_semaphores,
            FenceRole::Frame,
        );
        // The submission in flight is now what will signal the fence.
        self.fence_pending = true;
        let mut present_wait: Vec<SemaphoreRole> = Vec::new();
        present_wait.push(SemaphoreRole::Render);
        proof {
            assert(present_wait@ =~= seq![SemaphoreRole::Render]);
        }
        let plan = FramePlan {
            image_index: index,
            framenumber: self.framenumber,
            submit,
            present: PresentRequest { image_index: index, wait_semaphores: present_wait },
        };
        self.framenumber = self.framenumber + 1;
        proof {
            lemma_one_draw_per_mesh(pre.meshes@, target_index);
        }
        Ok(plan)
    }

    /// Walks the ownership tree children-before-parents and releases every
    /// object exactly once: wait for the in-flight fence, free the
    /// geometry allocations, destroy the semaphores and the fence, the
    /// pipeline, the framebuffers, the render pass, and last the command
    /// pools. A second call finds everything already released and destroys
    /// nothing, so no handle is ever destroyed twice.
    pub fn teardown(&mut self) -> (plan: Vec<DestroyOp>)
        requires
            old(self).wf(),
        ensures
            final(self).wf(),
            plan@ == teardown_ops(*old(self)),
            final(self).torn_down,
            *final(self) == (Renderer { torn_down: true, ..*old(self) }),
    {
        if self.torn_down {
            return Vec::new();
        }
        let mut plan: Vec<DestroyOp> = Vec::new();
        plan.push(DestroyOp::WaitFrameFence);
        proof {
            assert(plan@ =~= seq![DestroyOp::WaitFrameFence] + free_mesh_ops(0));
        }
        let mut i: usize = 0;
        while i < self.meshes.len()
            invariant
                i <= self.meshes@.len(),
                plan@ == seq![DestroyOp::WaitFrameFence] + free_mesh_ops(i as int),
            decreases self.meshes@.len() - i,
        {
            plan.push(DestroyOp::FreeMeshBuffer { mesh: i });
            proof {
                let prefix = seq![DestroyOp::WaitFrameFence];
                assert((prefix + free_mesh_ops(i as int)).push(
                    DestroyOp::FreeMeshBuffer { mesh: i },
                ) =~= prefix + free_mesh_ops(i + 1));
            }
            i = i + 1;
        }
        let ghost after_free = plan@;
        plan.push(DestroyOp::DestroySemaphore { semaphore: SemaphoreRole::Render });
        plan.push(DestroyOp::DestroySemaphore { semaphore: SemaphoreRole::Present });
        plan.push(DestroyOp::DestroyFence { fence: FenceRole::Frame });
        plan.push(DestroyOp::DestroyPipeline);
        let ghost after_sync = plan@;
        proof {
            assert(after_sync =~= after_free + sync_destroy_ops());
        }
        let mut j: usize = 0;
        while j < self.targets.len()
            invariant
                j <= self.targets@.len(),
                plan@ == after_sync + destroy_framebuffer_ops(j as int),
            decreases self.targets@.len() - j,
        {
            plan.push(DestroyOp::DestroyFramebuffer { target: j });
            proof {
                assert((after_sync + destroy_framebuffer_ops(j as int)).push(
                    DestroyOp::DestroyFramebuffer { target: j },
                ) =~= after_sync + destroy_framebuffer_ops(j + 1));
            }
            j = j + 1;
        }
        plan.push(DestroyOp::DestroyRenderPass);
        plan.push(DestroyOp::DestroyCommandPool { pool: CommandBufferRole::Main });
        if self.command_manager.queue.main_queue_index
            != self.command_manager.queue.transfer_only_queue_index {
            plan.push(DestroyOp::DestroyCommandPool { pool: CommandBufferRole::Transfer });
        }
        self.torn_down = true;
        proof {
            assert(plan@ =~= teardown_ops(*old(self)));
        }
        plan
    }

    /// Wholesale rebuild of the surface-bound state after the surface
    /// changed (for example a resize, reported as `SurfaceOutOfDate`):
    /// replaces every frame target with one per new color view and resets
    /// the per-frame synchronization to its initial state — the recreated
    /// fence starts signaled, so the wait that opens the next cycle is a
    /// no-op, exactly as after construction.
    pub fn rebuild_frame_targets(
        &mut self,
        color_views: &Vec<u64>,
        depth_view: u64,
        extent: Extent2d,
    ) -> (r: Result<(), InitError>)
        requires
            old(self).wf(),
            !old(self).torn_down,
        ensures
            final(self).wf(),
            r is Ok <==> color_views@.len() > 0 && extent.is_nonzero(),
            color_views@.len() == 0 ==> r == Err::<(), InitError>(InitError::NoSwapchainImages),
            color_views@.len() > 0 && !extent.is_nonzero() ==> r == Err::<(), InitError>(
                InitError::ZeroExtent,
            ),
            r is Err ==> *final(self) == *old(self),
            r is Ok ==> {
                &&& final(self).targets@.len() == color_views@.len()
                &&& forall|i: int|
                    0 <= i < color_views@.len() ==> #[trigger] final(self).targets@[i]
                        == (FrameTarget { color_view: color_views@[i], depth_view, extent })
                &&& final(self).extent == extent
                &&& final(self).fence_signaled
                &&& !final(self).fence_pending
                &&& final(self).cycle_wait_terminates()
                &&& final(self).framenumber == old(self).framenumber
                &&& final(self).layout == old(self).layout
                &&& final(self).meshes == old(self).meshes
                &&& final(self).mesh_names == old(self).mesh_names
                &&& final(self).command_manager == old(self).command_manager
                &&& final(self).torn_down == old(self).torn_down
            },
    {
        if color_views.len() == 0 {
            return Err(InitError::NoSwapchainImages);
        }
        if extent.width == 0 || extent.height == 0 {
            return Err(InitError::ZeroExtent);
        }
        self.targets = build_frame_targets(color_views, depth_view, extent);
        self.extent = extent;
        self.fence_signaled = true;
        self.fence_pending = false;
        Ok(())
    }
}

/// The fence once the GPU has completed whatever was submitted: pending
/// work signals it; without pending work it keeps its state.
pub open spec fn after_gpu_completion(r: Renderer) -> Renderer {
    if r.fence_pending {
        Renderer { fence_signaled: true, fence_pending: false, ..r }
    } else {
        r
    }
}

/// Liveness of the per-frame handshake: whenever the renderer is in a state
/// a cycle may start from — fresh from `new`, after a rebuild, or left by
/// any completed cycle — the fence is signaled once the GPU completes the
/// work in flight, so the wait that opens the next cycle terminates under
/// normal completion instead of deadlocking.
pub proof fn lemma_fence_signaled_before_next_wait(r: Renderer)
    requires
        r.cycle_wait_terminates(),
    ensures
        after_gpu_completion(r).fence_signaled,
{
}

/// The release steps for the first `n` mesh slots, in arena order.
pub open spec fn free_mesh_ops(n: int) -> Seq<DestroyOp>
    decreases n,
{
    if n <= 0 {
        Seq::empty()
    } else {
        free_mesh_ops(n - 1).push(DestroyOp::FreeMeshBuffer { mesh: (n - 1) as usize })
    }
}

/// The synchronization objects and the pipeline, destroyed after all
/// geometry is released: both semaphores, the fence, then the pipeline.
pub open spec fn sync_destroy_ops() -> Seq<DestroyOp> {
    seq![
        (DestroyOp::DestroySemaphore { semaphore: SemaphoreRole::Render }),
        (DestroyOp::DestroySemaphore { semaphore: SemaphoreRole::Present }),
        (DestroyOp::DestroyFence { fence: FenceRole::Frame }),
        DestroyOp::DestroyPipeline,
    ]
}

/// The framebuffer destroy steps for the first `n` frame targets, before
/// the render pass they reference may go.
pub open spec fn destroy_framebuffer_ops(n: int) -> Seq<DestroyOp>
    decreases n,
{
    if n <= 0 {
        Seq::empty()
    } else {
        destroy_framebuffer_ops(n - 1).push(DestroyOp::DestroyFramebuffer { target: (n - 1) as usize })
    }
}

/// The pool destroy steps: the transfer pool is destroyed only where it is
/// a pool of its own — where both roles share one family, the single pool
/// is destroyed once.
pub open spec fn pool_destroy_ops(m: CommandManager) -> Seq<DestroyOp> {
    if m.shares_pool() {
        seq![(DestroyOp::DestroyCommandPool { pool: CommandBufferRole::Main })]
    } else {
        seq![
            (DestroyOp::DestroyCommandPool { pool: CommandBufferRole::Main }),
            (DestroyOp::DestroyCommandPool { pool: CommandBufferRole::Transfer }),
        ]
    }
}

/// The single linear teardown walk for a renderer's state, children before
/// parents; empty once the renderer is already torn down.
pub open spec fn teardown_ops(r: Renderer) -> Seq<DestroyOp> {
    if r.torn_down {
        Seq::empty()
    } else {
        seq![DestroyOp::WaitFrameFence] + free_mesh_ops(r.meshes@.len() as int)
            + sync_destroy_ops() + destroy_framebuffer_ops(r.targets@.len() as int) + seq![
            DestroyOp::DestroyRenderPass,
        ] + pool_destroy_ops(r.command_manager)
    }
}

/// The positional shape of a live renderer's teardown walk, children
/// before parents: the fence wait opens it; every geometry release comes
/// before any synchronization object or the pipeline is destroyed; every
/// framebuffer is destroyed before the one render pass they all reference;
/// and the command pools come last of all.
pub open spec fn teardown_walk_ordered(r: Renderer) -> bool {
    let ops = teardown_ops(r);
    let n = r.meshes@.len() as int;
    let t = r.targets@.len() as int;
    &&& ops.len() == 6 + n + t + pool_destroy_ops(r.command_manager).len()
    &&& ops[0] == DestroyOp::WaitFrameFence
    &&& forall|j: int|
        1 <= j < 1 + n ==> #[trigger] ops[j] == (DestroyOp::FreeMeshBuffer {
            mesh: (j - 1) as usize,
        })
    &&& ops.subrange(1 + n, 5 + n) == sync_destroy_ops()
    &&& forall|j: int|
        5 + n <= j < 5 + n + t ==> #[trigger] ops[j] == (DestroyOp::DestroyFramebuffer {
            target: (j - 5 - n) as usize,
        })
    &&& ops[5 + n + t] == DestroyOp::DestroyRenderPass
    &&& forall|j: int|
        6 + n + t <= j < ops.len() ==> #[trigger] ops[j] matches DestroyOp::DestroyCommandPool {
            ..
        }
}

proof fn lemma_free_mesh_ops_shape(n: int)
    requires
        0 <= n <= usize::MAX,
    ensures
        free_mesh_ops(n).len() == n,
        forall|j: int|
            0 <= j < n ==> #[trigger] free_mesh_ops(n)[j] == (DestroyOp::FreeMeshBuffer {
                mesh: j as usize,
            }),
    decreases n,
{
    if n > 0 {
        lemma_free_mesh_ops_shape(n - 1);
    }
}

proof fn lemma_destroy_framebuffer_ops_shape(n: int)
    requires
        0 <= n <= usize::MAX,
    ensures
        destroy_framebuffer_ops(n).len() == n,
        forall|j: int|
            0 <= j < n ==> #[trigger] destroy_framebuffer_ops(n)[j]
                == (DestroyOp::DestroyFramebuffer { target: j as usize }),
    decreases n,
{
    if n > 0 {
        lemma_destroy_framebuffer_ops_shape(n - 1);
    }
}

/// The shutdown walk of a live renderer really is in dependency order —
/// the critical teardown invariant, established once for every reachable
/// renderer state.
pub proof fn lemma_teardown_children_before_parents(r: Renderer)
    requires
        !r.torn_down,
    ensures
        teardown_walk_ordered(r),
{
    vstd::std_specs::vec::axiom_spec_len(&r.meshes);
    vstd::std_specs::vec::axiom_spec_len(&r.targets);
    let n = r.meshes@.len() as int;
    let t = r.targets@.len() as int;
    lemma_free_mesh_ops_shape(n);
    lemma_destroy_framebuffer_ops_shape(t);
    let ops = teardown_ops(r);
    assert(ops.subrange(1 + n, 5 + n) =~= sync_destroy_ops());
}

/// How often a teardown step occurs in a plan.
pub open spec fn count_op(s: Seq<DestroyOp>, op: DestroyOp) -> int
    decreases s.len(),
{
    if s.len() == 0 {
        0
    } else {
        count_op(s.drop_last(), op) + if s.last() == op {
            1int
        } else {
            0int
        }
    }
}

proof fn lemma_count_op_push(s: Seq<DestroyOp>, c: DestroyOp, op: DestroyOp)
    ensures
        count_op(s.push(c), op) == count_op(s, op) + if c == op {
            1int
        } else {
            0int
        },
{
    assert(s.push(c).drop_last() =~= s);
    assert(s.push(c).last() == c);
}

proof fn lemma_count_op_add(a: Seq<DestroyOp>, b: Seq<DestroyOp>, op: DestroyOp)
    ensures
        count_op(a + b, op) == count_op(a, op) + count_op(b, op),
    decreases b.len(),
{
    if b.len() == 0 {
        assert(a + b =~= a);
    } else {
        lemma_count_op_add(a, b.drop_last(), op);
        assert((a + b).drop_last() =~= a + b.drop_last());
        assert((a + b).last() == b.last());
    }
}

proof fn lemma_count_free_mesh_ops(n: int, op: DestroyOp)
    requires
        0 <= n <= usize::MAX,
    ensures
        count_op(free_mesh_ops(n), op) == if op matches DestroyOp::FreeMeshBuffer { mesh }
            && mesh < n {
            1int
        } else {
            0int
        },
    decreases n,
{
    if n > 0 {
        lemma_count_free_mesh_ops(n - 1, op);
        lemma_count_op_push(
            free_mesh_ops(n - 1),
            DestroyOp::FreeMeshBuffer { mesh: (n - 1) as usize },
            op,
        );
    }
}

proof fn lemma_count_destroy_framebuffer_ops(n: int, op: DestroyOp)
    requires
        0 <= n <= usize::MAX,
    ensures
        count_op(destroy_framebuffer_ops(n), op) == if op matches DestroyOp::DestroyFramebuffer {
            target,
        } && target < n {
            1int
        } else {
            0int
        },
    decreases n,
{
    if n > 0 {
        lemma_count_destroy_framebuffer_ops(n - 1, op);
        lemma_count_op_push(
            destroy_framebuffer_ops(n - 1),
            DestroyOp::DestroyFramebuffer { target: (n - 1) as usize },
            op,
        );
    }
}

proof fn lemma_count_op_literals(op: DestroyOp)
    ensures
        count_op(seq![DestroyOp::WaitFrameFence], op) == if op == DestroyOp::WaitFrameFence {
            1int
        } else {
            0int
        },
        count_op(seq![DestroyOp::DestroyRenderPass], op) == if op == DestroyOp::DestroyRenderPass {
            1int
        } else {
            0int
        },
        count_op(sync_destroy_ops(), op) == if op matches DestroyOp::DestroySemaphore { .. }
            || op == (DestroyOp::DestroyFence { fence: FenceRole::Frame })
            || op == DestroyOp::DestroyPipeline {
            1int
        } else {
            0int
        },
{
    let w = DestroyOp::WaitFrameFence;
    assert(seq![w] =~= Seq::empty().push(w));
    lemma_count_op_push(Seq::empty(), w, op);
    let rp = DestroyOp::DestroyRenderPass;
    assert(seq![rp] =~= Seq::empty().push(rp));
    lemma_count_op_push(Seq::empty(), rp, op);
    let s1 = DestroyOp::DestroySemaphore { semaphore: SemaphoreRole::Render };
    let s2 = DestroyOp::DestroySemaphore { semaphore: SemaphoreRole::Present };
    let f = DestroyOp::DestroyFence { fence: FenceRole::Frame };
    let p = DestroyOp::DestroyPipeline;
    assert(sync_destroy_ops() =~= Seq::empty().push(s1).push(s2).push(f).push(p));
    lemma_count_op_push(Seq::empty(), s1, op);
    lemma_count_op_push(Seq::empty().push(s1), s2, op);
    lemma_count_op_push(Seq::empty().push(s1).push(s2), f, op);
    lemma_count_op_push(Seq::empty().push(s1).push(s2).push(f), p, op);
}

proof fn lemma_count_pool_ops(m: CommandManager, op: DestroyOp)
    ensures
        count_op(pool_destroy_ops(m), op) == if op == (DestroyOp::DestroyCommandPool {
            pool: CommandBufferRole::Main,
        }) {
            1int
        } else if op == (DestroyOp::DestroyCommandPool { pool: CommandBufferRole::Transfer })
            && !m.shares_pool() {
            1int
        } else {
            0int
        },
{
    let main = DestroyOp::DestroyCommandPool { pool: CommandBufferRole::Main };
    let transfer = DestroyOp::DestroyCommandPool { pool: CommandBufferRole::Transfer };
    if m.shares_pool() {
        assert(pool_destroy_ops(m) =~= Seq::empty().push(main));
        lemma_count_op_push(Seq::empty(), main, op);
    } else {
        assert(pool_destroy_ops(m) =~= Seq::empty().push(main).push(transfer));
        lemma_count_op_push(Seq::empty(), main, op);
        lemma_count_op_push(Seq::empty().push(main), transfer, op);
    }
}

proof fn lemma_count_teardown_ops(r: Renderer, op: DestroyOp)
    requires
        !r.torn_down,
    ensures
        count_op(teardown_ops(r), op) == count_op(seq![DestroyOp::WaitFrameFence], op) + count_op(
            free_mesh_ops(r.meshes@.len() as int),
            op,
        ) + count_op(sync_destroy_ops(), op) + count_op(
            destroy_framebuffer_ops(r.targets@.len() as int),
            op,
        ) + count_op(seq![DestroyOp::DestroyRenderPass], op) + count_op(
            pool_destroy_ops(r.command_manager),
            op,
        ),
{
    let a = seq![DestroyOp::WaitFrameFence];
    let b = free_mesh_ops(r.meshes@.len() as int);
    let c = sync_destroy_ops();
    let d = destroy_framebuffer_ops(r.targets@.len() as int);
    let e = seq![DestroyOp::DestroyRenderPass];
    let f = pool_destroy_ops(r.command_manager);
    lemma_count_op_add(a, b, op);
    lemma_count_op_add(a + b, c, op);
    lemma_count_op_add(a + b + c, d, op);
    lemma_count_op_add(a + b + c + d, e, op);
    lemma_count_op_add(a + b + c + d + e, f, op);
}

/// Teardown holds single ownership: one teardown of a live renderer names
/// every owned object exactly once — each mesh allocation, each semaphore,
/// the fence, the pipeline, each framebuffer, the render pass, and each
/// distinct command pool (the shared pool, where the queue families
/// coincide, is destroyed once, not once per role) — and a renderer that is
/// already torn down yields an empty plan, so running teardown twice
/// destroys no handle twice.
pub proof fn lemma_teardown_destroys_each_object_once(r: Renderer)
    requires
        !r.torn_down,
    ensures
        forall|m: usize|
            m < r.meshes@.len() ==> count_op(
                teardown_ops(r),
                DestroyOp::FreeMeshBuffer { mesh: m },
            ) == 1,
        count_op(
            teardown_ops(r),
            DestroyOp::DestroySemaphore { semaphore: SemaphoreRole::Render },
        ) == 1,
        count_op(
            teardown_ops(r),
            DestroyOp::DestroySemaphore { semaphore: SemaphoreRole::Present },
        ) == 1,
        count_op(teardown_ops(r), DestroyOp::DestroyFence { fence: FenceRole::Frame }) == 1,
        count_op(teardown_ops(r), DestroyOp::DestroyPipeline) == 1,
        forall|t: usize|
            t < r.targets@.len() ==> count_op(
                teardown_ops(r),
                DestroyOp::DestroyFramebuffer { target: t },
            ) == 1,
        count_op(teardown_ops(r), DestroyOp::DestroyRenderPass) == 1,
        count_op(teardown_ops(r), DestroyOp::DestroyCommandPool { pool: CommandBufferRole::Main })
            == 1,
        count_op(
            teardown_ops(r),
            DestroyOp::DestroyCommandPool { pool: CommandBufferRole::Transfer },
        ) == if r.command_manager.shares_pool() {
            0int
        } else {
            1int
        },
        teardown_ops(Renderer { torn_down: true, ..r }) == Seq::<DestroyOp>::empty(),
{
    assert forall|op: DestroyOp| true implies count_op(teardown_ops(r), op) == count_op(
        seq![DestroyOp::WaitFrameFence],
        op,
    ) + count_op(free_mesh_ops(r.meshes@.len() as int), op) + count_op(sync_destroy_ops(), op)
        + count_op(destroy_framebuffer_ops(r.targets@.len() as int), op) + count_op(
        seq![DestroyOp::DestroyRenderPass],
        op,
    ) + count_op(pool_destroy_ops(r.command_manager), op) by {
        lemma_count_teardown_ops(r, op);
    }
    assert forall|op: DestroyOp| true implies {
        &&& count_op(seq![DestroyOp::WaitFrameFence], op) == if op == DestroyOp::WaitFrameFence {
            1int
        } else {
            0int
        }
        &&& count_op(seq![DestroyOp::DestroyRenderPass], op) == if op
            == DestroyOp::DestroyRenderPass {
            1int
        } else {
            0int
        }
        &&& count_op(sync_destroy_ops(), op) == if op matches DestroyOp::DestroySemaphore { .. }
            || op == (DestroyOp::DestroyFence { fence: FenceRole::Frame })
            || op == DestroyOp::DestroyPipeline {
            1int
        } else {
            0int
        }
        &&& count_op(free_mesh_ops(r.meshes@.len() as int), op) == if op
            matches DestroyOp::FreeMeshBuffer { mesh } && mesh < r.meshes@.len() {
            1int
        } else {
            0int
        }
        &&& count_op(destroy_framebuffer_ops(r.targets@.len() as int), op) == if op
            matches DestroyOp::DestroyFramebuffer { target } && target < r.targets@.len() {
            1int
        } else {
            0int
        }
        &&& count_op(pool_destroy_ops(r.command_manager), op) == if op
            == (DestroyOp::DestroyCommandPool { pool: CommandBufferRole::Main }) {
            1int
        } else if op == (DestroyOp::DestroyCommandPool { pool: CommandBufferRole::Transfer })
            && !r.command_manager.shares_pool() {
            1int
        } else {
            0int
        }
    } by {
        vstd::std_specs::vec::axiom_spec_len(&r.meshes);
        vstd::std_specs::vec::axiom_spec_len(&r.targets);
        lemma_count_op_literals(op);
        lemma_count_free_mesh_ops(r.meshes@.len() as int, op);
        lemma_count_destroy_framebuffer_ops(r.targets@.len() as int, op);
        lemma_count_pool_ops(r.command_manager, op);
    }
}

} // verus!
