//! The command recorder: owns one primary command buffer per queue role and
//! exposes the ordered recording protocol begin → render-pass ops → end →
//! submit. It never decides when to submit — that is the frame
//! synchronizer's call — it only guarantees the order and reports exactly
//! what was recorded.

use vstd::prelude::*;

use crate::errors::RecorderError;

verus! {

/// The graphics and transfer queue families the device collaborator chose.
#[derive(Clone, Copy, PartialEq, Eq, Structural, Debug)]
pub struct QueueFamilies {
    pub main_queue_index: u32,
    pub transfer_only_queue_index: u32,
}

/// The command buffers the recorder owns, one per queue role.
#[derive(Clone, Copy, PartialEq, Eq, Structural, Debug)]
pub enum CommandBufferRole {
    Main,
    Transfer,
}

/// The per-frame semaphores, named by role: the acquire-to-render handoff
/// and the render-to-present handoff.
#[derive(Clone, Copy, PartialEq, Eq, Structural, Debug)]
pub enum SemaphoreRole {
    Present,
    Render,
}

/// The one fence that bounds reuse of everything the renderer owns.
#[derive(Clone, Copy, PartialEq, Eq, Structural, Debug)]
pub enum FenceRole {
    Frame,
}

/// The pipeline stage a submission waits at on its semaphores.
#[derive(Clone, Copy, PartialEq, Eq, Structural, Debug)]
pub enum WaitStage {
    ColorAttachmentOutput,
}

/// The clear values a render pass opens with. Color components and depth
/// are carried as 32-bit float bit patterns so the model stays on plain
/// integers; the shell reassembles the floats.
#[derive(Clone, Copy, PartialEq, Eq, Structural, Debug)]
pub struct ClearValues {
    pub color_r_bits: u32,
    pub color_g_bits: u32,
    pub color_b_bits: u32,
    pub color_a_bits: u32,
    pub depth_bits: u32,
    pub stencil: u32,
}

/// One recorded command. Frame targets, meshes and the pipeline are named
/// by index or role; the shell maps them to real handles when it replays
/// the list into the command buffer.
#[derive(Clone, Copy, PartialEq, Eq, Structural, Debug)]
pub enum Command {
    /// Open the render pass on the frame target of the given swapchain
    /// image, clearing both attachments.
    BeginRenderPass { target: usize, clear: ClearValues },
    /// Bind the engine's one mesh pipeline.
    BindPipeline,
    /// Bind the vertex buffer of the mesh in the given arena slot.
    BindVertexBuffers { first_binding: u32, mesh: usize, offset: u64 },
    /// Set the push constants for the mesh in the given arena slot; the
    /// shell computes the transform bytes from the frame number.
    PushConstants { mesh: usize },
    Draw { vertex_count: u32, instance_count: u32, first_vertex: u32, first_instance: u32 },
    EndRenderPass,
}

/// Where the recorder stands in the begin → ops → end → submit order.
#[derive(Clone, Copy, PartialEq, Eq, Structural, Debug)]
pub enum RecorderState {
    /// Fresh: nothing recorded yet.
    Ready,
    /// Between `begin_main_command_buffer` and `end_main_command_buffer`,
    /// outside a render pass.
    Recording,
    /// Between `begin_render_pass` and `end_render_pass`.
    InRenderPass,
    /// Recording closed; the buffer awaits submission.
    Ended,
    /// Handed to the graphics queue; recording again requires a reset,
    /// which the synchronizer orders only after the frame fence was
    /// observed signaled.
    Submitted,
}

/// Everything one submission tells the graphics queue: which buffer, the
/// commands it holds, the semaphores to wait on (at the color-attachment
/// output stage) and to signal, and the fence signaled on completion.
#[derive(Debug)]
pub struct SubmitRequest {
    pub buffer: CommandBufferRole,
    pub commands: Vec<Command>,
    pub wait_semaphores: Vec<SemaphoreRole>,
    pub wait_stage: WaitStage,
    pub signal_semaphores: Vec<SemaphoreRole>,
    pub fence: FenceRole,
}

/// The command recorder's model state: the queue families it was built for,
/// where it stands in the recording protocol, and what the main buffer
/// currently holds.
pub struct CommandManager {
    pub queue: QueueFamilies,
    pub state: RecorderState,
    pub commands: Vec<Command>,
}

impl CommandManager {
    /// One pool serves both roles exactly when the device offers no
    /// dedicated transfer family.
    pub open spec fn shares_pool(self) -> bool {
        self.queue.main_queue_index == self.queue.transfer_only_queue_index
    }

    /// The recorder is between frames: not in the middle of recording.
    pub open spec fn is_quiescent(self) -> bool {
        self.state is Ready || self.state is Submitted
    }

    /// Builds the recorder for the given queue pair. One command pool is
    /// created per distinct queue family: the transfer role shares the main
    /// pool exactly when the two families coincide.
    pub fn new(queue: QueueFamilies) -> (m: CommandManager)
        ensures
            m.queue == queue,
            m.state is Ready,
            m.commands@.len() == 0,
            m.shares_pool() <==> queue.main_queue_index == queue.transfer_only_queue_index,
    {
        CommandManager { queue, state: RecorderState::Ready, commands: Vec::new() }
    }

    /// Resets the main buffer and opens a one-time-submit recording scope.
    /// Only callable between frames or after an abandoned recording — never
    /// while a render pass is open, and the synchronizer additionally
    /// guards it behind the frame fence.
    pub fn begin_main_command_buffer(&mut self)
        requires
            old(self).state is Ready || old(self).state is Submitted || old(self).state is Ended,
        ensures
            final(self).state is Recording,
            final(self).commands@.len() == 0,
            final(self).queue == old(self).queue,
    {
        self.commands = Vec::new();
        self.state = RecorderState::Recording;
    }

    /// Opens the render pass on one frame target, clearing both
    /// attachments.
    pub fn begin_render_pass(&mut self, target: usize, clear: ClearValues)
        requires
            old(self).state is Recording,
        ensures
            final(self).state is InRenderPass,
            final(self).commands@ == old(self).commands@.push(
                Command::BeginRenderPass { target, clear },
            ),
            final(self).queue == old(self).queue,
    {
        self.commands.push(Command::BeginRenderPass { target, clear });
        self.state = RecorderState::InRenderPass;
    }

    /// Binds the engine's mesh pipeline for the draws that follow.
    pub fn bind_pipeline(&mut self)
        requires
            old(self).state is InRenderPass,
        ensures
            final(self).state is InRenderPass,
            final(self).commands@ == old(self).commands@.push(Command::BindPipeline),
            final(self).queue == old(self).queue,
    {
        self.commands.push(Command::BindPipeline);
    }

    /// Binds the vertex buffer of one mesh at the given binding slot.
    pub fn bind_vertex_buffers(&mut self, first_binding: u32, mesh: usize, offset: u64)
        requires
            old(self).state is InRenderPass,
        ensures
            final(self).state is InRenderPass,
            final(self).commands@ == old(self).commands@.push(
                Command::BindVertexBuffers { first_binding, mesh, offset },
            ),
            final(self).queue == old(self).queue,
    {
        self.commands.push(Command::BindVertexBuffers { first_binding, mesh, offset });
    }

    /// Records the push-constant update for one mesh.
    pub fn push_constants(&mut self, mesh: usize)
        requires
            old(self).state is InRenderPass,
        ensures
            final(self).state is InRenderPass,
            final(self).commands@ == old(self).commands@.push(Command::PushConstants { mesh }),
            final(self).queue == old(self).queue,
    {
        self.commands.push(Command::PushConstants { mesh });
    }

    /// Records one draw.
    pub fn draw(
        &mut self,
        vertex_count: u32,
        instance_count: u32,
        first_vertex: u32,
        first_instance: u32,
    )
        requires
            old(self).state is InRenderPass,
        ensures
            final(self).state is InRenderPass,
            final(self).commands@ == old(self).commands@.push(
                Command::Draw { vertex_count, instance_count, first_vertex, first_instance },
            ),
            final(self).queue == old(self).queue,
    {
        self.commands.push(
            Command::Draw { vertex_count, instance_count, first_vertex, first_instance },
        );
    }

    /// Closes the render pass; recording continues outside it.
    pub fn end_render_pass(&mut self)
        requires
            old(self).state is InRenderPass,
        ensures
            final(self).state is Recording,
            final(self).commands@ == old(self).commands@.push(Command::EndRenderPass),
            final(self).queue == old(self).queue,
    {
        self.commands.push(Command::EndRenderPass);
        self.state = RecorderState::Recording;
    }

    /// Closes the recording scope. Succeeds exactly when a recording is
    /// open outside a render pass; called in any other state it reports the
    /// protocol violation and changes nothing.
    pub fn end_main_command_buffer(&mut self) -> (r: Result<(), RecorderError>)
        ensures
            old(self).state is Recording ==> r is Ok && final(self).state is Ended
                && final(self).commands@ == old(self).commands@
                && final(self).queue == old(self).queue,
            !(old(self).state is Recording) ==> r == Err::<(), RecorderError>(
                RecorderError::NotRecording,
            ) && *final(self) == *old(self),
    {
        if matches!(self.state, RecorderState::Recording) {
            self.state = RecorderState::Ended;
            Ok(())
        } else {
            Err(RecorderError::NotRecording)
        }
    }

    /// Hands the closed main buffer to the graphics queue: the submission
    /// waits at the color-attachment-output stage on each wait semaphore,
    /// signals each signal semaphore, and signals the fence when the GPU
    /// finishes. The recorded commands move into the request; the buffer
    /// stays owned here for the next cycle's reset.
    pub fn submit_main_command_buffer(
        &mut self,
        wait_semaphores: Vec<SemaphoreRole>,
        signal_semaphores: Vec<SemaphoreRole>,
        fence: FenceRole,
    ) -> (request: SubmitRequest)
        requires
            old(self).state is Ended,
        ensures
            request.buffer is Main,
            request.commands@ == old(self).commands@,
            request.wait_semaphores@ == wait_semaphores@,
            request.wait_stage is ColorAttachmentOutput,
            request.signal_semaphores@ == signal_semaphores@,
            request.fence == fence,
            final(self).state is Submitted,
            final(self).commands@.len() == 0,
            final(self).queue == old(self).queue,
    {
        let mut commands: Vec<Command> = Vec::new();
        core::mem::swap(&mut commands, &mut self.commands);
        self.state = RecorderState::Submitted;
        SubmitRequest {
            buffer: CommandBufferRole::Main,
            commands,
            wait_semaphores,
            wait_stage: WaitStage::ColorAttachmentOutput,
            signal_semaphores,
            fence,
        }
    }
}

} // verus!
