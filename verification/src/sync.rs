use vstd::prelude::*;

verus! {

/// A set of stages of the execution pipeline, one flag for each stage.
#[derive(Clone, Copy, Debug, PartialEq, Eq, Hash, Structural)]
pub struct PipelineStages {
    pub top_of_pipe: bool,
    pub draw_indirect: bool,
    pub vertex_input: bool,
    pub vertex_shader: bool,
    pub tessellation_control_shader: bool,
    pub tessellation_evaluation_shader: bool,
    pub geometry_shader: bool,
    pub fragment_shader: bool,
    pub early_fragment_tests: bool,
    pub late_fragment_tests: bool,
    pub color_attachment_output: bool,
    pub compute_shader: bool,
    pub transfer: bool,
    pub bottom_of_pipe: bool,
    pub host: bool,
    pub all_graphics: bool,
    pub all_commands: bool,
}

impl PipelineStages {
    /// The empty set of stages.
    pub open spec fn spec_none() -> PipelineStages {
        PipelineStages {
            top_of_pipe: false,
            draw_indirect: false,
            vertex_input: false,
            vertex_shader: false,
            tessellation_control_shader: false,
            tessellation_evaluation_shader: false,
            geometry_shader: false,
            fragment_shader: false,
            early_fragment_tests: false,
            late_fragment_tests: false,
            color_attachment_output: false,
            compute_shader: false,
            transfer: false,
            bottom_of_pipe: false,
            host: false,
            all_graphics: false,
            all_commands: false,
        }
    }

    /// The top of the pipe alone: the stage that waits for no earlier work.
    pub open spec fn spec_top_of_pipe() -> PipelineStages {
        PipelineStages { top_of_pipe: true, ..PipelineStages::spec_none() }
    }

    /// The flag for all commands alone: every stage of every command.
    pub open spec fn spec_all_commands() -> PipelineStages {
        PipelineStages { all_commands: true, ..PipelineStages::spec_none() }
    }

    /// The empty set of stages.
    #[verifier::when_used_as_spec(spec_none)]
    pub fn none() -> (r: PipelineStages)
        ensures
            r == PipelineStages::spec_none(),
    {
        PipelineStages {
            top_of_pipe: false,
            draw_indirect: false,
            vertex_input: false,
            vertex_shader: false,
            tessellation_control_shader: false,
            tessellation_evaluation_shader: false,
            geometry_shader: false,
            fragment_shader: false,
            early_fragment_tests: false,
            late_fragment_tests: false,
            color_attachment_output: false,
            compute_shader: false,
            transfer: false,
            bottom_of_pipe: false,
            host: false,
            all_graphics: false,
            all_commands: false,
        }
    }

    /// The top of the pipe alone.
    #[verifier::when_used_as_spec(spec_top_of_pipe)]
    pub fn top_of_pipe() -> (r: PipelineStages)
        ensures
            r == PipelineStages::spec_top_of_pipe(),
    {
        let mut r = PipelineStages::none();
        r.top_of_pipe = true;
        r
    }

    /// The flag for all commands alone.
    #[verifier::when_used_as_spec(spec_all_commands)]
    pub fn all_commands() -> (r: PipelineStages)
        ensures
            r == PipelineStages::spec_all_commands(),
    {
        let mut r = PipelineStages::none();
        r.all_commands = true;
        r
    }
}

/// A set of kinds of memory access, one flag for each kind.
#[derive(Clone, Copy, Debug, PartialEq, Eq, Hash, Structural)]
pub struct AccessFlagBits {
    pub indirect_command_read: bool,
    pub index_read: bool,
    pub vertex_attribute_read: bool,
    pub uniform_read: bool,
    pub input_attachment_read: bool,
    pub shader_read: bool,
    pub shader_write: bool,
    pub color_attachment_read: bool,
    pub color_attachment_write: bool,
    pub depth_stencil_attachment_read: bool,
    pub depth_stencil_attachment_write: bool,
    pub transfer_read: bool,
    pub transfer_write: bool,
    pub host_read: bool,
    pub host_write: bool,
    pub memory_read: bool,
    pub memory_write: bool,
}

impl AccessFlagBits {
    /// The empty set of accesses.
    pub open spec fn spec_none() -> AccessFlagBits {
        AccessFlagBits {
            indirect_command_read: false,
            index_read: false,
            vertex_attribute_read: false,
            uniform_read: false,
            input_attachment_read: false,
            shader_read: false,
            shader_write: false,
            color_attachment_read: false,
            color_attachment_write: false,
            depth_stencil_attachment_read: false,
            depth_stencil_attachment_write: false,
            transfer_read: false,
            transfer_write: false,
            host_read: false,
            host_write: false,
            memory_read: false,
            memory_write: false,
        }
    }

    /// The empty set of accesses.
    #[verifier::when_used_as_spec(spec_none)]
    pub fn none() -> (r: AccessFlagBits)
        ensures
            r == AccessFlagBits::spec_none(),
    {
        AccessFlagBits {
            indirect_command_read: false,
            index_read: false,
            vertex_attribute_read: false,
            uniform_read: false,
            input_attachment_read: false,
            shader_read: false,
            shader_write: false,
            color_attachment_read: false,
            color_attachment_write: false,
            depth_stencil_attachment_read: false,
            depth_stencil_attachment_write: false,
            transfer_read: false,
            transfer_write: false,
            host_read: false,
            host_write: false,
            memory_read: false,
            memory_write: false,
        }
    }
}

/// A fence: the object through which the host learns that submitted work has completed.
/// The library holds it by its handle.
#[derive(Clone, Copy, Debug, PartialEq, Eq, Hash, Structural)]
pub struct Fence {
    pub handle: u64,
}

/// A semaphore: the object through which work on one queue waits for work on another.
/// The library holds it by its handle.
#[derive(Clone, Copy, Debug, PartialEq, Eq, Hash, Structural)]
pub struct Semaphore {
    pub handle: u64,
}

} // verus!
