//! Building the graphics pipeline out of its two shaders.

use vstd::multiset::Multiset;
use vstd::prelude::*;

use crate::config::ONE_SAMPLE;
use crate::surface::Extent;

verus! {

/// The word at `i` of shader code whose bytes of low value come first.
pub open spec fn little_endian_word(code: Seq<u8>, i: int) -> int {
    code[4 * i] + 0x100 * code[4 * i + 1] + 0x1_0000 * code[4 * i + 2] + 0x100_0000 * code[4 * i
        + 3]
}

/// The word at `i` of shader code whose bytes of high value come first.
pub open spec fn big_endian_word(code: Seq<u8>, i: int) -> int {
    0x100_0000 * code[4 * i] + 0x1_0000 * code[4 * i + 1] + 0x100 * code[4 * i + 2] + code[4 * i
        + 3]
}

/// These are the words that the bytes make up in memory, in whichever of the two byte orders the
/// machine has.
pub open spec fn are_words_of(words: Seq<u32>, code: Seq<u8>) -> bool {
    &&& 4 * words.len() == code.len()
    &&& {
        ||| forall|i: int| 0 <= i < words.len() ==> #[trigger] words[i] == little_endian_word(code, i)
        ||| forall|i: int| 0 <= i < words.len() ==> #[trigger] words[i] == big_endian_word(code, i)
    }
}

/// `bytemuck::pod_collect_to_vec`: the bytes are copied as they are, and read as words in the byte
/// order of the machine. Said only of code that is made up of whole words.
#[verifier::external_body]
fn collect_words(code: &Vec<u8>) -> (words: Vec<u32>)
    ensures
        code@.len() % 4 == 0 ==> are_words_of(words@, code@),
{
    bytemuck::pod_collect_to_vec(code)
}

/// Shader code as the words that a shader module is made of. It consists of whole words.
pub fn shader_words(code: &Vec<u8>) -> (words: Vec<u32>)
    requires
        code@.len() % 4 == 0,
    ensures
        are_words_of(words@, code@),
{
    collect_words(code)
}

/// Each corner after the second makes a triangle with the two before it.
pub const TRIANGLE_STRIP: i32 = 4;

/// Triangles are filled.
pub const POLYGON_FILL: i32 = 0;

/// No triangle is left out, whichever way it faces.
pub const CULL_NONE: u32 = 0;

/// The front of a triangle has its corners clockwise.
pub const FRONT_CLOCKWISE: i32 = 1;

/// Red, green, blue and alpha are written.
pub const WRITE_RGBA: u32 = 0xf;

/// Factors of a blend.
pub const FACTOR_ZERO: i32 = 0;

pub const FACTOR_ONE: i32 = 1;

pub const FACTOR_SRC_ALPHA: i32 = 6;

pub const FACTOR_ONE_MINUS_SRC_ALPHA: i32 = 7;

/// The two products of a blend are added.
pub const BLEND_ADD: i32 = 0;

/// What the pipeline does that never changes.
#[derive(Clone, Copy, Debug, PartialEq, Eq, Structural)]
pub struct PipelineState {
    /// How many vertex buffers it reads, and how many attributes from them.
    pub vertex_bindings: u32,
    pub vertex_attributes: u32,
    pub topology: i32,
    pub polygon_mode: i32,
    pub cull_mode: u32,
    pub front_face: i32,
    pub samples: u32,
    pub write_mask: u32,
    pub blend: bool,
    pub src_color_factor: i32,
    pub dst_color_factor: i32,
    pub color_op: i32,
    pub src_alpha_factor: i32,
    pub dst_alpha_factor: i32,
    pub alpha_op: i32,
}

/// A strip of triangles without vertex buffers, which is blended over what is there.
pub open spec fn picture_state() -> PipelineState {
    PipelineState {
        vertex_bindings: 0,
        vertex_attributes: 0,
        topology: TRIANGLE_STRIP,
        polygon_mode: POLYGON_FILL,
        cull_mode: CULL_NONE,
        front_face: FRONT_CLOCKWISE,
        samples: ONE_SAMPLE,
        write_mask: WRITE_RGBA,
        blend: true,
        src_color_factor: FACTOR_SRC_ALPHA,
        dst_color_factor: FACTOR_ONE_MINUS_SRC_ALPHA,
        color_op: BLEND_ADD,
        src_alpha_factor: FACTOR_ONE,
        dst_alpha_factor: FACTOR_ZERO,
        alpha_op: BLEND_ADD,
    }
}

/// What the pipeline is made with.
pub fn pipeline_state() -> (state: PipelineState)
    ensures
        state == picture_state(),
{
    PipelineState {
        vertex_bindings: 0,
        vertex_attributes: 0,
        topology: TRIANGLE_STRIP,
        polygon_mode: POLYGON_FILL,
        cull_mode: CULL_NONE,
        front_face: FRONT_CLOCKWISE,
        samples: ONE_SAMPLE,
        write_mask: WRITE_RGBA,
        blend: true,
        src_color_factor: FACTOR_SRC_ALPHA,
        dst_color_factor: FACTOR_ONE_MINUS_SRC_ALPHA,
        color_op: BLEND_ADD,
        src_alpha_factor: FACTOR_ONE,
        dst_alpha_factor: FACTOR_ZERO,
        alpha_op: BLEND_ADD,
    }
}

/// The name of the function at which both shaders begin.
pub fn entry_point() -> (name: &'static str)
    ensures
        name@ == "main"@,
{
    "main"
}

/// The shaders of the pipeline.
#[derive(Clone, Copy, Debug, PartialEq, Eq, Structural)]
pub enum Shader {
    Vertex,
    Fragment,
}

/// How far a build has come.
#[derive(Clone, Copy, Debug, PartialEq, Eq, Structural)]
pub enum BuildPhase {
    VertexModule,
    FragmentModule { vertex: u64 },
    Pipeline { vertex: u64, fragment: u64 },
    /// The pipeline is there, and the modules are no longer needed.
    DropVertex { vertex: u64, fragment: u64, pipeline: u64 },
    DropFragment { fragment: u64, pipeline: u64 },
    Finished { pipeline: u64 },
}

/// The build of a pipeline with the given layout, which draws to images of the given format and
/// size.
#[derive(Clone, Copy, Debug, PartialEq, Eq, Structural)]
pub struct Build {
    pub format: i32,
    pub extent: Extent,
    pub layout: u64,
    pub phase: BuildPhase,
    /// The step of this phase went wrong, and the build ends there. What it has made stays.
    pub failed: bool,
}

/// What a build asks for.
#[derive(Clone, Copy, Debug, PartialEq, Eq, Structural)]
pub enum BuildAction {
    CreateModule { shader: Shader },
    /// The pipeline of the two modules. It fills the extent.
    CreatePipeline {
        vertex: u64,
        fragment: u64,
        format: i32,
        extent: Extent,
        layout: u64,
        state: PipelineState,
    },
    DestroyModule { module: u64 },
    Finished { pipeline: u64 },
    Failed,
}

/// What came of it.
#[derive(Clone, Copy, Debug, PartialEq, Eq, Structural)]
pub enum BuildReply {
    Done,
    Handle(u64),
    Failed,
}

/// What a build deals with.
#[derive(Clone, Copy, Debug, PartialEq, Eq, Structural)]
pub enum BuildPart {
    Module(u64),
    Pipeline(u64),
}

/// What a build asks for at each phase.
pub open spec fn build_action(build: Build) -> BuildAction {
    if build.failed {
        BuildAction::Failed
    } else {
        match build.phase {
            BuildPhase::VertexModule => BuildAction::CreateModule { shader: Shader::Vertex },
            BuildPhase::FragmentModule { .. } => BuildAction::CreateModule {
                shader: Shader::Fragment,
            },
            BuildPhase::Pipeline { vertex, fragment } => BuildAction::CreatePipeline {
                vertex,
                fragment,
                format: build.format,
                extent: build.extent,
                layout: build.layout,
                state: picture_state(),
            },
            BuildPhase::DropVertex { vertex, .. } => BuildAction::DestroyModule { module: vertex },
            BuildPhase::DropFragment { fragment, .. } => BuildAction::DestroyModule {
                module: fragment,
            },
            BuildPhase::Finished { pipeline } => BuildAction::Finished { pipeline },
        }
    }
}

/// The build after a reply.
pub open spec fn build_next(build: Build, reply: BuildReply) -> Build {
    match reply {
        BuildReply::Failed => Build { failed: true, ..build },
        BuildReply::Handle(handle) => match build.phase {
            BuildPhase::VertexModule => build.at(BuildPhase::FragmentModule { vertex: handle }),
            BuildPhase::FragmentModule { vertex } => build.at(
                BuildPhase::Pipeline { vertex, fragment: handle },
            ),
            BuildPhase::Pipeline { vertex, fragment } => build.at(
                BuildPhase::DropVertex { vertex, fragment, pipeline: handle },
            ),
            _ => build,
        },
        BuildReply::Done => match build.phase {
            BuildPhase::DropVertex { fragment, pipeline, .. } => build.at(
                BuildPhase::DropFragment { fragment, pipeline },
            ),
            BuildPhase::DropFragment { pipeline, .. } => build.at(
                BuildPhase::Finished { pipeline },
            ),
            _ => build,
        },
    }
}

impl Build {
    pub open spec fn at(self, phase: BuildPhase) -> Build {
        Build { phase, ..self }
    }

    /// The replies that the step of this phase can have. To destroy a module cannot fail.
    pub open spec fn expects(self, reply: BuildReply) -> bool {
        &&& !self.failed
        &&& match self.phase {
            BuildPhase::DropVertex { .. } => reply is Done,
            BuildPhase::DropFragment { .. } => reply is Done,
            BuildPhase::Finished { .. } => false,
            _ => reply is Handle || reply is Failed,
        }
    }

    /// What the build has made and not destroyed.
    pub open spec fn held(self) -> Multiset<BuildPart> {
        match self.phase {
            BuildPhase::VertexModule => Multiset::empty(),
            BuildPhase::FragmentModule { vertex } => Multiset::singleton(BuildPart::Module(vertex)),
            BuildPhase::Pipeline { vertex, fragment } => Multiset::singleton(
                BuildPart::Module(vertex),
            ).insert(BuildPart::Module(fragment)),
            BuildPhase::DropVertex { vertex, fragment, pipeline } => Multiset::singleton(
                BuildPart::Module(vertex),
            ).insert(BuildPart::Module(fragment)).insert(BuildPart::Pipeline(pipeline)),
            BuildPhase::DropFragment { fragment, pipeline } => Multiset::singleton(
                BuildPart::Module(fragment),
            ).insert(BuildPart::Pipeline(pipeline)),
            BuildPhase::Finished { pipeline } => Multiset::singleton(BuildPart::Pipeline(pipeline)),
        }
    }

    /// What the step of this phase made.
    pub open spec fn made(self, reply: BuildReply) -> Multiset<BuildPart> {
        match reply {
            BuildReply::Handle(handle) => if self.phase is Pipeline {
                Multiset::singleton(BuildPart::Pipeline(handle))
            } else {
                Multiset::singleton(BuildPart::Module(handle))
            },
            _ => Multiset::empty(),
        }
    }

    /// What the step of this phase destroyed.
    pub open spec fn destroyed(self) -> Multiset<BuildPart> {
        match build_action(self) {
            BuildAction::DestroyModule { module } => Multiset::singleton(BuildPart::Module(module)),
            _ => Multiset::empty(),
        }
    }

    /// How many steps are left.
    pub open spec fn steps_left(self) -> nat {
        if self.failed {
            0
        } else {
            match self.phase {
                BuildPhase::VertexModule => 5,
                BuildPhase::FragmentModule { .. } => 4,
                BuildPhase::Pipeline { .. } => 3,
                BuildPhase::DropVertex { .. } => 2,
                BuildPhase::DropFragment { .. } => 1,
                BuildPhase::Finished { .. } => 0,
            }
        }
    }

    /// Starts a build.
    pub fn start(format: i32, extent: Extent, layout: u64) -> (build: Build)
        ensures
            build == (Build {
                format,
                extent,
                layout,
                phase: BuildPhase::VertexModule,
                failed: false,
            }),
    {
        Build { format, extent, layout, phase: BuildPhase::VertexModule, failed: false }
    }

    /// What the build needs next.
    pub fn action(&self) -> (action: BuildAction)
        ensures
            action == build_action(*self),
    {
        if self.failed {
            return BuildAction::Failed;
        }
        match self.phase {
            BuildPhase::VertexModule => BuildAction::CreateModule { shader: Shader::Vertex },
            BuildPhase::FragmentModule { .. } => BuildAction::CreateModule {
                shader: Shader::Fragment,
            },
            BuildPhase::Pipeline { vertex, fragment } => BuildAction::CreatePipeline {
                vertex,
                fragment,
                format: self.format,
                extent: self.extent,
                layout: self.layout,
                state: pipeline_state(),
            },
            BuildPhase::DropVertex { vertex, .. } => BuildAction::DestroyModule { module: vertex },
            BuildPhase::DropFragment { fragment, .. } => BuildAction::DestroyModule {
                module: fragment,
            },
            BuildPhase::Finished { pipeline } => BuildAction::Finished { pipeline },
        }
    }

    /// Goes on after the reply to what the build asked for.
    pub fn advance(&mut self, reply: BuildReply)
        requires
            old(self).expects(reply),
        ensures
            *final(self) == build_next(*old(self), reply),
    {
        match reply {
            BuildReply::Failed => {
                self.failed = true;
            },
            BuildReply::Handle(handle) => match self.phase {
                BuildPhase::VertexModule => {
                    self.phase = BuildPhase::FragmentModule { vertex: handle };
                },
                BuildPhase::FragmentModule { vertex } => {
                    self.phase = BuildPhase::Pipeline { vertex, fragment: handle };
                },
                BuildPhase::Pipeline { vertex, fragment } => {
                    self.phase = BuildPhase::DropVertex { vertex, fragment, pipeline: handle };
                },
                _ => {},
            },
            BuildReply::Done => match self.phase {
                BuildPhase::DropVertex { fragment, pipeline, .. } => {
                    self.phase = BuildPhase::DropFragment { fragment, pipeline };
                },
                BuildPhase::DropFragment { pipeline, .. } => {
                    self.phase = BuildPhase::Finished { pipeline };
                },
                _ => {},
            },
        }
    }
}

/// No step of a build loses anything or destroys anything twice: what is held afterwards, and what
/// the step destroyed, is what was held before and what the step made. What a build holds when it
/// fails stays with it.
pub proof fn law_build_keeps_account(build: Build, reply: BuildReply)
    requires
        build.expects(reply),
    ensures
        build_next(build, reply).held().add(build.destroyed()) == build.held().add(
            build.made(reply),
        ),
{
    assert(build_next(build, reply).held().add(build.destroyed()) =~= build.held().add(
        build.made(reply),
    ));
}

/// Of a build that has run to its end only the pipeline is left, which was made of the two modules
/// for the given format, size and layout.
pub proof fn law_build_leaves_no_module(
    start: Build,
    vertex: u64,
    fragment: u64,
    pipeline: u64,
)
    requires
        start.phase == BuildPhase::VertexModule,
        !start.failed,
    ensures
        ({
            let first = build_next(start, BuildReply::Handle(vertex));
            let both = build_next(first, BuildReply::Handle(fragment));
            let built = build_next(both, BuildReply::Handle(pipeline));
            let end = build_next(build_next(built, BuildReply::Done), BuildReply::Done);
            &&& build_action(both) == (BuildAction::CreatePipeline {
                vertex,
                fragment,
                format: start.format,
                extent: start.extent,
                layout: start.layout,
                state: picture_state(),
            })
            &&& build_action(end) == (BuildAction::Finished { pipeline })
            &&& end.held() == Multiset::singleton(BuildPart::Pipeline(pipeline))
        }),
{
}

/// What a factor of a blend stands for, in parts of `one`, for a source of this alpha.
pub open spec fn factor_value(factor: i32, alpha: int, one: int) -> int {
    if factor == FACTOR_ONE {
        one
    } else if factor == FACTOR_SRC_ALPHA {
        alpha
    } else if factor == FACTOR_ONE_MINUS_SRC_ALPHA {
        one - alpha
    } else {
        0
    }
}

/// The color that the pipeline leaves where it draws `src` with this alpha over `dst`, in parts of
/// `one`.
pub open spec fn blended_color(state: PipelineState, src: int, dst: int, alpha: int, one: int) -> int {
    src * factor_value(state.src_color_factor, alpha, one) + dst * factor_value(
        state.dst_color_factor,
        alpha,
        one,
    )
}

/// The alpha that the pipeline leaves there.
pub open spec fn blended_alpha(state: PipelineState, dst: int, alpha: int, one: int) -> int {
    alpha * factor_value(state.src_alpha_factor, alpha, one) + dst * factor_value(
        state.dst_alpha_factor,
        alpha,
        one,
    )
}

/// A picture is drawn over what is there: each color is weighted with the alpha of the picture, and
/// what was there with the rest; alpha is that of the picture. What is opaque hides what was
/// there, and what is transparent leaves it.
pub proof fn law_pictures_are_blended(src: int, dst: int, alpha: int, one: int)
    ensures
        blended_color(picture_state(), src, dst, alpha, one) == src * alpha + dst * (one - alpha),
        blended_alpha(picture_state(), dst, alpha, one) == alpha * one,
        blended_color(picture_state(), src, dst, one, one) == src * one,
        blended_color(picture_state(), src, dst, 0, one) == dst * one,
{
}

/// Every step brings a build closer to its end.
pub proof fn law_build_ends(build: Build, reply: BuildReply)
    requires
        build.expects(reply),
    ensures
        build_next(build, reply).steps_left() < build.steps_left(),
{
}

/// What a build asks for, seen from outside: the vertex shader and then the fragment shader become
/// modules, the pipeline is made of just these, and then they go, the vertex shader first. What the
/// pipeline is made for does not change on the way, and after a failure nothing more is asked for.
pub proof fn law_build_step_by_step(build: Build, reply: BuildReply)
    requires
        build.expects(reply),
    ensures
        ({
            let next = build_next(build, reply);
            let request = build_action(next);
            &&& next.format == build.format
            &&& next.extent == build.extent
            &&& next.layout == build.layout
            &&& match (build_action(build), reply) {
                (_, BuildReply::Failed) => request == BuildAction::Failed && next.phase
                    == build.phase,
                (BuildAction::CreateModule { shader: Shader::Vertex }, BuildReply::Handle(vertex)) => {
                    &&& request == (BuildAction::CreateModule { shader: Shader::Fragment })
                    &&& next.phase == BuildPhase::FragmentModule { vertex }
                },
                (
                    BuildAction::CreateModule { shader: Shader::Fragment },
                    BuildReply::Handle(fragment),
                ) => {
                    &&& request matches BuildAction::CreatePipeline {
                        vertex,
                        fragment: f,
                        format,
                        extent,
                        layout,
                        ..
                    }
                    &&& build.phase == BuildPhase::FragmentModule { vertex }
                    &&& f == fragment
                    &&& format == build.format
                    &&& extent == build.extent
                    &&& layout == build.layout
                },
                (
                    BuildAction::CreatePipeline { vertex, fragment, .. },
                    BuildReply::Handle(pipeline),
                ) => {
                    &&& request == (BuildAction::DestroyModule { module: vertex })
                    &&& next.phase == BuildPhase::DropVertex { vertex, fragment, pipeline }
                },
                (BuildAction::DestroyModule { module }, BuildReply::Done) => match build.phase {
                    BuildPhase::DropVertex { vertex, fragment, pipeline } => {
                        &&& module == vertex
                        &&& request == (BuildAction::DestroyModule { module: fragment })
                        &&& next.phase == BuildPhase::DropFragment { fragment, pipeline }
                    },
                    BuildPhase::DropFragment { fragment, pipeline } => {
                        &&& module == fragment
                        &&& request == (BuildAction::Finished { pipeline })
                    },
                    _ => false,
                },
                _ => false,
            }
        }),
{
}

/// What the pipeline does, by the numbers of Vulkan: without vertex buffers it fills a strip of
/// triangles, whichever way they face, with one sample for each pixel, writes all four channels, and
/// blends.
pub proof fn law_pipeline_draws_a_filled_strip()
    ensures
        ({
            let state = picture_state();
            &&& state.vertex_bindings == 0
            &&& state.vertex_attributes == 0
            &&& state.topology == 4
            &&& state.polygon_mode == 0
            &&& state.cull_mode == 0
            &&& state.front_face == 1
            &&& state.samples == 1
            &&& state.write_mask == 0xf
            &&& state.blend
            &&& state.src_color_factor == 6
            &&& state.dst_color_factor == 7
            &&& state.color_op == 0
            &&& state.src_alpha_factor == 1
            &&& state.dst_alpha_factor == 0
            &&& state.alpha_op == 0
        }),
{
}

/// The four bytes of a word can be had back from it, in either byte order.
pub proof fn law_words_hold_their_bytes(code: Seq<u8>, i: int)
    ensures
        ({
            let word = little_endian_word(code, i);
            &&& word % 0x100 == code[4 * i]
            &&& (word / 0x100) % 0x100 == code[4 * i + 1]
            &&& (word / 0x1_0000) % 0x100 == code[4 * i + 2]
            &&& word / 0x100_0000 == code[4 * i + 3]
        }),
        ({
            let word = big_endian_word(code, i);
            &&& word / 0x100_0000 == code[4 * i]
            &&& (word / 0x1_0000) % 0x100 == code[4 * i + 1]
            &&& (word / 0x100) % 0x100 == code[4 * i + 2]
            &&& word % 0x100 == code[4 * i + 3]
        }),
{
}

} // verus!
