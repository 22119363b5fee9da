//! The graphics pipeline: shader stage validation, the classification of
//! shader artifacts by their naming convention, and the fixed-function state
//! this engine always draws with.

use vstd::prelude::*;

use crate::device::ColorFormat;
use crate::errors::InitError;
use crate::swapchain::Extent2d;

verus! {

/// The programmable stages this engine binds.
#[derive(Clone, Copy, PartialEq, Eq, Structural, Debug)]
pub enum ShaderStageKind {
    Vertex,
    Fragment,
}

/// One compiled shader module and the stage it implements.
#[derive(Clone, Copy, PartialEq, Eq, Structural, Debug)]
pub struct ShaderStage {
    /// Driver handle of the compiled bytecode module.
    pub module: u64,
    pub kind: ShaderStageKind,
}

/// Primitive assembly topologies.
#[derive(Clone, Copy, PartialEq, Eq, Structural, Debug)]
pub enum Topology {
    TriangleList,
}

/// Which faces rasterization culls.
#[derive(Clone, Copy, PartialEq, Eq, Structural, Debug)]
pub enum CullMode {
    NoCulling,
    Front,
    Back,
}

/// Which winding order counts as the front face.
#[derive(Clone, Copy, PartialEq, Eq, Structural, Debug)]
pub enum FrontFace {
    CounterClockwise,
    Clockwise,
}

/// Depth comparison operators.
#[derive(Clone, Copy, PartialEq, Eq, Structural, Debug)]
pub enum CompareOp {
    Less,
    LessOrEqual,
}

/// The format of the depth attachment.
#[derive(Clone, Copy, PartialEq, Eq, Structural, Debug)]
pub enum DepthFormat {
    D32Float,
}

/// The compiled pipeline: its two stage modules, the formats it is bound
/// to, and the fixed-function state. Immutable after construction; a change
/// of target formats demands a rebuild, never mutation.
#[derive(Clone, Copy, PartialEq, Eq, Structural, Debug)]
pub struct Pipeline {
    pub vertex_module: u64,
    pub fragment_module: u64,
    pub topology: Topology,
    pub cull_mode: CullMode,
    pub front_face: FrontFace,
    pub sample_count: u32,
    pub depth_test: bool,
    pub depth_write: bool,
    pub depth_compare: CompareOp,
    pub viewport_extent: Extent2d,
    pub scissor_extent: Extent2d,
    pub blend_enabled: bool,
    pub color_format: ColorFormat,
    pub depth_format: DepthFormat,
    pub vertex_stride: u32,
}

/// How many stages of one kind a stage list holds.
pub open spec fn spec_count_kind(stages: Seq<ShaderStage>, kind: ShaderStageKind) -> int
    decreases stages.len(),
{
    if stages.len() == 0 {
        0
    } else {
        spec_count_kind(stages.drop_last(), kind) + if stages.last().kind == kind {
            1int
        } else {
            0
        }
    }
}

/// A stage list is valid exactly when it holds one vertex and one fragment
/// stage.
pub open spec fn spec_stages_valid(stages: Seq<ShaderStage>) -> bool {
    spec_count_kind(stages, ShaderStageKind::Vertex) == 1 && spec_count_kind(
        stages,
        ShaderStageKind::Fragment,
    ) == 1
}

/// The byte value of the dot separating the pieces of an artifact name.
pub const DOT_BYTE: u8 = 46;

/// The stage tag of a vertex shader artifact name: the bytes of `vert`.
pub open spec fn spec_vertex_tag() -> Seq<u8> {
    seq![118, 101, 114, 116]
}

/// The stage tag of a fragment shader artifact name: the bytes of `frag`.
pub open spec fn spec_fragment_tag() -> Seq<u8> {
    seq![102, 114, 97, 103]
}

/// The artifact name follows the `<name>.<stage>.<ext>` convention with the
/// given stage tag: its only two dots stand at `i` and `j`, and the bytes
/// strictly between them are the tag.
pub open spec fn spec_tagged(name: Seq<u8>, i: int, j: int, tag: Seq<u8>) -> bool {
    &&& 0 <= i < j < name.len()
    &&& name[i] == DOT_BYTE
    &&& name[j] == DOT_BYTE
    &&& forall|k: int| 0 <= k < name.len() && k != i && k != j ==> name[k] != DOT_BYTE
    &&& name.subrange(i + 1, j) == tag
}

/// Some dot pair tags the name with the given stage tag.
pub open spec fn spec_has_tag(name: Seq<u8>, tag: Seq<u8>) -> bool {
    exists|i: int, j: int| spec_tagged(name, i, j, tag)
}

/// Exactly two dots, standing at `d1` and `d2`.
pub open spec fn spec_exact_dots(name: Seq<u8>, d1: int, d2: int) -> bool {
    &&& 0 <= d1 < d2 < name.len()
    &&& name[d1] == DOT_BYTE
    &&& name[d2] == DOT_BYTE
    &&& forall|k: int| 0 <= k < name.len() && k != d1 && k != d2 ==> name[k] != DOT_BYTE
}

proof fn lemma_no_dot_no_tag(name: Seq<u8>, tag: Seq<u8>)
    requires
        forall|k: int| 0 <= k < name.len() ==> name[k] != DOT_BYTE,
    ensures
        !spec_has_tag(name, tag),
{
    assert forall|a: int, b: int| !spec_tagged(name, a, b, tag) by {
        if spec_tagged(name, a, b, tag) {
            assert(name[a] != DOT_BYTE);
        }
    }
}

proof fn lemma_one_dot_no_tag(name: Seq<u8>, d1: int, tag: Seq<u8>)
    requires
        0 <= d1 < name.len(),
        forall|k: int| 0 <= k < name.len() && k != d1 ==> name[k] != DOT_BYTE,
    ensures
        !spec_has_tag(name, tag),
{
    assert forall|a: int, b: int| !spec_tagged(name, a, b, tag) by {
        if spec_tagged(name, a, b, tag) {
            if a != d1 {
                assert(name[a] != DOT_BYTE);
            } else {
                assert(name[b] != DOT_BYTE);
            }
        }
    }
}

proof fn lemma_three_dots_no_tag(name: Seq<u8>, p1: int, p2: int, p3: int, tag: Seq<u8>)
    requires
        0 <= p1 < p2 < p3 < name.len(),
        name[p1] == DOT_BYTE,
        name[p2] == DOT_BYTE,
        name[p3] == DOT_BYTE,
    ensures
        !spec_has_tag(name, tag),
{
    assert forall|a: int, b: int| !spec_tagged(name, a, b, tag) by {
        if spec_tagged(name, a, b, tag) {
            if p1 != a && p1 != b {
                assert(name[p1] != DOT_BYTE);
            } else if p2 != a && p2 != b {
                assert(name[p2] != DOT_BYTE);
            } else {
                assert(p3 != a && p3 != b);
                assert(name[p3] != DOT_BYTE);
            }
        }
    }
}

/// With exactly two dots, a tag is carried exactly when it stands between
/// them: no other dot pair can witness it.
pub proof fn lemma_tag_between_the_dots(name: Seq<u8>, d1: int, d2: int, tag: Seq<u8>)
    requires
        spec_exact_dots(name, d1, d2),
    ensures
        spec_has_tag(name, tag) <==> name.subrange(d1 + 1, d2) == tag,
{
    if spec_has_tag(name, tag) {
        let (a, b) = choose|a: int, b: int| spec_tagged(name, a, b, tag);
        assert(a == d1 || a == d2);
        assert(b == d1 || b == d2);
        assert(a == d1 && b == d2);
    }
    if name.subrange(d1 + 1, d2) == tag {
        assert(spec_tagged(name, d1, d2, tag));
    }
}

/// Whether the bytes of `name` in `lo..hi` are exactly the four given ones.
fn middle_matches(name: &Vec<u8>, lo: usize, hi: usize, w0: u8, w1: u8, w2: u8, w3: u8) -> (r:
    bool)
    requires
        lo <= hi <= name@.len(),
    ensures
        r == (name@.subrange(lo as int, hi as int) == seq![w0, w1, w2, w3]),
{
    if hi - lo != 4 {
        proof {
            assert(name@.subrange(lo as int, hi as int).len() == hi - lo);
            assert(seq![w0, w1, w2, w3].len() == 4);
        }
        return false;
    }
    let r = name[lo] == w0 && name[lo + 1] == w1 && name[lo + 2] == w2 && name[lo + 3] == w3;
    proof {
        let mid = name@.subrange(lo as int, hi as int);
        assert(mid[0] == name@[lo as int]);
        assert(mid[1] == name@[lo as int + 1]);
        assert(mid[2] == name@[lo as int + 2]);
        assert(mid[3] == name@[lo as int + 3]);
        if r {
            assert(mid =~= seq![w0, w1, w2, w3]);
        }
    }
    r
}

/// Classifies a shader artifact by the `<name>.<stage>.<ext>` naming
/// convention: the middle piece `vert` marks a vertex shader and `frag` a
/// fragment shader; every other name shape is unknown.
pub fn stage_of_filename(name: &Vec<u8>) -> (r: Option<ShaderStageKind>)
    ensures
        match r {
            Some(kind) => if kind is Vertex {
                spec_has_tag(name@, spec_vertex_tag())
            } else {
                spec_has_tag(name@, spec_fragment_tag())
            },
            None => !spec_has_tag(name@, spec_vertex_tag()) && !spec_has_tag(
                name@,
                spec_fragment_tag(),
            ),
        },
{
    let mut d1: usize = 0;
    let mut d2: usize = 0;
    let mut dots: usize = 0;
    let mut i: usize = 0;
    while i < name.len()
        invariant
            i <= name@.len(),
            dots <= 2,
            dots == 0 ==> forall|k: int| 0 <= k < i ==> name@[k] != DOT_BYTE,
            dots == 1 ==> d1 < i && name@[d1 as int] == DOT_BYTE && forall|k: int|
                0 <= k < i && k != d1 ==> name@[k] != DOT_BYTE,
            dots == 2 ==> d1 < d2 < i && name@[d1 as int] == DOT_BYTE && name@[d2 as int] == DOT_BYTE
                && forall|k: int| 0 <= k < i && k != d1 && k != d2 ==> name@[k] != DOT_BYTE,
        decreases name@.len() - i,
    {
        if name[i] == DOT_BYTE {
            if dots == 0 {
                d1 = i;
                dots = 1;
            } else if dots == 1 {
                d2 = i;
                dots = 2;
            } else {
                proof {
                    lemma_three_dots_no_tag(
                        name@, d1 as int, d2 as int, i as int, spec_vertex_tag());
                    lemma_three_dots_no_tag(
                        name@, d1 as int, d2 as int, i as int, spec_fragment_tag());
                }
                return None;
            }
        }
        i = i + 1;
    }
    if dots == 0 {
        proof {
            lemma_no_dot_no_tag(name@, spec_vertex_tag());
            lemma_no_dot_no_tag(name@, spec_fragment_tag());
        }
        return None;
    }
    if dots == 1 {
        proof {
            lemma_one_dot_no_tag(name@, d1 as int, spec_vertex_tag());
            lemma_one_dot_no_tag(name@, d1 as int, spec_fragment_tag());
        }
        return None;
    }
    proof {
        assert(spec_exact_dots(name@, d1 as int, d2 as int));
        lemma_tag_between_the_dots(name@, d1 as int, d2 as int, spec_vertex_tag());
        lemma_tag_between_the_dots(name@, d1 as int, d2 as int, spec_fragment_tag());
    }
    if middle_matches(name, d1 + 1, d2, 118, 101, 114, 116) {
        proof {
            assert(seq![118, 101, 114, 116] =~= spec_vertex_tag());
        }
        return Some(ShaderStageKind::Vertex);
    }
    if middle_matches(name, d1 + 1, d2, 102, 114, 97, 103) {
        proof {
            assert(seq![102, 114, 97, 103] =~= spec_fragment_tag());
        }
        return Some(ShaderStageKind::Fragment);
    }
    proof {
        assert(seq![118, 101, 114, 116] =~= spec_vertex_tag());
        assert(seq![102, 114, 97, 103] =~= spec_fragment_tag());
    }
    None
}

/// Compiles the stage list and fixed-function state into the one pipeline
/// configuration this engine draws with: triangle lists, front-face culling
/// with counter-clockwise winding as front, single-sample rasterization,
/// depth test and write with less-or-equal comparison, a full-extent
/// viewport and scissor, and one unblended color attachment.
///
/// Fails exactly when the stage list does not hold one vertex and one
/// fragment stage; that is a configuration error and unrecoverable, since
/// the pipeline is load-bearing for every frame.
pub fn build_pipeline(
    stages: &Vec<ShaderStage>,
    color_format: ColorFormat,
    depth_format: DepthFormat,
    viewport_extent: Extent2d,
) -> (r: Result<Pipeline, InitError>)
    ensures
        match r {
            Ok(p) => {
                &&& spec_stages_valid(stages@)
                &&& exists|i: int|
                    0 <= i < stages@.len() && (#[trigger] stages@[i]).kind is Vertex
                        && p.vertex_module == stages@[i].module
                &&& exists|i: int|
                    0 <= i < stages@.len() && (#[trigger] stages@[i]).kind is Fragment
                        && p.fragment_module == stages@[i].module
                &&& p.topology is TriangleList
                &&& p.cull_mode is Front
                &&& p.front_face is CounterClockwise
                &&& p.sample_count == 1
                &&& p.depth_test
                &&& p.depth_write
                &&& p.depth_compare is LessOrEqual
                &&& p.viewport_extent == viewport_extent
                &&& p.scissor_extent == viewport_extent
                &&& !p.blend_enabled
                &&& p.color_format == color_format
                &&& p.depth_format == depth_format
                &&& p.vertex_stride == crate::mesh::VERTEX_STRIDE
            },
            Err(e) => e == InitError::PipelineCreation && !spec_stages_valid(stages@),
        },
{
    let mut vertex_count: usize = 0;
    let mut fragment_count: usize = 0;
    let mut vertex_module: u64 = 0;
    let mut fragment_module: u64 = 0;
    let mut i: usize = 0;
    while i < stages.len()
        invariant
            i <= stages@.len(),
            vertex_count == spec_count_kind(
                stages@.subrange(0, i as int),
                ShaderStageKind::Vertex,
            ),
            fragment_count == spec_count_kind(
                stages@.subrange(0, i as int),
                ShaderStageKind::Fragment,
            ),
            vertex_count <= i,
            fragment_count <= i,
            vertex_count >= 1 ==> exists|k: int|
                0 <= k < i && (#[trigger] stages@[k]).kind is Vertex
                    && vertex_module == stages@[k].module,
            fragment_count >= 1 ==> exists|k: int|
                0 <= k < i && (#[trigger] stages@[k]).kind is Fragment
                    && fragment_module == stages@[k].module,
        decreases stages@.len() - i,
    {
        proof {
            let pre = stages@.subrange(0, i as int);
            let post = stages@.subrange(0, i as int + 1);
            assert(post.drop_last() =~= pre);
            assert(post.last() == stages@[i as int]);
        }
        let stage = stages[i];
        match stage.kind {
            ShaderStageKind::Vertex => {
                if vertex_count == 0 {
                    vertex_module = stage.module;
                }
                vertex_count = vertex_count + 1;
            },
            ShaderStageKind::Fragment => {
                if fragment_count == 0 {
                    fragment_module = stage.module;
                }
                fragment_count = fragment_count + 1;
            },
        }
        i = i + 1;
    }
    proof {
        assert(stages@.subrange(0, stages@.len() as int) =~= stages@);
    }
    if vertex_count != 1 || fragment_count != 1 {
        return Err(InitError::PipelineCreation);
    }
    Ok(Pipeline {
        vertex_module,
        fragment_module,
        topology: Topology::TriangleList,
        cull_mode: CullMode::Front,
        front_face: FrontFace::CounterClockwise,
        sample_count: 1,
        depth_test: true,
        depth_write: true,
        depth_compare: CompareOp::LessOrEqual,
        viewport_extent,
        scissor_extent: viewport_extent,
        blend_enabled: false,
        color_format,
        depth_format,
        vertex_stride: crate::mesh::VERTEX_STRIDE as u32,
    })
}

} // verus!
