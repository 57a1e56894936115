//! The compute pass issued each frame: how many workgroups cover the image,
//! and which commands the pass records depending on what is ready.
use vstd::prelude::*;
use crate::binding::BindGroup;

verus! {

/// Edge length of the square workgroup the kernel is written for.
pub const WORKGROUP_SIZE: u32 = 8;

/// `q` is `len` divided by `size`, rounded up: the fewest tiles of `size` covering `len`.
pub open spec fn is_ceil_div(q: int, len: int, size: int) -> bool {
    q * size >= len && q * size < len + size
}

/// One command recorded into the compute pass.
#[derive(Clone, Copy, Debug, PartialEq, Eq, Structural)]
pub enum PassCommand {
    /// Use the compiled simulation kernel.
    SetPipeline,
    /// Attach the frame's bind group at the given group index.
    SetBindGroup { index: u32 },
    /// Launch `x` by `y` by `z` workgroups.
    DispatchWorkgroups { x: u32, y: u32, z: u32 },
}

/// The workgroup counts that cover a `width` by `height` image with square
/// workgroups of edge `workgroup_size`: each side divided and rounded up, by 1.
pub fn dispatch_workgroups(width: u32, height: u32, workgroup_size: u32) -> (r: (u32, u32, u32))
    requires
        workgroup_size > 0,
    ensures
        is_ceil_div(r.0 as int, width as int, workgroup_size as int),
        is_ceil_div(r.1 as int, height as int, workgroup_size as int),
        r.2 == 1,
{
    (ceil_div(width, workgroup_size), ceil_div(height, workgroup_size), 1)
}

fn ceil_div(len: u32, size: u32) -> (q: u32)
    requires
        size > 0,
    ensures
        is_ceil_div(q as int, len as int, size as int),
{
    let whole = len / size;
    let rest = len % size;
    assert(len == whole * size + rest) by (nonlinear_arith)
        requires
            size > 0,
            whole == len / size,
            rest == len % size,
    ;
    if rest == 0 {
        assert(is_ceil_div(whole as int, len as int, size as int)) by (nonlinear_arith)
            requires
                size > 0,
                len == whole * size,
        ;
        whole
    } else {
        assert(whole < u32::MAX) by (nonlinear_arith)
            requires
                len == whole * size + rest,
                0 < rest < size,
                len <= u32::MAX,
        ;
        assert(is_ceil_div(whole + 1, len as int, size as int)) by (nonlinear_arith)
            requires
                len == whole * size + rest,
                0 < rest < size,
        ;
        whole + 1
    }
}

/// The frame-graph node that runs the simulation kernel once per frame.
#[derive(Clone, Copy, Debug, PartialEq, Eq, Structural)]
pub struct GameOfLifeNode;

impl GameOfLifeNode {
    /// The commands of this frame's compute pass over a `width` by `height`
    /// image. While the kernel is still compiling or no bind group could be
    /// prepared the pass stays empty: the frame is skipped, not failed.
    pub fn run(&self, pipeline_ready: bool, bind_group: Option<&BindGroup>, width: u32, height: u32) -> (r:
        Vec<PassCommand>)
        ensures
            !pipeline_ready || bind_group is None ==> r@.len() == 0,
            pipeline_ready && bind_group is Some ==> {
                &&& r@.len() == 3
                &&& r@[0] == PassCommand::SetPipeline
                &&& r@[1] == (PassCommand::SetBindGroup { index: 0 })
                &&& r@[2] matches PassCommand::DispatchWorkgroups { x, y, z }
                &&& is_ceil_div(x as int, width as int, WORKGROUP_SIZE as int)
                &&& is_ceil_div(y as int, height as int, WORKGROUP_SIZE as int)
                &&& z == 1
            },
    {
        let mut commands: Vec<PassCommand> = Vec::new();
        if pipeline_ready && bind_group.is_some() {
            let (x, y, z) = dispatch_workgroups(width, height, WORKGROUP_SIZE);
            commands.push(PassCommand::SetPipeline);
            commands.push(PassCommand::SetBindGroup { index: 0 });
            commands.push(PassCommand::DispatchWorkgroups { x, y, z });
        }
        commands
    }
}

/// The invocations of a `groups_x` by `groups_y` dispatch of `size`-square
/// workgroups that store into texel `(x, y)` of a `width` by `height` image.
/// Each invocation stores only at its own global id, and a store outside the
/// image is discarded.
pub open spec fn writers_of(
    x: int,
    y: int,
    groups_x: int,
    groups_y: int,
    size: int,
    width: int,
    height: int,
) -> Set<(int, int)> {
    Set::new(
        |id: (int, int)|
            0 <= id.0 < groups_x * size && 0 <= id.1 < groups_y * size && id.0 < width && id.1
                < height && id == (x, y),
    )
}

/// With the workgroup counts of [`dispatch_workgroups`], every texel of the
/// image is stored by exactly one invocation, and nothing outside it is stored.
pub proof fn lemma_each_texel_written_once(
    width: u32,
    height: u32,
    groups_x: u32,
    groups_y: u32,
    size: u32,
)
    requires
        size > 0,
        is_ceil_div(groups_x as int, width as int, size as int),
        is_ceil_div(groups_y as int, height as int, size as int),
    ensures
        forall|x: int, y: int|
            0 <= x < width && 0 <= y < height ==> #[trigger] writers_of(
                x,
                y,
                groups_x as int,
                groups_y as int,
                size as int,
                width as int,
                height as int,
            ) == set![(x, y)],
        forall|x: int, y: int|
            !(0 <= x < width && 0 <= y < height) ==> #[trigger] writers_of(
                x,
                y,
                groups_x as int,
                groups_y as int,
                size as int,
                width as int,
                height as int,
            ) == Set::<(int, int)>::empty(),
{
    assert forall|x: int, y: int| 0 <= x < width && 0 <= y < height implies #[trigger] writers_of(
        x,
        y,
        groups_x as int,
        groups_y as int,
        size as int,
        width as int,
        height as int,
    ) == set![(x, y)] by {
        assert(writers_of(
            x,
            y,
            groups_x as int,
            groups_y as int,
            size as int,
            width as int,
            height as int,
        ) =~= set![(x, y)]);
    }
    assert forall|x: int, y: int| !(0 <= x < width && 0 <= y < height) implies #[trigger] writers_of(
        x,
        y,
        groups_x as int,
        groups_y as int,
        size as int,
        width as int,
        height as int,
    ) == Set::<(int, int)>::empty() by {
        assert(writers_of(
            x,
            y,
            groups_x as int,
            groups_y as int,
            size as int,
            width as int,
            height as int,
        ) =~= Set::<(int, int)>::empty());
    }
}

} // verus!
