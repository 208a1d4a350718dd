use vstd::arithmetic::div_mod::{lemma_div_by_multiple, lemma_div_is_ordered};
use vstd::prelude::*;

use crate::block_type::{BlockType, BLOCK_SIZE};

verus! {

/// Number of height samples, and of terrain blocks, in a map.
pub const MAP_LEN: u32 = 500;

/// A rise between neighbouring samples above this (0.3 units) is uphill.
pub const UPHILL_THRESHOLD: i64 = 300_000;

/// A fall between neighbouring samples above this (0.4 units) is downhill.
pub const DOWNHILL_THRESHOLD: i64 = 400_000;

/// Height gained over one uphill block: 0.1 · sin 45° − 0.005 units, rounded.
pub const SLOPE_RISE: i64 = 65_711;

/// How far below (uphill) or above (downhill) the running height a slope
/// block is centred: its rise less half of it rounded down, so 65_711 − 32_855.
pub const SLOPE_CENTRE: i64 = 32_856;

/// Leftward shift (0.02 units) that closes the seam next to a slope.
pub const SEAM_NUDGE: i64 = 20_000;

/// Largest number of blocks that placement handles; keeps every coordinate
/// well inside `i64`.
pub const MAX_BLOCKS: usize = 1_000_000_000;

/// A classified block with the vertical offset it adds to the terrain.
#[derive(Debug, Clone, Copy, PartialEq, Eq, Structural)]
pub struct TerrainBlock {
    pub kind: BlockType,
    pub offset: i64,
}

/// A colour with channels from 0 to 255.
#[derive(Debug, Clone, Copy, PartialEq, Eq, Structural)]
pub struct Rgb {
    pub red: u8,
    pub green: u8,
    pub blue: u8,
}

/// A block placed in the world: its kind, the position of its centre, and
/// its colour.
#[derive(Debug, Clone, Copy, PartialEq, Eq, Structural)]
pub struct PlacedSegment {
    pub kind: BlockType,
    pub x: i64,
    pub y: i64,
    pub color: Rgb,
}

/// The static terrain: every placed block, left to right.
#[derive(Debug, Clone, PartialEq, Eq)]
pub struct Terrain(pub Vec<PlacedSegment>);

// ---------------------------------------------------------------------------
// Classification

/// The raw kind of block `i` of a height sequence: the two ends are flat;
/// elsewhere the rise from the previous sample decides.
pub open spec fn raw_kind(h: Seq<i64>, i: int) -> BlockType {
    if i == 0 || i == h.len() - 1 {
        BlockType::Flat
    } else {
        let delta = h[i] - h[i - 1];
        if delta > UPHILL_THRESHOLD {
            BlockType::Uphill
        } else if delta < -DOWNHILL_THRESHOLD {
            BlockType::Downhill
        } else {
            BlockType::Flat
        }
    }
}

pub open spec fn classify(h: Seq<i64>) -> Seq<BlockType> {
    Seq::new(h.len(), |i: int| raw_kind(h, i))
}

/// Classifies each height sample by the rise from its predecessor.
pub fn heightmap_to_blocks(heights: &Vec<i64>) -> (r: Vec<BlockType>)
    ensures
        r@ == classify(heights@),
{
    let n = heights.len();
    let mut blocks: Vec<BlockType> = Vec::new();
    let mut i: usize = 0;
    while i < n
        invariant
            n == heights.len(),
            i <= n,
            blocks@ =~= classify(heights@).take(i as int),
        decreases n - i,
    {
        let kind = if i == 0 || i == n - 1 {
            BlockType::Flat
        } else {
            let delta: i128 = heights[i] as i128 - heights[i - 1] as i128;
            if delta > UPHILL_THRESHOLD as i128 {
                BlockType::Uphill
            } else if delta < -(DOWNHILL_THRESHOLD as i128) {
                BlockType::Downhill
            } else {
                BlockType::Flat
            }
        };
        blocks.push(kind);
        i = i + 1;
    }
    assert(classify(heights@).take(n as int) =~= classify(heights@));
    blocks
}

// ---------------------------------------------------------------------------
// Merging

/// The vertical offset a block of this kind adds to the terrain.
pub open spec fn slope_offset(kind: BlockType) -> int {
    match kind {
        BlockType::Flat => 0,
        BlockType::Uphill => SLOPE_RISE as int,
        BlockType::Downhill => -SLOPE_RISE,
    }
}

/// A block whose offset is the one its kind gives.
pub open spec fn well_formed(b: TerrainBlock) -> bool {
    b.offset == slope_offset(b.kind)
}

/// A slope right after a raw slope becomes flat; the offset follows the kind.
pub open spec fn merge_block(block: BlockType, prev: BlockType) -> TerrainBlock {
    let kind = if block.is_slope() && prev.is_slope() {
        BlockType::Flat
    } else {
        block
    };
    TerrainBlock { kind, offset: slope_offset(kind) as i64 }
}

/// Merges a raw classification: the first block is flat, every other block
/// is merged against the raw kind of its predecessor.
pub open spec fn merge(kinds: Seq<BlockType>) -> Seq<TerrainBlock> {
    Seq::new(
        kinds.len(),
        |i: int|
            if i == 0 {
                TerrainBlock { kind: BlockType::Flat, offset: 0 }
            } else {
                merge_block(kinds[i], kinds[i - 1])
            },
    )
}

/// Merges one block against the raw kind of the block before it.
pub fn process_block(block: BlockType, prev: BlockType) -> (r: TerrainBlock)
    ensures
        r == merge_block(block, prev),
{
    let kind = match block {
        BlockType::Flat => block,
        BlockType::Uphill | BlockType::Downhill => match prev {
            BlockType::Flat => block,
            BlockType::Uphill | BlockType::Downhill => BlockType::Flat,
        },
    };
    let offset = match kind {
        BlockType::Uphill => SLOPE_RISE,
        BlockType::Downhill => -SLOPE_RISE,
        BlockType::Flat => 0,
    };
    TerrainBlock { kind, offset }
}

/// Merges a raw classification so that no two slopes touch.
pub fn process_blocks(blocks: &Vec<BlockType>) -> (r: Vec<TerrainBlock>)
    ensures
        r@ == merge(blocks@),
{
    let n = blocks.len();
    let mut out: Vec<TerrainBlock> = Vec::new();
    let mut i: usize = 0;
    while i < n
        invariant
            n == blocks.len(),
            i <= n,
            out@ =~= merge(blocks@).take(i as int),
        decreases n - i,
    {
        let b = if i == 0 {
            TerrainBlock { kind: BlockType::Flat, offset: 0 }
        } else {
            process_block(blocks[i], blocks[i - 1])
        };
        out.push(b);
        i = i + 1;
    }
    assert(merge(blocks@).take(n as int) =~= merge(blocks@));
    out
}

// ---------------------------------------------------------------------------
// Colour

/// One channel of the gradient at `i` of `n` blocks: with p = i / n, the
/// colour `cyan + (blue + (red − blue)·p − cyan)·p`, which is
/// `cyan·(1 − p) + blue·p·(1 − p) + red·p²`, rounded down.
pub open spec fn channel(cyan: int, blue: int, red: int, i: int, n: int) -> int {
    (cyan * ((n - i) * n) + blue * (i * (n - i)) + red * (i * i)) / (n * n)
}

/// The colour of block `i` of `n`: cyan at the left end, through blue,
/// towards red (255, 6, 0) at the right end.
pub open spec fn gradient_matches(c: Rgb, i: int, n: int) -> bool {
    &&& c.red == channel(0, 0, 255, i, n)
    &&& c.green == channel(255, 0, 6, i, n)
    &&& c.blue == channel(255, 255, 0, i, n)
}

fn gradient_channel(cyan: u8, blue: u8, red: u8, i: usize, n: usize) -> (r: u8)
    requires
        0 < n <= MAX_BLOCKS,
        i <= n,
    ensures
        r == channel(cyan as int, blue as int, red as int, i as int, n as int),
{
    let iw = i as u128;
    let nw = n as u128;
    proof {
        let (ii, ni) = (i as int, n as int);
        let (a, b, c, nn) = ((ni - ii) * ni, ii * (ni - ii), ii * ii, ni * ni);
        assert(0 <= a <= nn && 0 <= b <= nn && 0 <= c <= nn && a + b + c == nn && nn
            <= 1_000_000_000_000_000_000 && nn > 0) by (nonlinear_arith)
            requires
                0 <= ii <= ni,
                0 < ni <= 1_000_000_000,
                a == (ni - ii) * ni,
                b == ii * (ni - ii),
                c == ii * ii,
                nn == ni * ni,
        ;
        let num = cyan as int * a + blue as int * b + red as int * c;
        assert(0 <= num <= 255 * nn) by (nonlinear_arith)
            requires
                0 <= a,
                0 <= b,
                0 <= c,
                a + b + c == nn,
                num == cyan as int * a + blue as int * b + red as int * c,
                0 <= cyan <= 255,
                0 <= blue <= 255,
                0 <= red <= 255,
        ;
        lemma_div_is_ordered(num, 255 * nn, nn);
        lemma_div_by_multiple(255, nn);
    }
    let num = cyan as u128 * ((nw - iw) * nw) + blue as u128 * (iw * (nw - iw)) + red as u128 * (iw
        * iw);
    (num / (nw * nw)) as u8
}

/// The colour of block `i` of a terrain of `len` blocks; `i == len` is the
/// far end of the gradient.
pub fn color_block(i: usize, len: usize) -> (r: Rgb)
    requires
        0 < len <= MAX_BLOCKS,
        i <= len,
    ensures
        gradient_matches(r, i as int, len as int),
{
    Rgb {
        red: gradient_channel(0, 0, 255, i, len),
        green: gradient_channel(255, 0, 6, i, len),
        blue: gradient_channel(255, 255, 0, i, len),
    }
}

// ---------------------------------------------------------------------------
// Placement

/// Whether block `i` is shifted left to close a seam: a slope always is, a
/// flat block is when it follows a slope.
pub open spec fn nudged(blocks: Seq<TerrainBlock>, i: int) -> bool {
    blocks[i].kind.is_slope() || (i > 0 && blocks[i - 1].kind.is_slope())
}

/// How far block `i` is shifted left: the seam nudge where it applies.
pub open spec fn nudge(blocks: Seq<TerrainBlock>, i: int) -> int {
    if nudged(blocks, i) {
        SEAM_NUDGE as int
    } else {
        0
    }
}

/// The running height after the first `k` blocks of the sweep: each block
/// raises it by its offset.
pub open spec fn running_height(blocks: Seq<TerrainBlock>, k: nat) -> int
    decreases k,
{
    if k == 0 {
        0
    } else {
        running_height(blocks, (k - 1) as nat) + blocks[k - 1].offset
    }
}

/// Horizontal position of block `i`: the running x advances by exactly one
/// block width per block, starting at zero; the nudge moves only where the
/// block itself is drawn.
pub open spec fn segment_x(blocks: Seq<TerrainBlock>, i: int) -> int {
    i * BLOCK_SIZE - nudge(blocks, i)
}

/// Vertical position of block `i`: the running height for a flat block, the
/// middle of its rise or fall for a slope.
pub open spec fn segment_y(blocks: Seq<TerrainBlock>, i: int) -> int {
    let y = running_height(blocks, (i + 1) as nat);
    match blocks[i].kind {
        BlockType::Flat => y,
        BlockType::Uphill => y - SLOPE_CENTRE,
        BlockType::Downhill => y + SLOPE_CENTRE,
    }
}

/// `segs` places `blocks`, one segment per block, in order.
pub open spec fn placed(blocks: Seq<TerrainBlock>, segs: Seq<PlacedSegment>) -> bool {
    &&& segs.len() == blocks.len()
    &&& forall|i: int|
        0 <= i < blocks.len() ==> {
            &&& (#[trigger] segs[i]).kind == blocks[i].kind
            &&& segs[i].x == segment_x(blocks, i)
            &&& segs[i].y == segment_y(blocks, i)
            &&& gradient_matches(segs[i].color, i, blocks.len() as int)
        }
}

/// Places merged blocks left to right.
pub fn place_blocks(blocks: &Vec<TerrainBlock>) -> (r: Vec<PlacedSegment>)
    requires
        blocks.len() <= MAX_BLOCKS,
        forall|i: int| 0 <= i < blocks.len() ==> well_formed(#[trigger] blocks[i]),
    ensures
        placed(blocks@, r@),
{
    let n = blocks.len();
    let mut out: Vec<PlacedSegment> = Vec::new();
    let mut x: i64 = -BLOCK_SIZE;
    let mut y: i64 = 0;
    let mut i: usize = 0;
    while i < n
        invariant
            n == blocks.len(),
            n <= MAX_BLOCKS,
            i <= n,
            forall|j: int| 0 <= j < blocks.len() ==> well_formed(#[trigger] blocks[j]),
            x == i * BLOCK_SIZE - BLOCK_SIZE,
            y == running_height(blocks@, i as nat),
            -(i * SLOPE_RISE) <= y <= i * SLOPE_RISE,
            out.len() == i,
            forall|j: int|
                0 <= j < i ==> {
                    &&& (#[trigger] out@[j]).kind == blocks@[j].kind
                    &&& out@[j].x == segment_x(blocks@, j)
                    &&& out@[j].y == segment_y(blocks@, j)
                    &&& gradient_matches(out@[j].color, j, n as int)
                },
        decreases n - i,
    {
        let block = blocks[i];
        assert(well_formed(blocks@[i as int]));
        let color = color_block(i, n);
        y = y + block.offset;
        x = x + BLOCK_SIZE;
        let nudge = match block.kind {
            BlockType::Flat => i > 0 && match blocks[i - 1].kind {
                BlockType::Flat => false,
                BlockType::Uphill | BlockType::Downhill => true,
            },
            BlockType::Uphill | BlockType::Downhill => true,
        };
        let seg_x = if nudge {
            x - SEAM_NUDGE
        } else {
            x
        };
        let seg_y = match block.kind {
            BlockType::Flat => y,
            BlockType::Uphill => y - SLOPE_CENTRE,
            BlockType::Downhill => y + SLOPE_CENTRE,
        };
        out.push(PlacedSegment { kind: block.kind, x: seg_x, y: seg_y, color });
        i = i + 1;
    }
    out
}

// ---------------------------------------------------------------------------
// The whole pipeline

/// The merged blocks of a height sequence.
pub open spec fn terrain_blocks(h: Seq<i64>) -> Seq<TerrainBlock> {
    merge(classify(h))
}

/// Every merged block carries the offset of its kind.
pub proof fn lemma_merge_well_formed(kinds: Seq<BlockType>)
    ensures
        forall|i: int| 0 <= i < kinds.len() ==> well_formed(#[trigger] merge(kinds)[i]),
{
}

/// Classifies, merges and places the blocks of a height sequence.
pub fn generate_terrain(heights: &Vec<i64>) -> (r: Terrain)
    requires
        heights.len() <= MAX_BLOCKS,
    ensures
        placed(terrain_blocks(heights@), r.0@),
{
    let raw_blocks = heightmap_to_blocks(heights);
    let blocks = process_blocks(&raw_blocks);
    proof {
        lemma_merge_well_formed(raw_blocks@);
    }
    Terrain(place_blocks(&blocks))
}

// ---------------------------------------------------------------------------
// Laws

/// Level ground (every sample at the same height) gives only flat blocks
/// with no offset.
pub proof fn lemma_level_ground_is_flat(h: Seq<i64>)
    requires
        forall|i: int, j: int| 0 <= i < h.len() && 0 <= j < h.len() ==> h[i] == h[j],
    ensures
        forall|i: int|
            0 <= i < h.len() ==> #[trigger] terrain_blocks(h)[i] == (TerrainBlock {
                kind: BlockType::Flat,
                offset: 0,
            }),
{
    assert forall|i: int| 0 <= i < h.len() implies #[trigger] classify(h)[i] == BlockType::Flat by {
        if i > 0 {
            assert(h[i] == h[i - 1]);
        }
    }
}

/// After merging, no two neighbouring blocks are both slopes.
pub proof fn lemma_slopes_never_touch(kinds: Seq<BlockType>)
    ensures
        forall|i: int|
            1 <= i < kinds.len() ==> !((#[trigger] merge(kinds)[i]).kind.is_slope() && merge(
                kinds,
            )[i - 1].kind.is_slope()),
{
    assert forall|i: int| 1 <= i < kinds.len() && (#[trigger] merge(kinds)[i]).kind.is_slope()
        implies !merge(kinds)[i - 1].kind.is_slope() by {
        assert(!kinds[i - 1].is_slope());
    }
}

/// Without its nudge, block `i` sits at exactly `i` block widths: the
/// running x advances by one block width per block.
pub proof fn lemma_x_unnudged(blocks: Seq<TerrainBlock>, i: int)
    requires
        0 <= i < blocks.len(),
    ensures
        segment_x(blocks, i) + nudge(blocks, i) == i * BLOCK_SIZE,
        nudge(blocks, i) == 0 || nudge(blocks, i) == SEAM_NUDGE,
{
}

/// From one block to the next, x advances by one block width, corrected
/// only by the two blocks' own nudges; so it always advances.
pub proof fn lemma_x_advances(blocks: Seq<TerrainBlock>, i: int)
    requires
        0 <= i,
        i + 1 < blocks.len(),
    ensures
        segment_x(blocks, i + 1) == segment_x(blocks, i) + BLOCK_SIZE + nudge(blocks, i) - nudge(
            blocks,
            i + 1,
        ),
        segment_x(blocks, i) < segment_x(blocks, i + 1),
{
}

/// Block positions strictly increase from left to right.
pub proof fn lemma_x_increasing(blocks: Seq<TerrainBlock>, i: int, j: int)
    requires
        0 <= i < j < blocks.len(),
    ensures
        segment_x(blocks, i) < segment_x(blocks, j),
    decreases j - i,
{
    lemma_x_advances(blocks, j - 1);
    if i < j - 1 {
        lemma_x_increasing(blocks, i, j - 1);
    }
}

} // verus!
