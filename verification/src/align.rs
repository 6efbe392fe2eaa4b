//! Page-alignment arithmetic for mapping requests.
//!
//! Mapping offsets handed to the operating system must be multiples of the
//! system allocation granularity. A caller's `(offset, len)` request is
//! therefore rounded down to an aligned base, the distance rounded over is
//! kept as the offset adjustment, and the mapped length grows by the same
//! amount, so that the visible window is exactly the requested range.

use vstd::arithmetic::div_mod::lemma_fundamental_div_mod;
use vstd::arithmetic::div_mod::lemma_mod_breakdown;
use vstd::arithmetic::div_mod::lemma_mod_multiples_basic;
use vstd::prelude::*;

verus! {

use crate::errors::HandleOpenError;
use crate::errors::MmapError;

/// True exactly when `g` is a power of two; the shape the system's
/// allocation granularity is guaranteed to have.
pub open spec fn spec_is_power_of_two(g: u32) -> bool {
    g != 0 && g & ((g - 1) as u32) == 0
}

/// Decides whether `g` is a nonzero power of two, the only shape a
/// system allocation granularity can take.
pub fn is_power_of_two(g: u32) -> (r: bool)
    ensures
        r == spec_is_power_of_two(g),
{
    g != 0 && g & (g - 1) == 0
}

/// Distance from the aligned mapping base back up to the requested offset.
pub open spec fn spec_adjustment(offset: u64, granularity: u32) -> int {
    offset as int % granularity as int
}

/// The requested offset rounded down to the allocation granularity.
pub open spec fn spec_aligned_offset(offset: u64, granularity: u32) -> int {
    offset - spec_adjustment(offset, granularity)
}

/// A mapping request resolved against the allocation granularity: either
/// the degenerate empty mapping, for which no native call is made, or the
/// aligned range to hand to the native mapping primitive.
#[derive(Debug, Clone, Copy, PartialEq, Eq, Structural)]
pub enum MapPlan {
    /// Nothing to map: no native call, null data pointer, zero length.
    Empty,
    /// Map `mapped_len` bytes starting at the aligned `aligned_offset`;
    /// the caller's data begins `offset_adjustment` bytes into the region.
    Mapped {
        /// File offset of the mapping base, a multiple of the granularity.
        aligned_offset: u64,
        /// Bytes between the mapping base and the requested offset.
        offset_adjustment: usize,
        /// Total length of the native mapping, adjustment included.
        mapped_len: usize,
    },
}

/// The plan for a request of `len` bytes at `offset` under the given
/// allocation granularity.
pub open spec fn spec_plan(offset: u64, len: usize, granularity: u32) -> MapPlan {
    if len == 0 {
        MapPlan::Empty
    } else {
        MapPlan::Mapped {
            aligned_offset: spec_aligned_offset(offset, granularity) as u64,
            offset_adjustment: spec_adjustment(offset, granularity) as usize,
            mapped_len: (len + spec_adjustment(offset, granularity)) as usize,
        }
    }
}

/// For a power-of-two divisor, masking with the divisor less one is the
/// remainder: `x & (g - 1) == x % g`.
pub proof fn lemma_mask_is_mod(x: u64, g: u64)
    requires
        g != 0,
        g & ((g - 1) as u64) == 0,
    ensures
        x & ((g - 1) as u64) == x % g,
    decreases g,
{
    if g == 1 {
        assert(x & 0 == 0) by (bit_vector);
    } else {
        let h = g / 2;
        assert(g % 2 == 0 && h != 0 && (h & ((h - 1) as u64)) == 0) by (bit_vector)
            requires
                g != 0 && g != 1 && (g & ((g - 1) as u64)) == 0 && h == g / 2,
        ;
        lemma_mask_is_mod(x / 2, h);
        assert(x & ((g - 1) as u64) == 2 * ((x / 2) & ((h - 1) as u64)) + (x % 2)) by (bit_vector)
            requires
                g != 0 && g != 1 && (g & ((g - 1) as u64)) == 0 && h == g / 2,
        ;
        lemma_mod_breakdown(x as int, 2, h as int);
        lemma_fundamental_div_mod(g as int, 2);
    }
}

/// Resolves a mapping request to the aligned range handed to the native
/// mapping primitive, using the mask arithmetic
/// `aligned_offset = offset & !(granularity - 1)`.
///
/// A zero-length request yields the empty plan and must cause no native
/// call at all.
pub fn plan_mapping(offset: u64, len: usize, granularity: u32) -> (p: MapPlan)
    requires
        spec_is_power_of_two(granularity),
        spec_adjustment(offset, granularity) + len <= usize::MAX,
    ensures
        p == spec_plan(offset, len, granularity),
{
    if len == 0 {
        return MapPlan::Empty;
    }
    let g: u64 = granularity as u64;
    let aligned_offset: u64 = offset & !(g - 1);
    proof {
        assert(g != 0 && (g & ((g - 1) as u64)) == 0) by (bit_vector)
            requires
                granularity != 0 && (granularity & ((granularity - 1) as u32)) == 0 && g
                    == granularity as u64,
        ;
        lemma_mask_is_mod(offset, g);
        assert((offset & !((g - 1) as u64)) == offset - (offset & ((g - 1) as u64)))
            by (bit_vector);
        assert(offset % g == spec_adjustment(offset, granularity));
    }
    let adjustment_wide: u64 = offset - aligned_offset;
    let offset_adjustment: usize = adjustment_wide as usize;
    let mapped_len: usize = len + offset_adjustment;
    MapPlan::Mapped { aligned_offset, offset_adjustment, mapped_len }
}

/// The mapping base chosen by the plan is aligned to the granularity, and
/// the visible window — `offset_adjustment` bytes into the mapped range,
/// `mapped_len - offset_adjustment` bytes long — is exactly the requested
/// `offset .. offset + len`, whether or not `offset` itself is aligned.
pub proof fn lemma_plan_preserves_requested_window(offset: u64, len: usize, granularity: u32)
    requires
        granularity != 0,
        len > 0,
        spec_adjustment(offset, granularity) + len <= usize::MAX,
    ensures
        spec_plan(offset, len, granularity) matches MapPlan::Mapped {
            aligned_offset,
            offset_adjustment,
            mapped_len,
        } && aligned_offset + offset_adjustment == offset && mapped_len - offset_adjustment == len
            && aligned_offset % (granularity as u64) == 0 && offset_adjustment < granularity,
{
    let g = granularity as int;
    let a = spec_adjustment(offset, granularity);
    lemma_fundamental_div_mod(offset as int, g);
    lemma_mod_multiples_basic(offset as int / g, g);
}

/// A zero-length request always resolves to the empty plan, for any offset
/// and any granularity: no native mapping call is ever made for it.
pub proof fn lemma_zero_length_request_is_empty(offset: u64, granularity: u32)
    ensures
        spec_plan(offset, 0, granularity) == MapPlan::Empty,
{
}

/// Two requests over disjoint byte ranges of a file show disjoint file
/// positions, even though alignment may make their native regions share
/// pages: the first visible window, `a1 + d1 .. a1 + m1`, ends at or
/// before the second, `a2 + d2 .. a2 + m2`, begins.
pub proof fn lemma_disjoint_requests_show_disjoint_bytes(
    offset1: u64,
    len1: usize,
    offset2: u64,
    len2: usize,
    granularity: u32,
)
    requires
        granularity != 0,
        len1 > 0,
        len2 > 0,
        spec_adjustment(offset1, granularity) + len1 <= usize::MAX,
        spec_adjustment(offset2, granularity) + len2 <= usize::MAX,
        offset1 + len1 <= offset2,
    ensures
        spec_plan(offset1, len1, granularity) matches MapPlan::Mapped {
            aligned_offset: a1,
            offset_adjustment: d1,
            mapped_len: m1,
        } && spec_plan(offset2, len2, granularity) matches MapPlan::Mapped {
            aligned_offset: a2,
            offset_adjustment: d2,
            mapped_len: m2,
        } && a1 + m1 <= a2 + d2,
{
    lemma_plan_preserves_requested_window(offset1, len1, granularity);
    lemma_plan_preserves_requested_window(offset2, len2, granularity);
}

/// The length actually mapped under the trim-to-file-size policy: the
/// request is clamped so it never reaches past the end of the file, and an
/// offset at or past the end (or a degenerate non-positive file size)
/// yields an empty mapping.
pub open spec fn spec_trimmed_len(file_size: i64, offset: u64, len: usize) -> int {
    if file_size <= 0 || offset >= file_size {
        0
    } else if file_size - offset < len {
        file_size - offset
    } else {
        len as int
    }
}

/// Clamps a requested mapping length to the file size, as the
/// trim-to-file-size policy asks.
///
/// The size is accepted as the result of the caller's size query; a failed
/// query surfaces as the mapping error reserved for it.
pub fn adjust_len_to_file_size(
    file_size: Result<i64, HandleOpenError>,
    offset: u64,
    len: usize,
) -> (r: Result<usize, MmapError>)
    ensures
        file_size matches Err(_) ==> r == Err::<usize, MmapError>(MmapError::FailedToGetFileSize),
        file_size matches Ok(s) ==> r matches Ok(l) && l == spec_trimmed_len(s, offset, len),
{
    match file_size {
        Err(_) => Err(MmapError::failed_to_get_file_size()),
        Ok(s) => {
            if s <= 0 {
                return Ok(0);
            }
            let size: u64 = s as u64;
            if offset >= size {
                return Ok(0);
            }
            let remaining: u64 = size - offset;
            if remaining < len as u64 {
                Ok(remaining as usize)
            } else {
                Ok(len)
            }
        },
    }
}

/// Resolves a mapping request under the trim-to-file-size policy: the
/// requested length is clamped to the file size first, then aligned as in
/// [`plan_mapping`].
pub fn plan_mapping_trimmed(
    file_size: Result<i64, HandleOpenError>,
    offset: u64,
    len: usize,
    granularity: u32,
) -> (r: Result<MapPlan, MmapError>)
    requires
        spec_is_power_of_two(granularity),
        spec_adjustment(offset, granularity) + len <= usize::MAX,
    ensures
        file_size matches Err(_) ==> r == Err::<MapPlan, MmapError>(
            MmapError::FailedToGetFileSize,
        ),
        file_size matches Ok(s) ==> r matches Ok(p) && p == spec_plan(
            offset,
            spec_trimmed_len(s, offset, len) as usize,
            granularity,
        ),
{
    let trimmed = match adjust_len_to_file_size(file_size, offset, len) {
        Ok(l) => l,
        Err(e) => {
            return Err(e);
        },
    };
    Ok(plan_mapping(offset, trimmed, granularity))
}

/// Under the trim-to-file-size policy: a request that fits is kept whole,
/// a request reaching past the end of the file is cut to the remaining
/// bytes, and a request starting at or past the end maps nothing.
pub proof fn lemma_trim_policy(file_size: i64, offset: u64, len: usize)
    ensures
        offset >= file_size ==> spec_trimmed_len(file_size, offset, len) == 0,
        0 < file_size && offset < file_size && file_size - offset < len ==> spec_trimmed_len(
            file_size,
            offset,
            len,
        ) == file_size - offset,
        0 < file_size && offset + len <= file_size ==> spec_trimmed_len(file_size, offset, len)
            == len,
        0 <= spec_trimmed_len(file_size, offset, len) <= len,
{
}

/// The caller-facing state of a live mapping: the native base address, the
/// offset adjustment left over from alignment, and the total mapped
/// length. The visible region starts `offset_adjustment` bytes into the
/// native region and is `mapped_len - offset_adjustment` bytes long.
#[derive(Debug, Clone, Copy, PartialEq, Eq, Structural)]
pub struct MappingView {
    /// Native base address of the mapped region; `0` for the empty mapping.
    pub base: usize,
    /// Bytes between the native base and the first visible byte.
    pub offset_adjustment: usize,
    /// Total length of the native region, adjustment included.
    pub mapped_len: usize,
}

impl MappingView {
    /// The adjustment never exceeds the mapped length, the region fits in
    /// the address space, and the empty mapping is the all-zero view with
    /// the null base.
    pub open spec fn wf(self) -> bool {
        self.offset_adjustment <= self.mapped_len && self.base + self.mapped_len <= usize::MAX && (
        self.mapped_len == 0 ==> self.base == 0 && self.offset_adjustment == 0)
    }

    /// The empty mapping: null base, no adjustment, no length.
    pub fn empty() -> (v: Self)
        ensures
            v == (MappingView { base: 0, offset_adjustment: 0, mapped_len: 0 }),
            v.wf(),
    {
        MappingView { base: 0, offset_adjustment: 0, mapped_len: 0 }
    }

    /// View of a live native mapping at `base`, as produced by a
    /// [`MapPlan::Mapped`] plan.
    pub fn new(base: usize, offset_adjustment: usize, mapped_len: usize) -> (v: Self)
        requires
            0 < mapped_len,
            offset_adjustment <= mapped_len,
            0 < base,
            base + mapped_len <= usize::MAX,
        ensures
            v == (MappingView { base, offset_adjustment, mapped_len }),
            v.wf(),
    {
        MappingView { base, offset_adjustment, mapped_len }
    }

    /// Address of the first visible byte: the native base advanced by the
    /// offset adjustment. The empty mapping reports the null address.
    pub fn data(&self) -> (r: usize)
        requires
            self.wf(),
        ensures
            r == self.base + self.offset_adjustment,
    {
        self.base + self.offset_adjustment
    }

    /// Visible length: the total mapped length minus the offset
    /// adjustment, which is exactly the requested length.
    pub fn len(&self) -> (r: usize)
        requires
            self.wf(),
        ensures
            r == self.mapped_len - self.offset_adjustment,
    {
        self.mapped_len - self.offset_adjustment
    }

    /// Whether the mapping shows no bytes at all.
    pub fn is_empty(&self) -> (r: bool)
        requires
            self.wf(),
        ensures
            r == (self.mapped_len == self.offset_adjustment),
    {
        self.mapped_len - self.offset_adjustment == 0
    }
}

/// The native size-changing call to make so a file of `current_size` bytes
/// ends up with exactly `target_size` bytes.
#[derive(Debug, Clone, Copy, PartialEq, Eq, Structural)]
pub enum ResizeCall {
    /// Grow by reserving space without zero-fill, where the platform
    /// offers it.
    SpaceReservingAllocate,
    /// Shrink by truncating to the target length.
    TruncateToLength,
    /// The file already has the target size; no call at all.
    NoOp,
}

/// Decides how to resize a file from `current_size` to exactly
/// `target_size`: growing reserves space without zero-fill, shrinking
/// truncates, and an exact match touches nothing.
pub fn plan_resize(current_size: i64, target_size: i64) -> (c: ResizeCall)
    ensures
        target_size > current_size ==> c == ResizeCall::SpaceReservingAllocate,
        target_size < current_size ==> c == ResizeCall::TruncateToLength,
        target_size == current_size ==> c == ResizeCall::NoOp,
{
    if target_size > current_size {
        ResizeCall::SpaceReservingAllocate
    } else if target_size < current_size {
        ResizeCall::TruncateToLength
    } else {
        ResizeCall::NoOp
    }
}

} // verus!
