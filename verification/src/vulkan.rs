//! Swapchain and device decisions of the Vulkan path, over the plain values
//! the Vulkan API reports (raw enum values, flag bits and extents).

use vstd::prelude::*;

verus! {

/// `VK_PRESENT_MODE_MAILBOX_KHR`.
pub const PRESENT_MODE_MAILBOX: i32 = 1;

/// `VK_PRESENT_MODE_FIFO_KHR`, which every device supports.
pub const PRESENT_MODE_FIFO: i32 = 2;

/// `VK_FORMAT_B8G8R8A8_SRGB`.
pub const FORMAT_B8G8R8A8_SRGB: i32 = 50;

/// `VK_COLOR_SPACE_SRGB_NONLINEAR_KHR`.
pub const COLOR_SPACE_SRGB_NONLINEAR: i32 = 0;

/// The most memory types a device reports (`VK_MAX_MEMORY_TYPES`).
pub const MAX_MEMORY_TYPES: u32 = 32;

/// The present mode to use: mailbox for the lowest latency when offered, FIFO otherwise.
pub fn choose_present_mode(available: &[i32]) -> (mode: i32)
    ensures
        mode == (if available@.contains(PRESENT_MODE_MAILBOX) {
            PRESENT_MODE_MAILBOX
        } else {
            PRESENT_MODE_FIFO
        }),
{
    let mut i: usize = 0;
    while i < available.len()
        invariant
            i <= available@.len(),
            forall|j: int| 0 <= j < i ==> available@[j] != PRESENT_MODE_MAILBOX,
        decreases available@.len() - i,
    {
        if available[i] == PRESENT_MODE_MAILBOX {
            return PRESENT_MODE_MAILBOX;
        }
        i = i + 1;
    }
    PRESENT_MODE_FIFO
}

/// The index of the surface format to use among `(format, colour space)`
/// pairs: the first sRGB BGRA8 format in the sRGB colour space, else the first.
pub fn choose_surface_format(available: &[(i32, i32)]) -> (index: usize)
    requires
        available@.len() > 0,
    ensures
        index < available@.len(),
        available@[index as int] == (FORMAT_B8G8R8A8_SRGB, COLOR_SPACE_SRGB_NONLINEAR) ==> forall|
            j: int,
        |
            0 <= j < index ==> available@[j] != (FORMAT_B8G8R8A8_SRGB, COLOR_SPACE_SRGB_NONLINEAR),
        available@[index as int] != (FORMAT_B8G8R8A8_SRGB, COLOR_SPACE_SRGB_NONLINEAR) ==> index
            == 0 && !available@.contains((FORMAT_B8G8R8A8_SRGB, COLOR_SPACE_SRGB_NONLINEAR)),
{
    let mut i: usize = 0;
    while i < available.len()
        invariant
            i <= available@.len(),
            forall|j: int|
                0 <= j < i ==> available@[j] != (FORMAT_B8G8R8A8_SRGB, COLOR_SPACE_SRGB_NONLINEAR),
        decreases available@.len() - i,
    {
        let (format, color_space) = available[i];
        if format == FORMAT_B8G8R8A8_SRGB && color_space == COLOR_SPACE_SRGB_NONLINEAR {
            return i;
        }
        i = i + 1;
    }
    0
}

/// `value` clamped into `[min, max]`.
pub open spec fn clamp(value: u32, min: u32, max: u32) -> u32 {
    if value < min {
        min
    } else if value > max {
        max
    } else {
        value
    }
}

/// The swapchain extent: the surface's current extent when it has one
/// (a width of `u32::MAX` means it has none), else the window size clamped to
/// the surface's limits.
pub fn choose_extent(
    current: (u32, u32),
    min_extent: (u32, u32),
    max_extent: (u32, u32),
    window: (u32, u32),
) -> (extent: (u32, u32))
    requires
        current.0 != u32::MAX || (min_extent.0 <= max_extent.0 && min_extent.1 <= max_extent.1),
    ensures
        current.0 != u32::MAX ==> extent == current,
        current.0 == u32::MAX ==> extent == (
            clamp(window.0, min_extent.0, max_extent.0),
            clamp(window.1, min_extent.1, max_extent.1),
        ),
{
    if current.0 != u32::MAX {
        current
    } else {
        (
            clamp_u32(window.0, min_extent.0, max_extent.0),
            clamp_u32(window.1, min_extent.1, max_extent.1),
        )
    }
}

fn clamp_u32(value: u32, min: u32, max: u32) -> (r: u32)
    requires
        min <= max,
    ensures
        r == clamp(value, min, max),
{
    if value < min {
        min
    } else if value > max {
        max
    } else {
        value
    }
}

/// The number of swapchain images to ask for: one more than the minimum,
/// but no more than the maximum when there is one (0 means no maximum).
pub fn swapchain_image_count(min_images: u32, max_images: u32) -> (count: u32)
    requires
        min_images < u32::MAX,
    ensures
        count == (if max_images > 0 && min_images + 1 > max_images {
            max_images as int
        } else {
            min_images + 1
        }),
{
    let count = min_images + 1;
    if max_images > 0 && count > max_images {
        max_images
    } else {
        count
    }
}

/// Whether memory type `index` is allowed by `type_filter` and has all the
/// `required` property flags.
pub open spec fn memory_type_matches(
    index: int,
    type_filter: u32,
    flags: Seq<u32>,
    required: u32,
) -> bool {
    &&& (type_filter >> (index as u32)) & 1 == 1
    &&& flags[index] & required == required
}

proof fn lemma_bit_test(filter: u32, index: u32)
    requires
        index < 32,
    ensures
        (filter & (1u32 << index) != 0) == ((filter >> index) & 1 == 1),
{
    assert((filter & (1u32 << index) != 0) == ((filter >> index) & 1 == 1)) by (bit_vector)
        requires
            index < 32,
    ;
}

/// The first memory type among the device's `type_count` types, with
/// property flags `flags`, that `type_filter` allows and that has all the
/// `required` flags.
pub fn find_memory_type(type_count: u32, flags: &[u32], type_filter: u32, required: u32) -> (index:
    Option<u32>)
    requires
        type_count <= MAX_MEMORY_TYPES,
        type_count <= flags@.len(),
    ensures
        match index {
            Some(i) => i < type_count && memory_type_matches(i as int, type_filter, flags@, required)
                && forall|j: int|
                0 <= j < i ==> !memory_type_matches(j, type_filter, flags@, required),
            None => forall|j: int|
                0 <= j < type_count ==> !memory_type_matches(j, type_filter, flags@, required),
        },
{
    let mut index: u32 = 0;
    while index < type_count
        invariant
            index <= type_count,
            type_count <= MAX_MEMORY_TYPES,
            type_count <= flags@.len(),
            forall|j: int| 0 <= j < index ==> !memory_type_matches(j, type_filter, flags@, required),
        decreases type_count - index,
    {
        proof {
            lemma_bit_test(type_filter, index);
        }
        let type_matches = (type_filter & (1u32 << index)) != 0;
        let has_properties = (flags[index as usize] & required) == required;
        if type_matches && has_properties {
            return Some(index);
        }
        index = index + 1;
    }
    None
}

/// Whether queue family `j` supports presentation (`present`) or graphics (`!present`).
pub open spec fn capable(families: Seq<(bool, bool)>, j: int, present: bool) -> bool {
    if present {
        families[j].1
    } else {
        families[j].0
    }
}

/// Whether one of the first `n` queue families has the capability.
pub open spec fn capable_before(families: Seq<(bool, bool)>, n: int, present: bool) -> bool {
    exists|j: int| 0 <= j < n && #[trigger] capable(families, j, present)
}

/// `k` is the first family by which, reading the families in order, both a
/// graphics family and a present family have been seen.
pub open spec fn both_seen_at(families: Seq<(bool, bool)>, k: int) -> bool {
    &&& 0 <= k < families.len()
    &&& capable_before(families, k + 1, false)
    &&& capable_before(families, k + 1, true)
    &&& !(capable_before(families, k, false) && capable_before(families, k, true))
}

/// `i` is the last family up to `k` with the capability.
pub open spec fn last_capable_upto(families: Seq<(bool, bool)>, k: int, i: int, present: bool) -> bool {
    &&& 0 <= i <= k
    &&& capable(families, i, present)
    &&& forall|j: int| i < j <= k ==> !#[trigger] capable(families, j, present)
}

/// The queue families chosen: graphics family `g` and present family `p` are
/// the last of each kind up to the first family by which both kinds have been
/// seen.
pub open spec fn chosen_queue_families(families: Seq<(bool, bool)>, g: u32, p: u32) -> bool {
    exists|k: int|
        #[trigger] both_seen_at(families, k) && last_capable_upto(families, k, g as int, false)
            && last_capable_upto(families, k, p as int, true)
}

/// The graphics and present queue family indices, when the device has both.
pub fn find_queue_families(families: &[(bool, bool)]) -> (found: Option<(u32, u32)>)
    requires
        families@.len() <= u32::MAX,
    ensures
        found is None <==> !(capable_before(families@, families@.len() as int, false)
            && capable_before(families@, families@.len() as int, true)),
        found matches Some((g, p)) ==> chosen_queue_families(families@, g, p),
{
    let ghost f = families@;
    let mut graphics: Option<u32> = None;
    let mut present: Option<u32> = None;
    let mut i: usize = 0;
    while i < families.len()
        invariant
            i <= f.len(),
            f == families@,
            f.len() <= u32::MAX,
            !(graphics is Some && present is Some),
            graphics matches Some(g) ==> last_capable_upto(f, i - 1, g as int, false),
            present matches Some(p) ==> last_capable_upto(f, i - 1, p as int, true),
            graphics is None ==> !capable_before(f, i as int, false),
            present is None ==> !capable_before(f, i as int, true),
        decreases f.len() - i,
    {
        let ghost g0 = graphics;
        let ghost p0 = present;
        let (has_graphics, has_present) = families[i];
        assert(capable(f, i as int, false) == has_graphics);
        assert(capable(f, i as int, true) == has_present);
        if has_graphics {
            graphics = Some(i as u32);
        }
        if has_present {
            present = Some(i as u32);
        }
        proof {
            if let Some(g) = graphics {
                assert(capable_before(f, i + 1, false));
            }
            if let Some(p) = present {
                assert(capable_before(f, i + 1, true));
            }
            if graphics is None {
                assert forall|j: int| 0 <= j < i + 1 implies !capable(f, j, false) by {
                    if j < i {
                        assert(!capable_before(f, i as int, false));
                    }
                }
            }
            if present is None {
                assert forall|j: int| 0 <= j < i + 1 implies !capable(f, j, true) by {
                    if j < i {
                        assert(!capable_before(f, i as int, true));
                    }
                }
            }
        }
        match (graphics, present) {
            (Some(g), Some(p)) => {
                proof {
                    assert(both_seen_at(f, i as int));
                    assert(last_capable_upto(f, i as int, g as int, false));
                    assert(last_capable_upto(f, i as int, p as int, true));
                }
                return Some((g, p));
            },
            _ => {},
        }
        i = i + 1;
    }
    proof {
        if graphics is None {
            assert(!capable_before(f, f.len() as int, false));
        } else {
            assert(!capable_before(f, f.len() as int, true));
        }
    }
    None
}

/// Whether swapchain images are shared between two queue families: exactly
/// when graphics and presentation use different families.
pub fn needs_concurrent_sharing(graphics_family: u32, present_family: u32) -> (concurrent: bool)
    ensures
        concurrent == (graphics_family != present_family),
{
    graphics_family != present_family
}

} // verus!

verus! {

/// Law: the chosen queue families have the capabilities they are chosen for:
/// the graphics family supports graphics and the present family presentation.
pub proof fn law_queue_families_capable(families: Seq<(bool, bool)>, g: u32, p: u32)
    requires
        chosen_queue_families(families, g, p),
    ensures
        g < families.len() && families[g as int].0,
        p < families.len() && families[p as int].1,
{
    let k = choose|k: int|
        #[trigger] both_seen_at(families, k) && last_capable_upto(families, k, g as int, false)
            && last_capable_upto(families, k, p as int, true);
}

} // verus!
