//! The two genuine decisions of device setup: choosing the surface format for
//! the swapchain and choosing the memory type for the vertex-buffer upload.
//! The device calls that report the candidates stay outside; these functions
//! take the reported facts as plain values.

use vstd::prelude::*;

verus! {

/// A surface format as the surface reports it: an identifying code and
/// whether its channel type is sRGB.
#[derive(Clone, Copy, Debug, PartialEq, Eq, Structural)]
pub struct SurfaceFormat {
    pub code: u32,
    pub srgb: bool,
}

/// Whether some format in the list has an sRGB channel type.
pub open spec fn has_srgb(formats: Seq<SurfaceFormat>) -> bool {
    exists|k: int| 0 <= k < formats.len() && formats[k].srgb
}

/// Choose the swapchain's surface format: the fallback when the surface
/// reports no preference, otherwise the first reported format with an sRGB
/// channel type. A reported list without any sRGB format is not accepted.
pub fn select_surface_format(formats: &Option<Vec<SurfaceFormat>>, fallback: SurfaceFormat) -> (r: SurfaceFormat)
    requires
        formats matches Some(fs) ==> has_srgb(fs@),
    ensures
        formats is None ==> r == fallback,
        formats matches Some(fs) ==> exists|k: int|
            0 <= k < fs@.len() && fs@[k] == r && fs@[k].srgb
                && (forall|j: int| 0 <= j < k ==> !fs@[j].srgb),
{
    match formats {
        None => fallback,
        Some(fs) => {
            let mut i: usize = 0;
            #[verifier::loop_isolation(false)]
            while i < fs.len()
                invariant
                    i <= fs@.len(),
                    forall|j: int| 0 <= j < i ==> !fs@[j].srgb,
                decreases fs@.len() - i,
            {
                if fs[i].srgb {
                    proof {
                        assert((i as int) < fs@.len() && fs@[i as int].srgb);
                    }
                    return fs[i];
                }
                i = i + 1;
            }
            proof {
                let k = choose|k: int| 0 <= k < fs@.len() && fs@[k].srgb;
                assert(!fs@[k].srgb);
            }
            fallback
        },
    }
}

/// Whether memory-type `i` is allowed by the requirement mask.
pub open spec fn mask_bit(mask: u64, i: u64) -> bool {
    mask & (1u64 << i) != 0
}

/// Pick the memory type for the vertex-buffer upload: the lowest-numbered
/// type that the buffer's requirement mask allows and that is visible to the
/// host, or nothing when no type qualifies. `cpu_visible[i]` reports whether
/// memory type `i` is host-visible; the mask has one bit per type.
pub fn find_upload_memory(type_mask: u64, cpu_visible: &Vec<bool>) -> (r: Option<usize>)
    requires
        cpu_visible@.len() <= 64,
    ensures
        match r {
            Some(i) => i < cpu_visible@.len() && mask_bit(type_mask, i as u64) && cpu_visible@[i as int]
                && (forall|j: int| 0 <= j < i ==> !(mask_bit(type_mask, j as u64) && cpu_visible@[j])),
            None => forall|j: int| 0 <= j < cpu_visible@.len() ==> !(mask_bit(type_mask, j as u64) && cpu_visible@[j]),
        },
{
    let mut i: usize = 0;
    while i < cpu_visible.len()
        invariant
            i <= cpu_visible@.len(),
            cpu_visible@.len() <= 64,
            forall|j: int| 0 <= j < i ==> !(mask_bit(type_mask, j as u64) && cpu_visible@[j]),
        decreases cpu_visible@.len() - i,
    {
        if (type_mask & (1u64 << (i as u64))) != 0 && cpu_visible[i] {
            return Some(i);
        }
        i = i + 1;
    }
    None
}

} // verus!
