//! Choosing the pixel format that the presentable surface is configured with.
use vstd::prelude::*;

verus! {

/// wgpu's pixel format, carried through as an opaque value.
#[verifier::external_type_specification]
#[verifier::external_body]
pub struct ExTextureFormat(wgpu::TextureFormat);

/// Whether wgpu counts a texture format as perceptually encoded (sRGB).
pub uninterp spec fn srgb_encoded(f: wgpu::TextureFormat) -> bool;

/// Relies on `wgpu::TextureFormat::is_srgb`, whose answer depends on the
/// format alone.
#[verifier::external_body]
fn is_srgb(f: &wgpu::TextureFormat) -> (r: bool)
    ensures
        r == srgb_encoded(*f),
{
    f.is_srgb()
}

/// `i` is the position of the first perceptually encoded format.
pub open spec fn first_srgb(formats: Seq<wgpu::TextureFormat>, i: int) -> bool {
    0 <= i < formats.len() && srgb_encoded(formats[i]) && forall|j: int|
        0 <= j < i ==> !srgb_encoded(#[trigger] formats[j])
}

/// The format a surface is configured with, among those it supports: the
/// first perceptually encoded one, or else the first one.
pub open spec fn preferred_format(formats: Seq<wgpu::TextureFormat>) -> Option<wgpu::TextureFormat> {
    if formats.len() == 0 {
        None
    } else if exists|i: int| first_srgb(formats, i) {
        Some(formats[choose|i: int| first_srgb(formats, i)])
    } else {
        Some(formats[0])
    }
}

/// Picks the format to configure the surface with; `None` when the surface
/// supports no format at all.
pub fn choose_format(formats: &Vec<wgpu::TextureFormat>) -> (r: Option<wgpu::TextureFormat>)
    ensures
        r == preferred_format(formats@),
{
    let mut i: usize = 0;
    while i < formats.len()
        invariant
            i <= formats.len(),
            forall|j: int| 0 <= j < i ==> !srgb_encoded(#[trigger] formats@[j]),
        decreases formats.len() - i,
    {
        if is_srgb(&formats[i]) {
            assert(first_srgb(formats@, i as int));
            proof {
                let k = choose|k: int| first_srgb(formats@, k);
                if k < i {
                    assert(!srgb_encoded(formats@[k]));
                } else if k > i {
                    assert(!srgb_encoded(formats@[i as int]));
                }
            }
            return Some(formats[i]);
        }
        i = i + 1;
    }
    if formats.len() == 0 {
        None
    } else {
        Some(formats[0])
    }
}

} // verus!
