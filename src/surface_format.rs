use vstd::prelude::*;
use crate::format::FormatCap;

verus! {

#[verifier::external_type_specification]
#[verifier::external_body]
pub struct ExTextureFormat(wgpu::TextureFormat);

/// Relies on `wgpu::TextureFormat::is_srgb`: whether the format stores
/// sRGB-encoded color. Nothing is assumed about the answer.
#[verifier::external_body]
fn format_is_srgb(format: wgpu::TextureFormat) -> (r: bool) {
    format.is_srgb()
}

/// The capability list of a surface: each advertised format, in the order
/// advertised, paired with whether wgpu reports it as sRGB-encoded.
pub fn format_caps(formats: &Vec<wgpu::TextureFormat>) -> (r: Vec<FormatCap<wgpu::TextureFormat>>)
    ensures
        r@.len() == formats@.len(),
        forall|i: int| 0 <= i < formats@.len() ==> (#[trigger] r@[i]).format == formats@[i],
{
    let mut caps: Vec<FormatCap<wgpu::TextureFormat>> = Vec::new();
    let mut i: usize = 0;
    while i < formats.len()
        invariant
            0 <= i <= formats@.len(),
            caps@.len() == i,
            forall|j: int| 0 <= j < i ==> (#[trigger] caps@[j]).format == formats@[j],
        decreases formats@.len() - i,
    {
        let format = formats[i];
        let srgb = format_is_srgb(format);
        caps.push(FormatCap { format, srgb });
        i = i + 1;
    }
    caps
}

} // verus!
