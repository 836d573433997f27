use vstd::prelude::*;

verus! {

/// One color format advertised by a presentable surface, together with
/// whether it is sRGB-encoded.
#[derive(Clone, Copy, Debug, PartialEq, Eq)]
pub struct FormatCap<F> {
    pub format: F,
    pub srgb: bool,
}

/// Index of the first sRGB-encoded entry at or after `i`, if any.
pub open spec fn first_srgb_from<F>(caps: Seq<FormatCap<F>>, i: int) -> Option<int>
    decreases caps.len() - i,
{
    if i < 0 || i >= caps.len() {
        None
    } else if caps[i].srgb {
        Some(i)
    } else {
        first_srgb_from(caps, i + 1)
    }
}

/// The entry a render context is built for: the first sRGB-encoded format
/// if the surface advertises one, otherwise the first advertised format;
/// nothing if the surface advertises no format at all.
pub open spec fn preferred_index<F>(caps: Seq<FormatCap<F>>) -> Option<int> {
    if caps.len() == 0 {
        None
    } else {
        match first_srgb_from(caps, 0) {
            Some(i) => Some(i),
            None => Some(0),
        }
    }
}

/// The format chosen from an advertised capability list, if any.
pub open spec fn preferred_format<F>(caps: Seq<FormatCap<F>>) -> Option<F> {
    match preferred_index(caps) {
        Some(i) => Some(caps[i].format),
        None => None,
    }
}

proof fn lemma_first_srgb_from<F>(caps: Seq<FormatCap<F>>, i: int)
    requires
        0 <= i <= caps.len(),
    ensures
        match first_srgb_from(caps, i) {
            Some(k) => i <= k < caps.len() && caps[k].srgb
                && forall|j: int| i <= j < k ==> !#[trigger] caps[j].srgb,
            None => forall|j: int| i <= j < caps.len() ==> !#[trigger] caps[j].srgb,
        },
    decreases caps.len() - i,
{
    if i < caps.len() && !caps[i].srgb {
        lemma_first_srgb_from(caps, i + 1);
    }
}

/// Picks the color format for a new render context: the first sRGB-encoded
/// entry of `caps`, or the first entry when none is sRGB-encoded. Returns
/// `None` exactly when `caps` is empty.
pub fn choose_format_index<F>(caps: &Vec<FormatCap<F>>) -> (r: Option<usize>)
    ensures
        r matches Some(i) ==> preferred_index(caps@) == Some(i as int),
        r is None ==> preferred_index(caps@) is None,
        r is None <==> caps@.len() == 0,
        r matches Some(i) ==> i < caps@.len() && (
            (caps@[i as int].srgb && forall|j: int| 0 <= j < i ==> !#[trigger] caps@[j].srgb)
            || (i == 0 && forall|j: int| 0 <= j < caps@.len() ==> !#[trigger] caps@[j].srgb)),
{
    if caps.len() == 0 {
        return None;
    }
    let mut i: usize = 0;
    while i < caps.len()
        invariant
            0 <= i <= caps@.len(),
            caps@.len() > 0,
            first_srgb_from(caps@, 0) == first_srgb_from(caps@, i as int),
        decreases caps@.len() - i,
    {
        if caps[i].srgb {
            assert(first_srgb_from(caps@, i as int) == Some(i as int));
            proof {
                lemma_first_srgb_from(caps@, 0);
            }
            return Some(i);
        }
        i = i + 1;
    }
    proof {
        lemma_first_srgb_from(caps@, 0);
    }
    Some(0)
}

} // verus!
