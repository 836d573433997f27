use vstd::prelude::*;

verus! {

/// The backend bit set that wgpu parses from a comma-separated list of
/// backend names.
pub uninterp spec fn backends_from_list(list: Seq<char>) -> u32;

/// Relies on `wgpu::util::parse_backends_from_comma_list`: the backends
/// named in a comma-separated list, returned as wgpu's backend bits. The
/// result depends on the text alone.
#[verifier::external_body]
fn parse_backend_list(list: &str) -> (r: u32)
    ensures
        r == backends_from_list(list@),
{
    wgpu::util::parse_backends_from_comma_list(list).bits()
}

/// Relies on `wgpu::Backends::all`: the bits of every backend wgpu knows.
#[verifier::external_body]
fn all_backends() -> (r: u32) {
    wgpu::Backends::all().bits()
}

/// The graphics backends to try, as wgpu's backend bits: those named in the
/// override list when one is given, otherwise every backend.
pub fn backend_selection(list: Option<&str>) -> (r: u32)
    ensures
        list matches Some(l) ==> r == backends_from_list(l@),
{
    match list {
        Some(l) => parse_backend_list(l),
        None => all_backends(),
    }
}

} // verus!
