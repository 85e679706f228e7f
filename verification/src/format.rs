//! Choice of the surface's pixel format from the formats it supports.

use vstd::prelude::*;

verus! {

/// `wgpu::TextureFormat`, a pixel format. The library never looks inside one:
/// it asks `wgpu` whether it is sRGB and hands the chosen format on.
#[verifier::external_type_specification]
#[verifier::external_body]
pub struct ExTextureFormat(wgpu::TextureFormat);

/// What `wgpu::TextureFormat::is_srgb` returns for `format`.
pub uninterp spec fn format_is_srgb(format: wgpu::TextureFormat) -> bool;

/// Calls `wgpu::TextureFormat::is_srgb`, which compares the format with
/// itself stripped of an `Srgb` suffix: a function of the format alone. The
/// contract only names that result.
#[verifier::external_body]
fn is_srgb(format: &wgpu::TextureFormat) -> (flag: bool)
    ensures
        flag == format_is_srgb(*format),
{
    format.is_srgb()
}

/// `i` is the position that the selection rule picks in a list whose entries
/// are flagged by `flags`: the first flagged position, or position 0 where no
/// entry is flagged.
pub open spec fn is_preferred(flags: Seq<bool>, i: int) -> bool {
    &&& 0 <= i < flags.len()
    &&& forall|j: int| 0 <= j < i ==> !flags[j]
    &&& (flags[i] || (i == 0 && forall|j: int| 0 <= j < flags.len() ==> !flags[j]))
}

/// The sRGB flag of each format of a list, in the list's order.
pub open spec fn srgb_flags(formats: Seq<wgpu::TextureFormat>) -> Seq<bool> {
    Seq::new(formats.len(), |i: int| format_is_srgb(formats[i]))
}

/// `chosen` is the format that the selection rule picks from `formats`.
pub open spec fn selects(formats: Seq<wgpu::TextureFormat>, chosen: wgpu::TextureFormat) -> bool {
    exists|i: int| #[trigger] is_preferred(srgb_flags(formats), i) && formats[i] == chosen
}

/// At most one position is preferred.
pub proof fn preferred_is_unique(flags: Seq<bool>, i: int, j: int)
    requires
        is_preferred(flags, i),
        is_preferred(flags, j),
    ensures
        i == j,
{
    if i < j {
        assert(!flags[i]);
    } else if j < i {
        assert(!flags[j]);
    }
}

/// The position of the first flagged entry, or 0 where none is flagged.
pub fn preferred_index(flags: &Vec<bool>) -> (index: usize)
    requires
        flags.len() > 0,
    ensures
        is_preferred(flags@, index as int),
{
    let mut i: usize = 0;
    while i < flags.len()
        invariant
            i <= flags.len(),
            forall|j: int| 0 <= j < i ==> !flags@[j],
        decreases flags.len() - i,
    {
        if flags[i] {
            return i;
        }
        i += 1;
    }
    0
}

/// The rule picks one format only.
pub proof fn selection_is_unique(
    formats: Seq<wgpu::TextureFormat>,
    first: wgpu::TextureFormat,
    second: wgpu::TextureFormat,
)
    requires
        selects(formats, first),
        selects(formats, second),
    ensures
        first == second,
{
    let i = choose|i: int| #[trigger] is_preferred(srgb_flags(formats), i) && formats[i] == first;
    let j = choose|j: int| #[trigger] is_preferred(srgb_flags(formats), j) && formats[j] == second;
    preferred_is_unique(srgb_flags(formats), i, j);
}

/// Where the list holds an sRGB format, in whatever position, the chosen
/// format is an sRGB format.
pub proof fn selected_is_srgb_when_listed(
    formats: Seq<wgpu::TextureFormat>,
    chosen: wgpu::TextureFormat,
)
    requires
        selects(formats, chosen),
        exists|k: int| 0 <= k < formats.len() && format_is_srgb(#[trigger] formats[k]),
    ensures
        format_is_srgb(chosen),
{
    let i = choose|i: int| #[trigger] is_preferred(srgb_flags(formats), i) && formats[i] == chosen;
    let k = choose|k: int| 0 <= k < formats.len() && format_is_srgb(#[trigger] formats[k]);
    assert(srgb_flags(formats)[k]);
    assert(srgb_flags(formats)[i]);
}

/// Where the list holds no sRGB format, the chosen format is the list's
/// first.
pub proof fn selected_is_first_without_srgb(
    formats: Seq<wgpu::TextureFormat>,
    chosen: wgpu::TextureFormat,
)
    requires
        selects(formats, chosen),
        forall|k: int| 0 <= k < formats.len() ==> !format_is_srgb(#[trigger] formats[k]),
    ensures
        chosen == formats[0],
{
    let i = choose|i: int| #[trigger] is_preferred(srgb_flags(formats), i) && formats[i] == chosen;
    assert(!srgb_flags(formats)[i]);
}

/// Picks the surface's pixel format: the first sRGB format of the list, or
/// the list's first format where it holds no sRGB format.
pub fn select_format(formats: &Vec<wgpu::TextureFormat>) -> (chosen: wgpu::TextureFormat)
    requires
        formats.len() > 0,
    ensures
        selects(formats@, chosen),
        (exists|k: int| 0 <= k < formats.len() && format_is_srgb(#[trigger] formats@[k]))
            ==> format_is_srgb(chosen),
        (forall|k: int| 0 <= k < formats.len() ==> !format_is_srgb(#[trigger] formats@[k]))
            ==> chosen == formats@[0],
{
    let mut flags: Vec<bool> = Vec::new();
    let mut i: usize = 0;
    while i < formats.len()
        invariant
            i <= formats.len(),
            flags@ =~= srgb_flags(formats@).subrange(0, i as int),
        decreases formats.len() - i,
    {
        flags.push(is_srgb(&formats[i]));
        i += 1;
    }
    assert(flags@ =~= srgb_flags(formats@));
    let index = preferred_index(&flags);
    let chosen = formats[index];
    proof {
        assert(is_preferred(srgb_flags(formats@), index as int));
        if exists|k: int| 0 <= k < formats.len() && format_is_srgb(#[trigger] formats@[k]) {
            selected_is_srgb_when_listed(formats@, chosen);
        }
        if forall|k: int| 0 <= k < formats.len() ==> !format_is_srgb(#[trigger] formats@[k]) {
            selected_is_first_without_srgb(formats@, chosen);
        }
    }
    chosen
}

} // verus!
