//! Choosing the presentation mode, texture format and alpha mode of the
//! mirror window's surface from what the GPU offers and the preference lists.
use vstd::prelude::*;

verus! {

/// Texture formats that the mirror distinguishes. `Other` stands for any
/// further format a GPU may offer; its number tells such formats apart.
#[derive(Debug, Clone, Copy, PartialEq, Eq, Structural)]
pub enum TextureFormat {
    Rgba8Unorm,
    Bgra8Unorm,
    NV12,
    Other(u32),
}

/// Presentation modes of a surface.
#[derive(Debug, Clone, Copy, PartialEq, Eq, Structural)]
pub enum PresentMode {
    AutoVsync,
    AutoNoVsync,
    Fifo,
    FifoRelaxed,
    Immediate,
    Mailbox,
}

/// Alpha compositing modes of a surface.
#[derive(Debug, Clone, Copy, PartialEq, Eq, Structural)]
pub enum CompositeAlphaMode {
    Auto,
    Opaque,
    PreMultiplied,
    PostMultiplied,
    Inherit,
}

/// Alpha modes in order of preference.
pub const ALPHA_PREFERENCES: [CompositeAlphaMode; 5] = [
    CompositeAlphaMode::PreMultiplied,
    CompositeAlphaMode::Inherit,
    CompositeAlphaMode::PostMultiplied,
    CompositeAlphaMode::Opaque,
    CompositeAlphaMode::Auto,
];

/// Texture formats in order of preference.
pub const TEXTURE_PREFERENCES: [TextureFormat; 3] = [
    TextureFormat::Rgba8Unorm,
    TextureFormat::Bgra8Unorm,
    TextureFormat::NV12,
];

/// Presentation modes in order of preference.
pub const PRESENT_PREFERENCES: [PresentMode; 6] = [
    PresentMode::AutoVsync,
    PresentMode::Fifo,
    PresentMode::FifoRelaxed,
    PresentMode::Mailbox,
    PresentMode::Immediate,
    PresentMode::AutoNoVsync,
];

/// What a GPU surface supports, each list in the order the GPU reports it.
#[derive(Debug, Clone)]
pub struct SurfaceCapabilities {
    pub formats: Vec<TextureFormat>,
    pub present_modes: Vec<PresentMode>,
    pub alpha_modes: Vec<CompositeAlphaMode>,
}

/// The surface configuration chosen for the mirror window.
#[derive(Debug, Clone, Copy, PartialEq, Eq, Structural)]
pub struct SelectedGpuCaps {
    pub present: PresentMode,
    pub texture: TextureFormat,
    pub alpha: CompositeAlphaMode,
}

/// The first entry of `prefs` that `avail` holds, if any.
pub open spec fn first_supported<T>(prefs: Seq<T>, avail: Seq<T>) -> Option<T>
    decreases prefs.len(),
{
    if prefs.len() == 0 {
        None
    } else if avail.contains(prefs[0]) {
        Some(prefs[0])
    } else {
        first_supported(prefs.drop_first(), avail)
    }
}

/// The first preference that is available, else the first available entry.
pub open spec fn preferred_or_first<T>(prefs: Seq<T>, avail: Seq<T>) -> T {
    match first_supported(prefs, avail) {
        Some(v) => v,
        None => avail[0],
    }
}

/// The configuration that `select_caps_with_preferences` chooses.
pub open spec fn spec_select_caps(caps: SurfaceCapabilities, predicted: TextureFormat) -> SelectedGpuCaps {
    SelectedGpuCaps {
        present: preferred_or_first(PRESENT_PREFERENCES@, caps.present_modes@),
        texture: if caps.formats@.contains(predicted) {
            predicted
        } else {
            preferred_or_first(TEXTURE_PREFERENCES@, caps.formats@)
        },
        alpha: preferred_or_first(ALPHA_PREFERENCES@, caps.alpha_modes@),
    }
}

/// What `first_supported` gives on a suffix of the preferences once its head is known.
proof fn lemma_first_supported_step<T>(prefs: Seq<T>, avail: Seq<T>, k: int)
    requires
        0 <= k < prefs.len(),
    ensures
        first_supported(prefs.skip(k), avail) == if avail.contains(prefs[k]) {
            Some(prefs[k])
        } else {
            first_supported(prefs.skip(k + 1), avail)
        },
{
    assert(prefs.skip(k).drop_first() =~= prefs.skip(k + 1));
    assert(prefs.skip(k)[0] == prefs[k]);
}

fn contains_format(avail: &Vec<TextureFormat>, v: TextureFormat) -> (b: bool)
    ensures
        b == avail@.contains(v),
{
    let mut i: usize = 0;
    while i < avail.len()
        invariant
            i <= avail.len(),
            forall|k: int| 0 <= k < i ==> avail@[k] != v,
        decreases avail.len() - i,
    {
        if avail[i] == v {
            return true;
        }
        i += 1;
    }
    false
}

fn contains_present(avail: &Vec<PresentMode>, v: PresentMode) -> (b: bool)
    ensures
        b == avail@.contains(v),
{
    let mut i: usize = 0;
    while i < avail.len()
        invariant
            i <= avail.len(),
            forall|k: int| 0 <= k < i ==> avail@[k] != v,
        decreases avail.len() - i,
    {
        if avail[i] == v {
            return true;
        }
        i += 1;
    }
    false
}

fn contains_alpha(avail: &Vec<CompositeAlphaMode>, v: CompositeAlphaMode) -> (b: bool)
    ensures
        b == avail@.contains(v),
{
    let mut i: usize = 0;
    while i < avail.len()
        invariant
            i <= avail.len(),
            forall|k: int| 0 <= k < i ==> avail@[k] != v,
        decreases avail.len() - i,
    {
        if avail[i] == v {
            return true;
        }
        i += 1;
    }
    false
}

fn pick_format(prefs: &[TextureFormat], avail: &Vec<TextureFormat>) -> (r: TextureFormat)
    requires
        avail.len() > 0,
    ensures
        r == preferred_or_first(prefs@, avail@),
{
    let mut k: usize = 0;
    assert(prefs@.skip(0) =~= prefs@);
    while k < prefs.len()
        invariant
            k <= prefs.len(),
            first_supported(prefs@, avail@) == first_supported(prefs@.skip(k as int), avail@),
        decreases prefs.len() - k,
    {
        proof {
            lemma_first_supported_step(prefs@, avail@, k as int);
        }
        if contains_format(avail, prefs[k]) {
            return prefs[k];
        }
        k += 1;
    }
    assert(prefs@.skip(k as int).len() == 0);
    avail[0]
}

fn pick_present(prefs: &[PresentMode], avail: &Vec<PresentMode>) -> (r: PresentMode)
    requires
        avail.len() > 0,
    ensures
        r == preferred_or_first(prefs@, avail@),
{
    let mut k: usize = 0;
    assert(prefs@.skip(0) =~= prefs@);
    while k < prefs.len()
        invariant
            k <= prefs.len(),
            first_supported(prefs@, avail@) == first_supported(prefs@.skip(k as int), avail@),
        decreases prefs.len() - k,
    {
        proof {
            lemma_first_supported_step(prefs@, avail@, k as int);
        }
        if contains_present(avail, prefs[k]) {
            return prefs[k];
        }
        k += 1;
    }
    assert(prefs@.skip(k as int).len() == 0);
    avail[0]
}

fn pick_alpha(prefs: &[CompositeAlphaMode], avail: &Vec<CompositeAlphaMode>) -> (r:
    CompositeAlphaMode)
    requires
        avail.len() > 0,
    ensures
        r == preferred_or_first(prefs@, avail@),
{
    let mut k: usize = 0;
    assert(prefs@.skip(0) =~= prefs@);
    while k < prefs.len()
        invariant
            k <= prefs.len(),
            first_supported(prefs@, avail@) == first_supported(prefs@.skip(k as int), avail@),
        decreases prefs.len() - k,
    {
        proof {
            lemma_first_supported_step(prefs@, avail@, k as int);
        }
        if contains_alpha(avail, prefs[k]) {
            return prefs[k];
        }
        k += 1;
    }
    assert(prefs@.skip(k as int).len() == 0);
    avail[0]
}

/// Chooses the surface configuration: for each of alpha mode and presentation
/// mode, the first entry of its preference list that the GPU supports, else
/// the GPU's first; for the texture format, the format predicted from the
/// captured stream when the GPU supports it, else the same rule over
/// `TEXTURE_PREFERENCES`.
pub fn select_caps_with_preferences(
    gpu_capabilities: SurfaceCapabilities,
    predicted_pipewire_format: TextureFormat,
) -> (r: SelectedGpuCaps)
    requires
        gpu_capabilities.formats.len() > 0,
        gpu_capabilities.present_modes.len() > 0,
        gpu_capabilities.alpha_modes.len() > 0,
    ensures
        r == spec_select_caps(gpu_capabilities, predicted_pipewire_format),
{
    let alpha_prefs = ALPHA_PREFERENCES;
    let texture_prefs = TEXTURE_PREFERENCES;
    let present_prefs = PRESENT_PREFERENCES;
    let alpha = pick_alpha(alpha_prefs.as_slice(), &gpu_capabilities.alpha_modes);
    let texture_fmt = if contains_format(&gpu_capabilities.formats, predicted_pipewire_format) {
        predicted_pipewire_format
    } else {
        pick_format(texture_prefs.as_slice(), &gpu_capabilities.formats)
    };
    let present = pick_present(present_prefs.as_slice(), &gpu_capabilities.present_modes);
    SelectedGpuCaps { present, texture: texture_fmt, alpha }
}

/// A preference that `first_supported` returns is available.
proof fn lemma_first_supported_available<T>(prefs: Seq<T>, avail: Seq<T>)
    ensures
        first_supported(prefs, avail) matches Some(v) ==> avail.contains(v),
    decreases prefs.len(),
{
    if prefs.len() > 0 && !avail.contains(prefs[0]) {
        lemma_first_supported_available(prefs.drop_first(), avail);
    }
}

/// The configuration chosen is one that the GPU supports: each part is in
/// the corresponding list of the capabilities.
pub proof fn lemma_selected_caps_supported(caps: SurfaceCapabilities, predicted: TextureFormat)
    requires
        caps.formats.len() > 0,
        caps.present_modes.len() > 0,
        caps.alpha_modes.len() > 0,
    ensures
        caps.present_modes@.contains(spec_select_caps(caps, predicted).present),
        caps.formats@.contains(spec_select_caps(caps, predicted).texture),
        caps.alpha_modes@.contains(spec_select_caps(caps, predicted).alpha),
{
    lemma_first_supported_available(PRESENT_PREFERENCES@, caps.present_modes@);
    lemma_first_supported_available(TEXTURE_PREFERENCES@, caps.formats@);
    lemma_first_supported_available(ALPHA_PREFERENCES@, caps.alpha_modes@);
    assert(caps.present_modes@.contains(caps.present_modes@[0]));
    assert(caps.formats@.contains(caps.formats@[0]));
    assert(caps.alpha_modes@.contains(caps.alpha_modes@[0]));
}

/// `first_supported` finds the earliest available preference, or reports
/// that none is available.
proof fn lemma_first_supported_earliest<T>(prefs: Seq<T>, avail: Seq<T>)
    ensures
        first_supported(prefs, avail) matches Some(v) ==> exists|j: int|
            0 <= j < prefs.len() && prefs[j] == v && avail.contains(v) && forall|k: int|
                0 <= k < j ==> !avail.contains(#[trigger] prefs[k]),
        first_supported(prefs, avail) is None ==> forall|k: int|
            0 <= k < prefs.len() ==> !avail.contains(#[trigger] prefs[k]),
    decreases prefs.len(),
{
    if prefs.len() > 0 {
        if avail.contains(prefs[0]) {
            assert(prefs[0] == prefs[0]);
        } else {
            let rest = prefs.drop_first();
            lemma_first_supported_earliest(rest, avail);
            if let Some(v) = first_supported(rest, avail) {
                let j = choose|j: int|
                    0 <= j < rest.len() && rest[j] == v && avail.contains(v) && forall|k: int|
                        0 <= k < j ==> !avail.contains(#[trigger] rest[k]);
                assert(prefs[j + 1] == v);
                assert forall|k: int| 0 <= k < j + 1 implies !avail.contains(#[trigger] prefs[k]) by {
                    if k > 0 {
                        assert(prefs[k] == rest[k - 1]);
                    }
                }
            } else {
                assert forall|k: int| 0 <= k < prefs.len() implies !avail.contains(
                    #[trigger] prefs[k],
                ) by {
                    if k > 0 {
                        assert(prefs[k] == rest[k - 1]);
                    }
                }
            }
        }
    }
}

/// The rule of choosing by preference: when some preference is available,
/// the choice is an available preference that comes no later than any
/// available one; when none is, the choice is the first available entry.
pub proof fn lemma_preferred_or_first_is_best<T>(prefs: Seq<T>, avail: Seq<T>)
    requires
        avail.len() > 0,
    ensures
        forall|i: int|
            0 <= i < prefs.len() && avail.contains(#[trigger] prefs[i]) ==> exists|j: int|
                0 <= j <= i && preferred_or_first(prefs, avail) == prefs[j] && avail.contains(
                    prefs[j],
                ),
        (forall|i: int| 0 <= i < prefs.len() ==> !avail.contains(#[trigger] prefs[i]))
            ==> preferred_or_first(prefs, avail) == avail[0],
        avail.contains(preferred_or_first(prefs, avail)),
{
    lemma_first_supported_earliest(prefs, avail);
    assert(avail.contains(avail[0]));
    match first_supported(prefs, avail) {
        Some(v) => {
            let j0 = choose|j: int|
                0 <= j < prefs.len() && prefs[j] == v && avail.contains(v) && forall|k: int|
                    0 <= k < j ==> !avail.contains(#[trigger] prefs[k]);
            assert forall|i: int|
                0 <= i < prefs.len() && avail.contains(#[trigger] prefs[i]) implies exists|j: int|
                0 <= j <= i && preferred_or_first(prefs, avail) == prefs[j] && avail.contains(
                    prefs[j],
                ) by {
                if i < j0 {
                    assert(!avail.contains(prefs[i]));
                }
                assert(prefs[j0] == v);
            }
        },
        None => {},
    }
}

/// Choosing by preference never passes over an available preference: every
/// preference listed before the chosen one is unavailable.
pub proof fn lemma_no_available_preference_passed_over<T>(prefs: Seq<T>, avail: Seq<T>)
    requires
        avail.len() > 0,
        prefs.no_duplicates(),
    ensures
        forall|i: int, k: int|
            0 <= i < k < prefs.len() && preferred_or_first(prefs, avail) == #[trigger] prefs[k]
                ==> !avail.contains(#[trigger] prefs[i]),
{
    lemma_preferred_or_first_is_best(prefs, avail);
    assert forall|i: int, k: int|
        0 <= i < k < prefs.len() && preferred_or_first(prefs, avail) == #[trigger] prefs[k]
            implies !avail.contains(#[trigger] prefs[i]) by {
        if avail.contains(prefs[i]) {
            let j = choose|j: int|
                0 <= j <= i && preferred_or_first(prefs, avail) == prefs[j] && avail.contains(
                    prefs[j],
                );
            assert(prefs[j] == prefs[k]);
        }
    }
}

/// No present mode is listed twice among the preferences.
proof fn lemma_present_preferences_distinct()
    ensures
        PRESENT_PREFERENCES@.no_duplicates(),
{
    let p = PRESENT_PREFERENCES@;
    assert(p[0] == PresentMode::AutoVsync);
    assert(p[1] == PresentMode::Fifo);
    assert(p[2] == PresentMode::FifoRelaxed);
    assert(p[3] == PresentMode::Mailbox);
    assert(p[4] == PresentMode::Immediate);
    assert(p[5] == PresentMode::AutoNoVsync);
}

/// The present mode chosen for the surface is supported when any
/// preference is, and no preference listed before it is supported.
pub proof fn lemma_present_mode_earliest_supported(caps: SurfaceCapabilities, predicted: TextureFormat)
    requires
        caps.present_modes.len() > 0,
    ensures
        forall|i: int, k: int|
            0 <= i < k < PRESENT_PREFERENCES@.len() && spec_select_caps(caps, predicted).present
                == #[trigger] PRESENT_PREFERENCES@[k] ==> !caps.present_modes@.contains(
                #[trigger] PRESENT_PREFERENCES@[i],
            ),
        caps.present_modes@.contains(spec_select_caps(caps, predicted).present),
{
    lemma_present_preferences_distinct();
    lemma_preferred_or_first_is_best(PRESENT_PREFERENCES@, caps.present_modes@);
    lemma_no_available_preference_passed_over(PRESENT_PREFERENCES@, caps.present_modes@);
}

/// The surface configuration follows the preference lists: the present
/// mode and the alpha mode are each the earliest preference the GPU
/// supports (no later one is taken over an earlier supported one), or the
/// GPU's first entry when it supports none; the texture format is the
/// predicted one when supported, else chosen the same way.
pub proof fn lemma_selected_caps_follow_preferences(caps: SurfaceCapabilities, predicted: TextureFormat)
    requires
        caps.formats.len() > 0,
        caps.present_modes.len() > 0,
        caps.alpha_modes.len() > 0,
    ensures
        forall|i: int|
            0 <= i < PRESENT_PREFERENCES@.len() && caps.present_modes@.contains(
                #[trigger] PRESENT_PREFERENCES@[i],
            ) ==> exists|j: int|
                0 <= j <= i && spec_select_caps(caps, predicted).present == PRESENT_PREFERENCES@[j],
        (forall|i: int|
            0 <= i < PRESENT_PREFERENCES@.len() ==> !caps.present_modes@.contains(
                #[trigger] PRESENT_PREFERENCES@[i],
            )) ==> spec_select_caps(caps, predicted).present == caps.present_modes@[0],
        forall|i: int|
            0 <= i < ALPHA_PREFERENCES@.len() && caps.alpha_modes@.contains(
                #[trigger] ALPHA_PREFERENCES@[i],
            ) ==> exists|j: int|
                0 <= j <= i && spec_select_caps(caps, predicted).alpha == ALPHA_PREFERENCES@[j],
        (forall|i: int|
            0 <= i < ALPHA_PREFERENCES@.len() ==> !caps.alpha_modes@.contains(
                #[trigger] ALPHA_PREFERENCES@[i],
            )) ==> spec_select_caps(caps, predicted).alpha == caps.alpha_modes@[0],
        caps.formats@.contains(predicted) ==> spec_select_caps(caps, predicted).texture == predicted,
        !caps.formats@.contains(predicted) ==> forall|i: int|
            0 <= i < TEXTURE_PREFERENCES@.len() && caps.formats@.contains(
                #[trigger] TEXTURE_PREFERENCES@[i],
            ) ==> exists|j: int|
                0 <= j <= i && spec_select_caps(caps, predicted).texture == TEXTURE_PREFERENCES@[j],
        (!caps.formats@.contains(predicted) && forall|i: int|
            0 <= i < TEXTURE_PREFERENCES@.len() ==> !caps.formats@.contains(
                #[trigger] TEXTURE_PREFERENCES@[i],
            )) ==> spec_select_caps(caps, predicted).texture == caps.formats@[0],
{
    lemma_preferred_or_first_is_best(PRESENT_PREFERENCES@, caps.present_modes@);
    lemma_preferred_or_first_is_best(ALPHA_PREFERENCES@, caps.alpha_modes@);
    lemma_preferred_or_first_is_best(TEXTURE_PREFERENCES@, caps.formats@);
}

} // verus!
