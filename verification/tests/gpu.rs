use fracture::gpu::{
    select_caps_with_preferences, CompositeAlphaMode, PresentMode, SelectedGpuCaps,
    SurfaceCapabilities, TextureFormat, ALPHA_PREFERENCES, PRESENT_PREFERENCES,
    TEXTURE_PREFERENCES,
};

#[test]
fn predicted_format_wins_when_supported() {
    let caps = SurfaceCapabilities {
        formats: vec![TextureFormat::Other(4), TextureFormat::Rgba8Unorm, TextureFormat::Bgra8Unorm],
        present_modes: vec![PresentMode::Mailbox, PresentMode::Fifo],
        alpha_modes: vec![CompositeAlphaMode::Opaque, CompositeAlphaMode::PreMultiplied],
    };
    let r = select_caps_with_preferences(caps, TextureFormat::Bgra8Unorm);
    assert_eq!(
        r,
        SelectedGpuCaps {
            present: PresentMode::Fifo,
            texture: TextureFormat::Bgra8Unorm,
            alpha: CompositeAlphaMode::PreMultiplied,
        }
    );
}

#[test]
fn preferences_used_when_prediction_unsupported() {
    let caps = SurfaceCapabilities {
        formats: vec![TextureFormat::Other(1), TextureFormat::NV12, TextureFormat::Bgra8Unorm],
        present_modes: vec![PresentMode::Immediate, PresentMode::Mailbox],
        alpha_modes: vec![CompositeAlphaMode::Auto, CompositeAlphaMode::Inherit],
    };
    let r = select_caps_with_preferences(caps, TextureFormat::Rgba8Unorm);
    assert_eq!(r.texture, TextureFormat::Bgra8Unorm);
    assert_eq!(r.present, PresentMode::Mailbox);
    assert_eq!(r.alpha, CompositeAlphaMode::Inherit);
}

#[test]
fn first_capability_is_the_fallback() {
    let caps = SurfaceCapabilities {
        formats: vec![TextureFormat::Other(7), TextureFormat::Other(8)],
        present_modes: vec![PresentMode::AutoNoVsync],
        alpha_modes: vec![CompositeAlphaMode::Auto],
    };
    let r = select_caps_with_preferences(caps, TextureFormat::NV12);
    assert_eq!(r.texture, TextureFormat::Other(7));
    assert_eq!(r.present, PresentMode::AutoNoVsync);
    assert_eq!(r.alpha, CompositeAlphaMode::Auto);
}

#[test]
fn preference_orders() {
    assert_eq!(ALPHA_PREFERENCES[0], CompositeAlphaMode::PreMultiplied);
    assert_eq!(TEXTURE_PREFERENCES, [TextureFormat::Rgba8Unorm, TextureFormat::Bgra8Unorm, TextureFormat::NV12]);
    assert_eq!(PRESENT_PREFERENCES[0], PresentMode::AutoVsync);
    assert_eq!(PRESENT_PREFERENCES[5], PresentMode::AutoNoVsync);
}
