use render_core::device::{
    choose_present_mode, find_queue_family, find_surface_format, priority_of, select_device,
    ColorFormat, ColorSpace, DeviceClass, DeviceReport, PresentMode, QueueFamilyReport,
    SurfaceFormat,
};
use render_core::errors::InitError;

fn srgb_format() -> SurfaceFormat {
    SurfaceFormat { format: ColorFormat::B8g8r8a8Srgb, color_space: ColorSpace::SrgbNonlinear }
}

fn plain_report(class: DeviceClass) -> DeviceReport {
    DeviceReport {
        class,
        queue_families: vec![QueueFamilyReport { supports_graphics: true, supports_present: true }],
        formats: vec![srgb_format()],
        present_modes: vec![PresentMode::Fifo],
        supports_swapchain_extension: true,
    }
}

#[test]
fn select_prefers_discrete_over_integrated() {
    let reports = vec![
        plain_report(DeviceClass::Other),
        plain_report(DeviceClass::Integrated),
        plain_report(DeviceClass::Discrete),
    ];
    let sel = select_device(&reports).unwrap();
    assert_eq!(sel.device_index, 2);
}

#[test]
fn select_prefers_integrated_over_other() {
    let reports = vec![plain_report(DeviceClass::Other), plain_report(DeviceClass::Integrated)];
    let sel = select_device(&reports).unwrap();
    assert_eq!(sel.device_index, 1);
}

#[test]
fn select_breaks_ties_by_enumeration_order() {
    let reports = vec![
        plain_report(DeviceClass::Discrete),
        plain_report(DeviceClass::Discrete),
        plain_report(DeviceClass::Discrete),
    ];
    let sel = select_device(&reports).unwrap();
    assert_eq!(sel.device_index, 0);
}

#[test]
fn select_is_deterministic_for_the_same_list() {
    let reports = vec![
        plain_report(DeviceClass::Integrated),
        plain_report(DeviceClass::Discrete),
        plain_report(DeviceClass::Discrete),
        plain_report(DeviceClass::Other),
    ];
    let first = select_device(&reports).unwrap();
    let second = select_device(&reports).unwrap();
    assert_eq!(first, second);
    assert_eq!(first.device_index, 1);
}

#[test]
fn select_excludes_device_without_swapchain_extension() {
    let mut strong_but_bare = plain_report(DeviceClass::Discrete);
    strong_but_bare.supports_swapchain_extension = false;
    let reports = vec![strong_but_bare, plain_report(DeviceClass::Integrated)];
    let sel = select_device(&reports).unwrap();
    assert_eq!(sel.device_index, 1);
}

#[test]
fn select_excludes_device_without_graphics_present_queue() {
    let mut compute_only = plain_report(DeviceClass::Discrete);
    compute_only.queue_families =
        vec![QueueFamilyReport { supports_graphics: false, supports_present: true }];
    let reports = vec![compute_only, plain_report(DeviceClass::Other)];
    let sel = select_device(&reports).unwrap();
    assert_eq!(sel.device_index, 1);
}

#[test]
fn select_excludes_device_without_srgb_format() {
    let mut wrong_format = plain_report(DeviceClass::Discrete);
    wrong_format.formats =
        vec![SurfaceFormat { format: ColorFormat::Other, color_space: ColorSpace::SrgbNonlinear }];
    let reports = vec![wrong_format, plain_report(DeviceClass::Integrated)];
    let sel = select_device(&reports).unwrap();
    assert_eq!(sel.device_index, 1);
}

#[test]
fn select_fails_when_no_device_qualifies() {
    let mut bare = plain_report(DeviceClass::Discrete);
    bare.supports_swapchain_extension = false;
    let reports = vec![bare];
    assert_eq!(select_device(&reports), Err(InitError::NoCompatibleDevice));
    let empty: Vec<DeviceReport> = Vec::new();
    assert_eq!(select_device(&empty), Err(InitError::NoCompatibleDevice));
}

#[test]
fn select_takes_first_usable_queue_family_and_format() {
    let mut r = plain_report(DeviceClass::Discrete);
    r.queue_families = vec![
        QueueFamilyReport { supports_graphics: true, supports_present: false },
        QueueFamilyReport { supports_graphics: true, supports_present: true },
        QueueFamilyReport { supports_graphics: true, supports_present: true },
    ];
    r.formats = vec![
        SurfaceFormat { format: ColorFormat::Other, color_space: ColorSpace::Other },
        SurfaceFormat { format: ColorFormat::R8g8b8a8Srgb, color_space: ColorSpace::SrgbNonlinear },
        SurfaceFormat { format: ColorFormat::B8g8r8a8Srgb, color_space: ColorSpace::SrgbNonlinear },
    ];
    let reports = vec![r];
    let sel = select_device(&reports).unwrap();
    assert_eq!(sel.queue_family_index, 1);
    assert_eq!(sel.surface_format.format, ColorFormat::R8g8b8a8Srgb);
}

#[test]
fn present_mode_prefers_mailbox_and_falls_back_to_fifo() {
    assert_eq!(
        choose_present_mode(&vec![PresentMode::Immediate, PresentMode::Mailbox, PresentMode::Fifo]),
        PresentMode::Mailbox
    );
    assert_eq!(
        choose_present_mode(&vec![PresentMode::Immediate, PresentMode::Fifo]),
        PresentMode::Fifo
    );
    assert_eq!(choose_present_mode(&Vec::new()), PresentMode::Fifo);
}

#[test]
fn find_helpers_report_first_match_or_none() {
    let families = vec![
        QueueFamilyReport { supports_graphics: false, supports_present: false },
        QueueFamilyReport { supports_graphics: true, supports_present: true },
    ];
    assert_eq!(find_queue_family(&families), Some(1));
    assert_eq!(find_queue_family(&Vec::new()), None);
    let formats = vec![SurfaceFormat {
        format: ColorFormat::B8g8r8a8Srgb,
        color_space: ColorSpace::Other,
    }];
    assert_eq!(find_surface_format(&formats), None);
}

#[test]
fn priority_ranks_discrete_integrated_other() {
    assert_eq!(priority_of(DeviceClass::Discrete), 3);
    assert_eq!(priority_of(DeviceClass::Integrated), 2);
    assert_eq!(priority_of(DeviceClass::Other), 0);
}
