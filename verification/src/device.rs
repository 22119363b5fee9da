//! Physical-device selection: filter enumerated devices by capability,
//! rank the survivors by device class, and fix the queue family, surface
//! format and present mode the rest of the engine uses.

use vstd::prelude::*;

use crate::errors::InitError;

verus! {

/// The broad class a physical device reports itself as.
#[derive(Clone, Copy, PartialEq, Eq, Structural, Debug)]
pub enum DeviceClass {
    Discrete,
    Integrated,
    Other,
}

/// The pixel formats the engine can render into.
#[derive(Clone, Copy, PartialEq, Eq, Structural, Debug)]
pub enum ColorFormat {
    R8g8b8a8Srgb,
    B8g8r8a8Srgb,
    Other,
}

/// The color spaces a surface format may pair with.
#[derive(Clone, Copy, PartialEq, Eq, Structural, Debug)]
pub enum ColorSpace {
    SrgbNonlinear,
    Other,
}

/// One surface format a device supports for the target surface.
#[derive(Clone, Copy, PartialEq, Eq, Structural, Debug)]
pub struct SurfaceFormat {
    pub format: ColorFormat,
    pub color_space: ColorSpace,
}

/// The presentation timing modes a surface may support.
#[derive(Clone, Copy, PartialEq, Eq, Structural, Debug)]
pub enum PresentMode {
    Immediate,
    Mailbox,
    Fifo,
    FifoRelaxed,
}

/// What one queue family of a device supports.
#[derive(Clone, Copy, PartialEq, Eq, Structural, Debug)]
pub struct QueueFamilyReport {
    pub supports_graphics: bool,
    pub supports_present: bool,
}

/// The capability snapshot of one enumerated physical device, in
/// enumeration order of its queue families, formats and present modes.
#[derive(Debug)]
pub struct DeviceReport {
    pub class: DeviceClass,
    pub queue_families: Vec<QueueFamilyReport>,
    pub formats: Vec<SurfaceFormat>,
    pub present_modes: Vec<PresentMode>,
    pub supports_swapchain_extension: bool,
}

/// The outcome of device selection: which device, which queue family, and
/// the negotiated format and present mode.
#[derive(Clone, Copy, PartialEq, Eq, Structural, Debug)]
pub struct DeviceSelection {
    pub device_index: usize,
    pub queue_family_index: usize,
    pub surface_format: SurfaceFormat,
    pub present_mode: PresentMode,
}

/// A queue family is usable when it supports both graphics work and
/// presentation to the target surface.
pub open spec fn spec_queue_ok(q: QueueFamilyReport) -> bool {
    q.supports_graphics && q.supports_present
}

/// A surface format is usable when it is an 8-bit-per-channel sRGB color
/// format in the sRGB nonlinear color space.
pub open spec fn spec_format_ok(f: SurfaceFormat) -> bool {
    (f.format is R8g8b8a8Srgb || f.format is B8g8r8a8Srgb) && f.color_space is SrgbNonlinear
}

/// A device qualifies when it has a usable queue family, a usable surface
/// format, and the mandatory swapchain extension.
pub open spec fn spec_qualifies(d: DeviceReport) -> bool {
    &&& exists|j: int| 0 <= j < d.queue_families@.len() && spec_queue_ok(d.queue_families@[j])
    &&& exists|j: int| 0 <= j < d.formats@.len() && spec_format_ok(d.formats@[j])
    &&& d.supports_swapchain_extension
}

/// The ranking score of a device class: discrete beats integrated beats
/// everything else.
pub open spec fn spec_priority(c: DeviceClass) -> int {
    match c {
        DeviceClass::Discrete => 3,
        DeviceClass::Integrated => 2,
        DeviceClass::Other => 0,
    }
}

/// Whether a mailbox (low-latency triple-buffered) mode was reported.
pub open spec fn spec_has_mailbox(modes: Seq<PresentMode>) -> bool {
    exists|j: int| 0 <= j < modes.len() && modes[j] is Mailbox
}

/// The present mode the engine settles on: mailbox when offered, otherwise
/// the universally supported vsync mode.
pub open spec fn spec_present_mode(modes: Seq<PresentMode>) -> PresentMode {
    if spec_has_mailbox(modes) {
        PresentMode::Mailbox
    } else {
        PresentMode::Fifo
    }
}

/// Index `i` is the selection the ranking rule demands: it qualifies, no
/// qualified device scores higher, and every earlier qualified device
/// scores strictly lower (ties go to the first seen).
pub open spec fn spec_selected_index(reports: Seq<DeviceReport>, i: int) -> bool {
    &&& 0 <= i < reports.len()
    &&& spec_qualifies(reports[i])
    &&& forall|j: int|
        0 <= j < reports.len() && #[trigger] spec_qualifies(reports[j])
            ==> spec_priority(reports[j].class) <= spec_priority(reports[i].class)
    &&& forall|j: int|
        0 <= j < i && #[trigger] spec_qualifies(reports[j])
            ==> spec_priority(reports[j].class) < spec_priority(reports[i].class)
}

/// The per-device choices inside a selection are the first usable queue
/// family, the first usable surface format, and the preferred present mode
/// of the selected device.
pub open spec fn spec_selection_details(reports: Seq<DeviceReport>, sel: DeviceSelection) -> bool {
    let d = reports[sel.device_index as int];
    let qi = sel.queue_family_index as int;
    &&& 0 <= sel.device_index < reports.len()
    &&& qi < d.queue_families@.len()
    &&& spec_queue_ok(d.queue_families@[qi])
    &&& forall|j: int| 0 <= j < qi ==> !spec_queue_ok(d.queue_families@[j])
    &&& exists|fi: int|
        0 <= fi < d.formats@.len() && sel.surface_format == d.formats@[fi]
            && spec_format_ok(d.formats@[fi])
            && forall|j: int| 0 <= j < fi ==> !spec_format_ok(d.formats@[j])
    &&& sel.present_mode == spec_present_mode(d.present_modes@)
}

/// Finds the first queue family usable for graphics and presentation, in
/// enumeration order.
pub fn find_queue_family(families: &Vec<QueueFamilyReport>) -> (r: Option<usize>)
    ensures
        match r {
            Some(i) => i < families@.len() && spec_queue_ok(families@[i as int])
                && forall|j: int| 0 <= j < i ==> !spec_queue_ok(families@[j]),
            None => forall|j: int| 0 <= j < families@.len() ==> !spec_queue_ok(families@[j]),
        },
{
    let mut i: usize = 0;
    while i < families.len()
        invariant
            i <= families@.len(),
            forall|j: int| 0 <= j < i ==> !spec_queue_ok(families@[j]),
        decreases families@.len() - i,
    {
        if families[i].supports_graphics && families[i].supports_present {
            return Some(i);
        }
        i = i + 1;
    }
    None
}

/// Finds the first usable surface format, in enumeration order.
pub fn find_surface_format(formats: &Vec<SurfaceFormat>) -> (r: Option<usize>)
    ensures
        match r {
            Some(i) => i < formats@.len() && spec_format_ok(formats@[i as int])
                && forall|j: int| 0 <= j < i ==> !spec_format_ok(formats@[j]),
            None => forall|j: int| 0 <= j < formats@.len() ==> !spec_format_ok(formats@[j]),
        },
{
    let mut i: usize = 0;
    while i < formats.len()
        invariant
            i <= formats@.len(),
            forall|j: int| 0 <= j < i ==> !spec_format_ok(formats@[j]),
        decreases formats@.len() - i,
    {
        let f = formats[i];
        if (matches!(f.format, ColorFormat::R8g8b8a8Srgb)
            || matches!(f.format, ColorFormat::B8g8r8a8Srgb))
            && matches!(f.color_space, ColorSpace::SrgbNonlinear) {
            return Some(i);
        }
        i = i + 1;
    }
    None
}

/// Picks mailbox presentation when the device offers it, vsync otherwise.
pub fn choose_present_mode(modes: &Vec<PresentMode>) -> (r: PresentMode)
    ensures
        r == spec_present_mode(modes@),
{
    let mut i: usize = 0;
    while i < modes.len()
        invariant
            i <= modes@.len(),
            forall|j: int| 0 <= j < i ==> !(modes@[j] is Mailbox),
        decreases modes@.len() - i,
    {
        if matches!(modes[i], PresentMode::Mailbox) {
            return PresentMode::Mailbox;
        }
        i = i + 1;
    }
    PresentMode::Fifo
}

/// The ranking score of a device class, as an executable value.
pub fn priority_of(c: DeviceClass) -> (r: u32)
    ensures
        r == spec_priority(c),
{
    match c {
        DeviceClass::Discrete => 3,
        DeviceClass::Integrated => 2,
        DeviceClass::Other => 0,
    }
}

/// Selects the physical device the engine runs on.
///
/// Devices missing a graphics-and-present queue family, a usable sRGB
/// surface format, or the swapchain extension are excluded; among the rest
/// the highest-ranked class wins, with ties broken by enumeration order.
/// Fails exactly when no device qualifies, which is fatal: hardware
/// capability is static for the process lifetime.
pub fn select_device(reports: &Vec<DeviceReport>) -> (r: Result<DeviceSelection, InitError>)
    ensures
        match r {
            Ok(sel) => spec_selected_index(reports@, sel.device_index as int)
                && spec_selection_details(reports@, sel),
            Err(e) => e == InitError::NoCompatibleDevice
                && forall|j: int| 0 <= j < reports@.len() ==> !spec_qualifies(reports@[j]),
        },
{
    let mut best: Option<DeviceSelection> = None;
    let mut best_priority: u32 = 0;
    let mut i: usize = 0;
    while i < reports.len()
        invariant
            i <= reports@.len(),
            match best {
                Some(sel) => {
                    &&& sel.device_index < i
                    &&& spec_qualifies(reports@[sel.device_index as int])
                    &&& best_priority == spec_priority(reports@[sel.device_index as int].class)
                    &&& forall|j: int|
                        0 <= j < i && #[trigger] spec_qualifies(reports@[j])
                            ==> spec_priority(reports@[j].class) <= best_priority
                    &&& forall|j: int|
                        0 <= j < sel.device_index && #[trigger] spec_qualifies(reports@[j])
                            ==> spec_priority(reports@[j].class) < best_priority
                    &&& spec_selection_details(reports@, sel)
                },
                None => forall|j: int| 0 <= j < i ==> !spec_qualifies(reports@[j]),
            },
        decreases reports@.len() - i,
    {
        let d = &reports[i];
        let queue_found = find_queue_family(&d.queue_families);
        let format_found = find_surface_format(&d.formats);
        match (queue_found, format_found) {
            (Some(qi), Some(fi)) => {
                if d.supports_swapchain_extension {
                    assert(spec_qualifies(reports@[i as int]));
                    let priority = priority_of(d.class);
                    let replace = match best {
                        None => true,
                        Some(_) => priority > best_priority,
                    };
                    if replace {
                        best = Some(DeviceSelection {
                            device_index: i,
                            queue_family_index: qi,
                            surface_format: d.formats[fi],
                            present_mode: choose_present_mode(&d.present_modes),
                        });
                        best_priority = priority;
                    }
                } else {
                    assert(!spec_qualifies(reports@[i as int]));
                }
            },
            _ => {
                assert(!spec_qualifies(reports@[i as int]));
            },
        }
        i = i + 1;
    }
    match best {
        Some(sel) => Ok(sel),
        None => Err(InitError::NoCompatibleDevice),
    }
}

/// Device selection is deterministic: for one report list there is at most
/// one index the ranking rule (qualified, maximal class score, first seen
/// among equal scores) can point at, so repeated selection over the same
/// list always yields the same device.
pub proof fn lemma_selection_deterministic(reports: Seq<DeviceReport>, i1: int, i2: int)
    requires
        spec_selected_index(reports, i1),
        spec_selected_index(reports, i2),
    ensures
        i1 == i2,
{
    if i1 < i2 {
        assert(spec_priority(reports[i1].class) < spec_priority(reports[i2].class));
        assert(spec_priority(reports[i2].class) <= spec_priority(reports[i1].class));
    }
    if i2 < i1 {
        assert(spec_priority(reports[i2].class) < spec_priority(reports[i1].class));
        assert(spec_priority(reports[i1].class) <= spec_priority(reports[i2].class));
    }
}

} // verus!
