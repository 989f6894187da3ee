use nimbus::context::{
    device_score, find_suitable_queue_family, select_physical_device, DeviceInfo, DeviceType,
    QueueFamily,
};

const GRAPHICS: u32 = 0x1;
const COMPUTE: u32 = 0x2;

fn device(ty: DeviceType, extensions: bool, families: Vec<QueueFamily>) -> DeviceInfo {
    DeviceInfo { device_type: ty, has_required_extensions: extensions, queue_families: families }
}

#[test]
fn scores_prefer_discrete_over_software() {
    let kinds = [
        DeviceType::DiscreteGpu,
        DeviceType::IntegratedGpu,
        DeviceType::VirtualGpu,
        DeviceType::Cpu,
        DeviceType::Other,
    ];
    for (expected, ty) in kinds.iter().enumerate() {
        let d = device(*ty, true, vec![]);
        assert_eq!(device_score(&d) as usize, expected);
    }
}

#[test]
fn the_first_matching_queue_family_wins() {
    let d = device(
        DeviceType::DiscreteGpu,
        true,
        vec![
            QueueFamily { flags: COMPUTE, surface_support: true },
            QueueFamily { flags: GRAPHICS, surface_support: false },
            QueueFamily { flags: GRAPHICS | COMPUTE, surface_support: true },
            QueueFamily { flags: GRAPHICS, surface_support: true },
        ],
    );
    assert_eq!(find_suitable_queue_family(&d, GRAPHICS), Some(2));
    assert_eq!(find_suitable_queue_family(&d, GRAPHICS | COMPUTE), Some(2));
    assert_eq!(find_suitable_queue_family(&d, 0x4), None);
}

#[test]
fn selection_takes_the_best_eligible_device() {
    let present = QueueFamily { flags: GRAPHICS, surface_support: true };
    let devices = vec![
        device(DeviceType::Cpu, true, vec![present]),
        device(DeviceType::DiscreteGpu, false, vec![present]),
        device(DeviceType::IntegratedGpu, true, vec![present]),
        device(DeviceType::DiscreteGpu, true, vec![QueueFamily {
            flags: GRAPHICS,
            surface_support: false,
        }]),
        device(DeviceType::IntegratedGpu, true, vec![present]),
    ];
    // The discrete devices fail eligibility (extensions, presentation), so
    // the first integrated one wins.
    assert_eq!(select_physical_device(&devices, GRAPHICS), Some((2, 0)));
}

#[test]
fn selection_fails_when_nothing_is_eligible() {
    let devices = vec![
        device(DeviceType::DiscreteGpu, false, vec![QueueFamily {
            flags: GRAPHICS,
            surface_support: true,
        }]),
        device(DeviceType::DiscreteGpu, true, vec![]),
    ];
    assert_eq!(select_physical_device(&devices, GRAPHICS), None);
    assert_eq!(select_physical_device(&Vec::new(), GRAPHICS), None);
}
