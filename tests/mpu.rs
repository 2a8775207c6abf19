use micro::arm::cpu::{Core, Event};
use micro::arm::mpu::{MPUConfiguration, MPUPermissions, MPURegionSize, MPU, MPU_RASR, MPU_RBAR, MPU_RNR, MPU_CTRL};
use micro::arm::units::MPU as MpuBlock;
use MPUPermissions::{NoAccess, RO, RW};

const SIZES: [(MPURegionSize, u32); 25] = [
    (MPURegionSize::Bytes256, 7),
    (MPURegionSize::Bytes512, 8),
    (MPURegionSize::KBytes1, 9),
    (MPURegionSize::KBytes2, 10),
    (MPURegionSize::KBytes4, 11),
    (MPURegionSize::KBytes8, 12),
    (MPURegionSize::KBytes16, 13),
    (MPURegionSize::KBytes32, 14),
    (MPURegionSize::KBytes64, 15),
    (MPURegionSize::KBytes128, 16),
    (MPURegionSize::KBytes256, 17),
    (MPURegionSize::KBytes512, 18),
    (MPURegionSize::MBytes1, 19),
    (MPURegionSize::MBytes2, 20),
    (MPURegionSize::MBytes4, 21),
    (MPURegionSize::MBytes8, 22),
    (MPURegionSize::MBytes16, 23),
    (MPURegionSize::MBytes32, 24),
    (MPURegionSize::MBytes64, 25),
    (MPURegionSize::MBytes128, 26),
    (MPURegionSize::MBytes256, 27),
    (MPURegionSize::MBytes512, 28),
    (MPURegionSize::GBytes1, 29),
    (MPURegionSize::GBytes2, 30),
    (MPURegionSize::GBytes4, 31),
];

#[test]
fn mask_is_size_minus_one() {
    for (size, e) in SIZES {
        let bytes: u64 = 1u64 << (e + 1);
        assert_eq!(size.mask() as u64 + 1, bytes);
    }
    assert_eq!(MPURegionSize::Bytes256.mask(), 0xFF);
    assert_eq!(MPURegionSize::KBytes4.mask(), 0xFFF);
    assert_eq!(MPURegionSize::GBytes4.mask(), 0xFFFF_FFFF);
}

#[test]
fn size_field_encoding() {
    for (size, e) in SIZES {
        assert_eq!(u32::from(size), e << 1);
    }
    assert_eq!(u32::from(MPURegionSize::Bytes256), 14);
    assert_eq!(u32::from(MPURegionSize::GBytes4), 62);
}

#[test]
fn aligned_region_encodes_address_and_size() {
    for (size, e) in SIZES {
        let bytes: u64 = 1u64 << (e + 1);
        let mut addrs: Vec<u32> = vec![0];
        if bytes < 0x1_0000_0000 {
            addrs.push(bytes as u32);
            addrs.push((0x1_0000_0000u64 - bytes) as u32);
        }
        for addr in addrs {
            for n in [0u8, 7, 15] {
                let cfg = MPUConfiguration::new().region(n, addr, size).unwrap();
                assert_eq!(cfg.rbar() & !0x1F, addr);
                assert_eq!(cfg.rbar() & 0xF, n as u32);
                assert_eq!(cfg.rbar() & 0x10, 0x10);
                let field = (cfg.rasr() >> 1) & 0x1F;
                assert_eq!(field, e);
                assert_eq!(1u64 << (field + 1), bytes);
            }
        }
    }
}

#[test]
fn misaligned_region_is_rejected() {
    assert_eq!(MPUConfiguration::new().region(0, 0x80, MPURegionSize::Bytes256), Err(()));
    assert_eq!(MPUConfiguration::new().region(1, 0x2000_0100, MPURegionSize::KBytes1), Err(()));
    assert_eq!(MPUConfiguration::new().region(2, 0x8000_0000, MPURegionSize::GBytes4), Err(()));
    assert_eq!(MPUConfiguration::new().region(3, 0x1000_0000, MPURegionSize::MBytes512), Err(()));
    for (size, e) in SIZES {
        let bytes: u64 = 1u64 << (e + 1);
        let addr = (bytes / 2) as u32;
        assert_eq!(MPUConfiguration::new().region(0, addr, size), Err(()));
    }
}

#[test]
fn region_keeps_other_attribute_fields() {
    let cfg = MPUConfiguration::new()
        .subregions(0xA5)
        .permissions(MPUPermissions::RW, MPUPermissions::RO)
        .noexecute()
        .region(4, 0x2000_0000, MPURegionSize::KBytes64)
        .unwrap();
    assert_eq!(cfg.rbar(), 0x2000_0014);
    assert_eq!(cfg.rasr(), 0x1000_0000 | 0x0200_0000 | 0xA500 | (15 << 1));
}

#[test]
fn builder_fields() {
    let c = MPUConfiguration::new();
    assert_eq!((c.rbar(), c.rasr()), (0, 0));
    let c = c.subregions(0xFF);
    assert_eq!(c.rasr(), 0xFF00);
    let c = c.subregions(0x01);
    assert_eq!(c.rasr(), 0x0100);
    let c = c.noexecute();
    assert_eq!(c.rasr(), 0x1000_0100);
    let c = c.execute();
    assert_eq!(c.rasr(), 0x0100);
}

#[test]
fn permission_encodings() {
    let ap = |p, u| MPUConfiguration::new().permissions(p, u).rasr() >> 24;
    assert_eq!(ap(NoAccess, NoAccess), 0b000);
    assert_eq!(ap(RW, NoAccess), 0b001);
    assert_eq!(ap(RW, RO), 0b010);
    assert_eq!(ap(RW, RW), 0b011);
    assert_eq!(ap(RO, NoAccess), 0b101);
    assert_eq!(ap(RO, RO), 0b111);
    assert_eq!(ap(RO, RW), 0b000);
    assert_eq!(ap(NoAccess, RW), 0b000);
    let c = MPUConfiguration::new().permissions(RO, RO).permissions(RW, NoAccess);
    assert_eq!(c.rasr(), 0x0100_0000);
}

#[test]
fn configure_writes_base_then_attributes() {
    let mut core = Core::new();
    let mut mpu = MpuBlock::empty();
    let cfg = MPUConfiguration::new()
        .permissions(MPUPermissions::RW, MPUPermissions::RW)
        .region(3, 0x2000_0000, MPURegionSize::KBytes32)
        .unwrap();
    mpu.configure(&mut core, cfg);
    assert_eq!(core.len(), 2);
    assert_eq!(core.event(0), Event::Write { addr: MPU_RBAR, value: 0x2000_0013 });
    assert_eq!(core.event(1), Event::Write { addr: MPU_RASR, value: cfg.rasr() | 1 });
    assert_eq!(mpu.region_base(3), 0x2000_0000);
    assert_eq!(mpu.region_attr(3), cfg.rasr() | 1);
    assert_eq!(mpu.region_base(2), 0);
    assert_eq!(mpu.region_attr(4), 0);
}

#[test]
fn unit_and_region_enable() {
    let mut core = Core::new();
    let mut mpu = MpuBlock::empty();
    mpu.enable(&mut core);
    assert_eq!(mpu.ctrl(), 1);
    mpu.enableregion(&mut core, 5);
    assert_eq!(mpu.region_attr(5), 1);
    mpu.disableregion(&mut core, 5);
    assert_eq!(mpu.region_attr(5), 0);
    mpu.disable(&mut core);
    assert_eq!(mpu.ctrl(), 0);
    assert_eq!(core.len(), 6);
    assert_eq!(core.event(0), Event::Write { addr: MPU_CTRL, value: 1 });
    assert_eq!(core.event(1), Event::Write { addr: MPU_RNR, value: 5 });
    assert_eq!(core.event(2), Event::Write { addr: MPU_RASR, value: 1 });
    assert_eq!(core.event(5), Event::Write { addr: MPU_CTRL, value: 0 });
}

#[test]
fn unit_loaded_from_words() {
    assert!(MpuBlock::load(0, 0, vec![0; 15], vec![0; 16]).is_none());
    assert!(MpuBlock::load(0, 16, vec![0; 16], vec![0; 16]).is_none());
    let mut attrs = vec![0u32; 16];
    attrs[2] = 0x0300_001F;
    let mut mpu = MpuBlock::load(0x5, 2, vec![0; 16], attrs).unwrap();
    let mut core = Core::new();
    mpu.disable(&mut core);
    assert_eq!(mpu.ctrl(), 0x4);
    mpu.disableregion(&mut core, 2);
    assert_eq!(mpu.region_attr(2), 0x0300_001E);
    let cfg = MPUConfiguration::new().region(9, 0x1000, MPURegionSize::KBytes4).unwrap();
    mpu.configure(&mut core, cfg);
    assert_eq!(mpu.region_base(9), 0x1000);
    assert_eq!(mpu.region_attr(9), (11 << 1) | 1);
}
