use zmu_cortex_m::psr::{Apsr, Control, Epsr, Ipsr, Profile, PSR};
use zmu_cortex_m::register::{Reg, SpecialReg};

const REGS: [Reg; 16] = [
    Reg::R0,
    Reg::R1,
    Reg::R2,
    Reg::R3,
    Reg::R4,
    Reg::R5,
    Reg::R6,
    Reg::R7,
    Reg::R8,
    Reg::R9,
    Reg::R10,
    Reg::R11,
    Reg::R12,
    Reg::SP,
    Reg::LR,
    Reg::PC,
];

#[test]
fn register_numbers_round_trip() {
    for (n, r) in REGS.iter().enumerate() {
        assert_eq!(r.value(), n);
        assert_eq!(Reg::from_u16(n as u16), Some(*r));
        assert_eq!(u8::from(*r), n as u8);
        assert_eq!(usize::from(*r), n);
        assert_eq!(Reg::from(n as u8), *r);
        assert_eq!(Reg::from(n as u16), *r);
        assert_eq!(Reg::from(n as u32), *r);
    }
    assert_eq!(Reg::from_u16(16), None);
    assert_eq!(Reg::from_u16(0xffff), None);
}

#[test]
fn register_from_uses_the_low_four_bits() {
    assert_eq!(Reg::from(0x1fu8), Reg::PC);
    assert_eq!(Reg::from(0x10u16), Reg::R0);
    assert_eq!(Reg::from(0xffff_fffdu32), Reg::SP);
}

#[test]
fn register_names() {
    assert_eq!(Reg::R0.name(), "r0");
    assert_eq!(Reg::R12.name(), "r12");
    assert_eq!(Reg::SP.name(), "sp");
    assert_eq!(Reg::LR.name(), "lr");
    assert_eq!(Reg::PC.name(), "pc");
}

#[test]
fn special_register_numbers() {
    assert_eq!(SpecialReg::from_u16(0), Some(SpecialReg::APSR));
    assert_eq!(SpecialReg::from_u16(1), Some(SpecialReg::IAPSR));
    assert_eq!(SpecialReg::from_u16(2), Some(SpecialReg::EAPSR));
    assert_eq!(SpecialReg::from_u16(3), Some(SpecialReg::XPSR));
    assert_eq!(SpecialReg::from_u16(4), None);
    assert_eq!(SpecialReg::from_u16(5), Some(SpecialReg::IPSR));
    assert_eq!(SpecialReg::from_u16(6), Some(SpecialReg::EPSR));
    assert_eq!(SpecialReg::from_u16(7), Some(SpecialReg::IEPSR));
    assert_eq!(SpecialReg::from_u16(8), Some(SpecialReg::MSP));
    assert_eq!(SpecialReg::from_u16(9), Some(SpecialReg::PSP));
    assert_eq!(SpecialReg::from_u16(16), Some(SpecialReg::PRIMASK));
    assert_eq!(SpecialReg::from_u16(19), None);
    assert_eq!(SpecialReg::from_u16(20), Some(SpecialReg::CONTROL));
    assert_eq!(SpecialReg::from_u16(21), None);
}

#[test]
fn special_register_from_uses_the_low_five_bits() {
    assert_eq!(SpecialReg::from(20u8), SpecialReg::CONTROL);
    assert_eq!(SpecialReg::from(0x28u8), SpecialReg::MSP);
    assert_eq!(SpecialReg::from(4u8), SpecialReg::APSR);
    assert_eq!(SpecialReg::FAULTMASK.name(), "FAULTMASK");
    assert_eq!(SpecialReg::XPSR.name(), "XPSR");
}

#[test]
fn flags_sit_at_their_bits() {
    let mut psr = PSR::new(Profile::ArmV7M);
    psr.set_n(0x8000_0000);
    assert_eq!(psr.value, 1 << 31);
    assert!(psr.get_n());
    psr.set_z(0);
    assert_eq!(psr.value, (1 << 31) | (1 << 30));
    assert!(psr.get_z());
    psr.set_c(true);
    assert_eq!(psr.value, (1 << 31) | (1 << 30) | (1 << 29));
    psr.set_v(true);
    assert_eq!(psr.value, 0xf000_0000);
    psr.set_q(true);
    assert_eq!(psr.value, 0xf800_0000);
    psr.set_n(0x7fff_ffff);
    psr.set_z(5);
    assert_eq!(psr.value, 0x3800_0000);
    assert!(!psr.get_n() && !psr.get_z() && psr.get_c() && psr.get_v() && psr.get_q());
    psr.set_c(false);
    psr.set_v(false);
    psr.set_q(false);
    assert_eq!(psr.value, 0);
}

#[test]
fn greater_or_equal_flags_and_thumb_bit() {
    let mut psr = PSR::new(Profile::ArmV7EM);
    psr.set_ge0(true);
    assert_eq!(psr.value, 1 << 16);
    psr.set_ge1(true);
    psr.set_ge2(true);
    psr.set_ge3(true);
    assert_eq!(psr.value, 0xf << 16);
    assert!(psr.get_ge0() && psr.get_ge1() && psr.get_ge2() && psr.get_ge3());
    psr.set_ge2(false);
    assert_eq!(psr.value, 0xb << 16);
    assert!(!psr.get_ge2());
    psr.set_t(true);
    assert_eq!(psr.value, (0xb << 16) | (1 << 24));
    assert!(psr.get_t());
    psr.set_t(false);
    assert!(!psr.get_t());
}

#[test]
fn exception_number_has_six_bits_on_v6m() {
    let mut psr = PSR { value: 0xffff_ffff, profile: Profile::ArmV6M };
    assert_eq!(psr.get_isr_number(), 63);
    psr.set_isr_number(15);
    assert_eq!(psr.value, 0xffff_ffcf);
    assert_eq!(psr.get_isr_number(), 15);
    psr.set_isr_number(0x1ff);
    assert_eq!(psr.get_isr_number(), 63);
}

#[test]
fn exception_number_has_nine_bits_on_v7m() {
    let mut psr = PSR { value: 0xffff_ffff, profile: Profile::ArmV7M };
    assert_eq!(psr.get_isr_number(), 511);
    psr.set_isr_number(15);
    assert_eq!(psr.value, 0xffff_fe0f);
    psr.set_isr_number(0x1ff);
    assert_eq!(psr.get_isr_number(), 511);
    let wide = PSR { value: 0x155, profile: Profile::ArmV7EM };
    assert_eq!(wide.get_isr_number(), 0x155);
}

#[test]
fn control_packs_privilege_below_stack_selection() {
    assert_eq!(u8::from(Control { n_priv: false, sp_sel: false }), 0);
    assert_eq!(u8::from(Control { n_priv: true, sp_sel: false }), 1);
    assert_eq!(u8::from(Control { n_priv: false, sp_sel: true }), 2);
    assert_eq!(u8::from(Control { n_priv: true, sp_sel: true }), 3);
}
