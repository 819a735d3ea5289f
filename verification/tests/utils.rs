use rpi_kernel_core::drivers::{Effect, Effects};
use rpi_kernel_core::utils::{delay_cycles, get_cpu, get_current_exception_level};

#[test]
fn cpu_is_the_lowest_byte_of_the_affinity_register() {
    assert_eq!(get_cpu(0), 0);
    assert_eq!(get_cpu(3), 3);
    assert_eq!(get_cpu(0x8000_0003), 3);
    assert_eq!(get_cpu(0x0000_00ff_8000_01fe), 0xfe);
    assert_eq!(get_cpu(u64::MAX), 0xff);
}

#[test]
fn exception_level_is_bits_two_and_three() {
    assert_eq!(get_current_exception_level(0b0000), 0);
    assert_eq!(get_current_exception_level(0b0100), 1);
    assert_eq!(get_current_exception_level(0b1000), 2);
    assert_eq!(get_current_exception_level(0b1100), 3);
    assert_eq!(get_current_exception_level(0b0011), 0);
    assert_eq!(get_current_exception_level(0xffff_ffff_ffff_fff7), 1);
    assert_eq!(get_current_exception_level(u64::MAX), 3);
}

#[test]
fn delay_is_recorded_with_its_length() {
    let mut fx = Effects::new();
    delay_cycles(&mut fx, 150);
    delay_cycles(&mut fx, 0);
    assert_eq!(fx.drain(), vec![Effect::Delay { cycles: 150 }, Effect::Delay { cycles: 0 }]);
}
