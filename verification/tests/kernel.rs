use rpi_kernel_core::drivers::gpio::{GPIORegisters, GPIO};
use rpi_kernel_core::drivers::lock::DeviceLock;
use rpi_kernel_core::drivers::mini_uart::{MiniUART, IO_ADDR, LSR_ADDR};
use rpi_kernel_core::drivers::{Effect, Effects};
use rpi_kernel_core::kernel::{echo, echo_reply, kernel_init, kernel_main, report_panic};
use rpi_kernel_core::shared::SharedSlots;

fn hello() {}

fn booted(lock: &mut DeviceLock) -> MiniUART {
    let mut pins = DeviceLock::new();
    let mut fx = Effects::new();
    let mut gpio = GPIO::acquire(&mut pins, &mut fx, 0).unwrap();
    let mut uart = MiniUART::acquire(lock, &mut fx, 0).unwrap();
    kernel_init(&mut gpio, &mut uart, &mut fx);
    gpio.release(&mut pins, &mut fx);
    uart
}

fn sent(fx: &Effects) -> Vec<u8> {
    fx.written_to(IO_ADDR).iter().map(|word| *word as u8).collect()
}

#[test]
fn kernel_init_sets_the_console_up() {
    let mut pins = DeviceLock::new();
    let mut lock = DeviceLock::new();
    let mut fx = Effects::new();
    let mut gpio = GPIO::acquire(&mut pins, &mut fx, 0).unwrap();
    let mut uart = MiniUART::acquire(&mut lock, &mut fx, 0).unwrap();
    assert!(!uart.configured());
    kernel_init(&mut gpio, &mut uart, &mut fx);
    assert!(uart.configured());
    assert_eq!(fx.len(), 20);
    assert_eq!(
        fx.get(0),
        Effect::Modify {
            addr: GPIORegisters::REGS_ADDR + 4,
            clear: 0b111 << 12,
            set: 0b010 << 12
        }
    );
    assert_eq!(fx.written_to(IO_ADDR), Vec::<u32>::new());
    fx.drain();
    uart.release(&mut lock, &mut fx);
    gpio.release(&mut pins, &mut fx);
    assert_eq!(MiniUART::is_setup(&mut lock, &mut fx, 1), Some(true));
    assert!(!pins.is_held());
}

#[test]
fn carriage_return_is_answered_with_a_new_line() {
    let mut lock = DeviceLock::new();
    let mut uart = booted(&mut lock);
    let mut fx = Effects::new();
    echo(&mut uart, &mut fx, b'\r');
    assert_eq!(sent(&fx), b"\n");
    assert_eq!(
        fx.drain(),
        vec![
            Effect::Poll { addr: LSR_ADDR, mask: 0x20 },
            Effect::Write { addr: IO_ADDR, value: 10 },
        ]
    );
}

#[test]
fn delete_is_answered_by_rubbing_out() {
    let mut lock = DeviceLock::new();
    let mut uart = booted(&mut lock);
    let mut fx = Effects::new();
    echo(&mut uart, &mut fx, 127);
    assert_eq!(sent(&fx), b"\x08 \x08");
    assert_eq!(fx.len(), 6);
}

#[test]
fn other_bytes_come_back_as_they_went() {
    let mut lock = DeviceLock::new();
    let mut uart = booted(&mut lock);
    for byte in 0..=255u8 {
        if byte == b'\r' || byte == 127 {
            continue;
        }
        let mut fx = Effects::new();
        echo(&mut uart, &mut fx, byte);
        assert_eq!(sent(&fx), vec![byte]);
        assert_eq!(fx.len(), 2);
    }
}

#[test]
fn console_echoes_hi_and_ends_the_line() {
    let mut lock = DeviceLock::new();
    let mut uart = booted(&mut lock);
    let mut fx = Effects::new();
    for word in [0x68u32, 0x69, 0x0d] {
        uart.await_byte(&mut fx);
        let byte = uart.recv(word);
        echo(&mut uart, &mut fx, byte);
    }
    assert_eq!(sent(&fx), b"hi\n");
    let poll_rx = Effect::Poll { addr: LSR_ADDR, mask: 0x01 };
    let poll_tx = Effect::Poll { addr: LSR_ADDR, mask: 0x20 };
    let load = Effect::Read { addr: IO_ADDR };
    assert_eq!(
        fx.drain(),
        vec![
            poll_rx,
            load,
            poll_tx,
            Effect::Write { addr: IO_ADDR, value: b'h' as u32 },
            poll_rx,
            load,
            poll_tx,
            Effect::Write { addr: IO_ADDR, value: b'i' as u32 },
            poll_rx,
            load,
            poll_tx,
            Effect::Write { addr: IO_ADDR, value: b'\n' as u32 },
        ]
    );
}

#[test]
fn console_rubs_out_on_delete() {
    let mut lock = DeviceLock::new();
    let mut uart = booted(&mut lock);
    let mut fx = Effects::new();
    let byte = uart.recv(0xffff_ff7f);
    echo(&mut uart, &mut fx, byte);
    assert_eq!(sent(&fx), b"\x08 \x08");
}

#[test]
fn kernel_main_greets_and_wakes_the_cores() {
    let mut lock = DeviceLock::new();
    let mut uart = booted(&mut lock);
    let slots: SharedSlots<fn()> = SharedSlots::new();
    let mut fx = Effects::new();
    kernel_main(&mut uart, &slots, &mut fx, b"up\n", hello as fn());
    assert_eq!(sent(&fx), b"up\n");
    let poll_tx = Effect::Poll { addr: LSR_ADDR, mask: 0x20 };
    assert_eq!(
        fx.drain(),
        vec![
            poll_tx,
            Effect::Write { addr: IO_ADDR, value: b'u' as u32 },
            poll_tx,
            Effect::Write { addr: IO_ADDR, value: b'p' as u32 },
            poll_tx,
            Effect::Write { addr: IO_ADDR, value: b'\n' as u32 },
            Effect::SignalEvent,
        ]
    );
    assert!(slots.poll(&mut fx, 0).is_none());
    for core in 1..4 {
        assert!(slots.poll(&mut fx, core).is_some());
        assert!(slots.poll(&mut fx, core).is_none());
    }
}

#[test]
fn kernel_main_replaces_a_task_that_was_not_taken() {
    fn other() {
        panic!("displaced task ran");
    }
    let mut lock = DeviceLock::new();
    let mut uart = booted(&mut lock);
    let slots: SharedSlots<fn()> = SharedSlots::new();
    let mut fx = Effects::new();
    slots.publish(2, other as fn());
    kernel_main(&mut uart, &slots, &mut fx, b"", hello as fn());
    assert_eq!(fx.drain(), vec![Effect::SignalEvent]);
    let task = slots.poll(&mut fx, 2).unwrap();
    task();
    assert!(slots.poll(&mut fx, 2).is_none());
}

#[test]
fn panic_is_reported_on_a_console_that_is_set_up() {
    let mut lock = DeviceLock::new();
    let mut uart = booted(&mut lock);
    let mut fx = Effects::new();
    assert!(report_panic(&mut uart, &mut fx, b"oops"));
    assert_eq!(sent(&fx), b"oops");
    assert_eq!(fx.len(), 8);
    assert!(uart.configured());
}

#[test]
fn panic_is_silent_before_the_console_is_set_up() {
    let mut lock = DeviceLock::new();
    let mut fx = Effects::new();
    let mut uart = MiniUART::acquire(&mut lock, &mut fx, 0).unwrap();
    assert!(!report_panic(&mut uart, &mut fx, b"oops"));
    assert_eq!(fx.len(), 0);
    assert!(!uart.configured());
}

#[test]
fn reply_to_each_byte() {
    assert_eq!(echo_reply(b'\r'), b"\n");
    assert_eq!(echo_reply(127), b"\x08 \x08");
    assert_eq!(echo_reply(b'h'), b"h");
    assert_eq!(echo_reply(b'\n'), b"\n");
    assert_eq!(echo_reply(8), vec![8]);
    assert_eq!(echo_reply(0), vec![0]);
    assert_eq!(echo_reply(255), vec![255]);
}
