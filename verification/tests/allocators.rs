use rpi_kernel_core::allocators::{BoundArena, KBox, OutOfMemory, Region, KERNEL_ARENA_SIZE};
use rpi_kernel_core::error::{error_from, Error};

#[test]
fn new_arena_has_nothing_given_out() {
    let arena = BoundArena::<64>::new(0x8_0000);
    assert_eq!(arena.used(), 0);
    assert_eq!(arena.address(), 0x8_0000);
}

#[test]
fn addresses_are_aligned_whatever_the_base() {
    for base in [0usize, 1, 3, 8, 12, 0x1001, 0x8_0004] {
        let mut arena = BoundArena::<64>::new(base);
        for (size, align) in [(1usize, 1usize), (4, 4), (1, 2), (8, 8), (2, 16), (3, 1)] {
            let before = arena.used();
            let region = arena.alloc_layout(size, align).unwrap();
            assert_eq!((base + region.start) % align, 0);
            assert!(region.start >= before);
            assert!(region.start < before + align);
            assert_eq!(arena.used(), region.start + size);
            assert_eq!(arena.address(), base);
        }
    }
}

#[test]
fn odd_base_moves_the_first_region() {
    let mut arena = BoundArena::<16>::new(4);
    assert_eq!(arena.alloc_layout(4, 8), Ok(Region { start: 4, size: 4 }));
    assert_eq!(arena.alloc_layout(8, 8), Err(OutOfMemory));
    assert_eq!(arena.used(), 8);
    assert_eq!(arena.alloc_layout(4, 4), Ok(Region { start: 8, size: 4 }));
    let mut typed = BoundArena::<16>::new(2);
    assert_eq!(typed.raw_alloc::<u32>(), Ok(Region { start: 2, size: 4 }));
    assert_eq!(typed.raw_alloc::<u16>(), Ok(Region { start: 6, size: 2 }));
}

#[test]
fn arena_may_end_with_the_address_space() {
    let mut arena = BoundArena::<16>::new(usize::MAX - 16);
    assert_eq!(arena.alloc_layout(1, 1), Ok(Region { start: 0, size: 1 }));
    assert_eq!(arena.alloc_layout(15, 1), Ok(Region { start: 1, size: 15 }));
    assert_eq!(arena.alloc_layout(1, 1), Err(OutOfMemory));
    let mut odd = BoundArena::<16>::new(usize::MAX - 16);
    assert_eq!(odd.alloc_layout(1, 1), Ok(Region { start: 0, size: 1 }));
    assert_eq!(odd.alloc_layout(1, 1 << 20), Err(OutOfMemory));
    assert_eq!(odd.used(), 1);
}

#[test]
fn second_request_of_twelve_bytes_does_not_fit_sixteen() {
    let mut arena = BoundArena::<16>::new(0);
    assert_eq!(arena.alloc_layout(12, 8), Ok(Region { start: 0, size: 12 }));
    assert_eq!(arena.used(), 12);
    assert_eq!(arena.alloc_layout(12, 8), Err(OutOfMemory));
    assert_eq!(arena.used(), 12);
}

#[test]
fn start_is_rounded_up_to_the_alignment() {
    let mut arena = BoundArena::<64>::new(0);
    assert_eq!(arena.alloc_layout(1, 1), Ok(Region { start: 0, size: 1 }));
    assert_eq!(arena.alloc_layout(4, 8), Ok(Region { start: 8, size: 4 }));
    assert_eq!(arena.alloc_layout(2, 2), Ok(Region { start: 12, size: 2 }));
    assert_eq!(arena.alloc_layout(1, 16), Ok(Region { start: 16, size: 1 }));
    assert_eq!(arena.alloc_layout(3, 4), Ok(Region { start: 20, size: 3 }));
    assert_eq!(arena.used(), 23);
}

#[test]
fn alignment_need_not_be_a_power_of_two() {
    let mut arena = BoundArena::<64>::new(0);
    assert_eq!(arena.alloc_layout(1, 1), Ok(Region { start: 0, size: 1 }));
    assert_eq!(arena.alloc_layout(2, 3), Ok(Region { start: 3, size: 2 }));
    assert_eq!(arena.alloc_layout(1, 12), Ok(Region { start: 12, size: 1 }));
}

#[test]
fn regions_are_aligned_disjoint_and_in_order() {
    let requests: [(usize, usize); 8] =
        [(3, 1), (8, 8), (1, 2), (16, 16), (5, 4), (0, 32), (7, 1), (2, 8)];
    let mut arena = BoundArena::<128>::new(0);
    let mut served: Vec<(Region, usize)> = Vec::new();
    let mut cursor = 0;
    for (size, align) in requests {
        let before = arena.used();
        match arena.alloc_layout(size, align) {
            Ok(region) => {
                assert_eq!(region.start % align, 0);
                assert_eq!(region.size, size);
                assert!(region.start >= before);
                assert!(region.start < before + align);
                assert_eq!(arena.used(), region.start + region.size);
                served.push((region, align));
            }
            Err(OutOfMemory) => assert_eq!(arena.used(), before),
        }
        assert!(arena.used() >= cursor);
        assert!(arena.used() <= 128);
        cursor = arena.used();
    }
    assert_eq!(served.len(), 8);
    for i in 0..served.len() {
        for j in (i + 1)..served.len() {
            assert!(served[i].0.start + served[i].0.size <= served[j].0.start);
        }
    }
}

#[test]
fn refused_request_consumes_nothing_and_a_smaller_one_still_fits() {
    let mut arena = BoundArena::<32>::new(0);
    assert_eq!(arena.alloc_layout(20, 4), Ok(Region { start: 0, size: 20 }));
    assert_eq!(arena.alloc_layout(16, 1), Err(OutOfMemory));
    assert_eq!(arena.used(), 20);
    assert_eq!(arena.alloc_layout(1, 16), Err(OutOfMemory));
    assert_eq!(arena.used(), 20);
    assert_eq!(arena.alloc_layout(12, 1), Ok(Region { start: 20, size: 12 }));
    assert_eq!(arena.used(), 32);
    assert_eq!(arena.alloc_layout(1, 1), Err(OutOfMemory));
    assert_eq!(arena.alloc_layout(0, 1), Ok(Region { start: 32, size: 0 }));
}

#[test]
fn request_that_ends_at_the_capacity_fits() {
    let mut arena = BoundArena::<16>::new(0);
    assert_eq!(arena.alloc_layout(16, 16), Ok(Region { start: 0, size: 16 }));
    assert_eq!(arena.used(), 16);
}

#[test]
fn huge_request_is_refused_without_overflow() {
    let mut arena = BoundArena::<16>::new(0);
    assert_eq!(arena.alloc_layout(1, 1), Ok(Region { start: 0, size: 1 }));
    assert_eq!(arena.alloc_layout(usize::MAX, 1), Err(OutOfMemory));
    assert_eq!(arena.alloc_layout(1, usize::MAX), Err(OutOfMemory));
    assert_eq!(arena.used(), 1);
}

#[test]
fn empty_arena_serves_only_empty_requests() {
    let mut arena = BoundArena::<0>::new(0);
    assert_eq!(arena.alloc_layout(1, 1), Err(OutOfMemory));
    assert_eq!(arena.alloc_layout(0, 8), Ok(Region { start: 0, size: 0 }));
}

#[test]
fn raw_alloc_takes_size_and_alignment_from_the_type() {
    let mut arena = BoundArena::<64>::new(0);
    assert_eq!(arena.raw_alloc::<u8>(), Ok(Region { start: 0, size: 1 }));
    assert_eq!(arena.raw_alloc::<u32>(), Ok(Region { start: 4, size: 4 }));
    assert_eq!(arena.raw_alloc::<u16>(), Ok(Region { start: 8, size: 2 }));
    assert_eq!(arena.raw_alloc::<[u8; 64]>(), Err(OutOfMemory));
    assert_eq!(arena.used(), 10);
}

#[test]
fn allocate_returns_a_handle_that_owns_the_value() {
    let mut arena = BoundArena::<64>::new(0);
    let first = arena.allocate(7u8).unwrap();
    let mut second = arena.allocate(0x1122_3344u32).unwrap();
    assert_eq!(*first.deref(), 7);
    assert_eq!(first.place(), Region { start: 0, size: 1 });
    assert_eq!(*second.as_ref(), 0x1122_3344);
    assert_eq!(second.place(), Region { start: 4, size: 4 });
    *second.deref_mut() = 5;
    assert_eq!(*second.deref(), 5);
    *second.as_mut() += 1;
    assert_eq!(*second.as_ref(), 6);
    assert_eq!(second.place(), Region { start: 4, size: 4 });
    assert_eq!(*first.as_ref(), 7);
}

#[test]
fn allocate_fails_when_the_value_does_not_fit() {
    let mut arena = BoundArena::<6>::new(0);
    assert!(arena.allocate(1u32).is_ok());
    assert!(matches!(arena.allocate(2u32), Err(OutOfMemory)));
    assert_eq!(arena.used(), 4);
    assert!(arena.allocate(3u16).is_ok());
    assert_eq!(arena.used(), 6);
}

#[test]
fn kbox_new_places_the_value_in_the_given_arena() {
    let mut arena = BoundArena::<KERNEL_ARENA_SIZE>::new(0);
    let one = KBox::new(&mut arena, 1u16).unwrap();
    let two = KBox::new(&mut arena, [9u8; 3]).unwrap();
    assert_eq!(*one.deref(), 1);
    assert_eq!(one.place(), Region { start: 0, size: 2 });
    assert_eq!(*two.deref(), [9, 9, 9]);
    assert_eq!(two.place(), Region { start: 2, size: 3 });
    assert_eq!(arena.used(), 5);
}

#[test]
fn kernel_arena_holds_four_kibibytes() {
    assert_eq!(KERNEL_ARENA_SIZE, 4096);
    let mut arena = BoundArena::<KERNEL_ARENA_SIZE>::new(0);
    assert_eq!(arena.alloc_layout(4096, 1), Ok(Region { start: 0, size: 4096 }));
    assert_eq!(arena.alloc_layout(1, 1), Err(OutOfMemory));
}

#[test]
fn message_is_placed_in_the_arena_as_an_error() {
    let mut arena = BoundArena::<64>::new(0);
    let error = error_from(&mut arena, "out of luck").unwrap();
    assert_eq!(*error.deref(), "out of luck");
    assert_eq!(error.deref().describe(), String::from("out of luck"));
    assert_eq!(error.place().start, 0);
    assert_eq!(error.place().size, core::mem::size_of::<&'static str>());
    assert_eq!(arena.used(), core::mem::size_of::<&'static str>());
}

#[test]
fn message_that_does_not_fit_is_no_error_value() {
    let mut arena = BoundArena::<4>::new(0);
    assert!(matches!(error_from(&mut arena, "no room"), Err(OutOfMemory)));
    assert_eq!(arena.used(), 0);
}

#[test]
fn kbox_new_reports_an_arena_without_room() {
    let mut arena = BoundArena::<3>::new(0);
    assert!(KBox::new(&mut arena, 1u16).is_ok());
    assert!(matches!(KBox::new(&mut arena, 2u16), Err(OutOfMemory)));
    assert_eq!(arena.used(), 2);
    assert!(KBox::new(&mut arena, 3u8).is_ok());
    assert!(matches!(KBox::new(&mut arena, 4u8), Err(OutOfMemory)));
    assert_eq!(arena.used(), 3);
}
