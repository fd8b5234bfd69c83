use shmallocator::placement::{footer_address, full_size, place};
use shmallocator::{PSMAllocator, Placement};

const WIDTH: usize = std::mem::size_of::<usize>();

fn allocate_in(block: usize, size: usize, align: usize) -> (usize, Placement) {
    let full = full_size(size, align).expect("request fits");
    let p = place(block, size, align).expect("block is not null");
    (full, p)
}

#[test]
fn full_size_pads_and_adds_footer() {
    assert_eq!(full_size(16, 8), Some(16 + 8 + WIDTH));
    assert_eq!(full_size(17, 8), Some(24 + 8 + WIDTH));
    assert_eq!(full_size(0, 1), Some(1 + WIDTH));
    assert_eq!(full_size(5, 64), Some(64 + 64 + WIDTH));
}

#[test]
fn full_size_overflow_is_none() {
    assert_eq!(full_size(usize::MAX, 1), None);
    assert_eq!(full_size(usize::MAX - 3, 8), None);
    assert_eq!(full_size(usize::MAX - 20, 16), None);
    assert_eq!(full_size(usize::MAX - 100, 16), Some(usize::MAX - 95 + 16 + WIDTH));
}

#[test]
fn allocate_sixteen_aligned_eight() {
    for block in [0x1000usize, 0x1001, 0x1003, 0x1007] {
        let (full, p) = allocate_in(block, 16, 8);
        assert_ne!(p.user, 0);
        assert_eq!(p.user % 8, 0);
        assert!(p.footer + WIDTH <= block + full);
    }
    let (_, p) = allocate_in(0x1001, 16, 8);
    assert_eq!(p, Placement { block: 0x1001, user: 0x1008, footer: 0x1018 });
}

#[test]
fn user_pointer_is_aligned_for_every_request() {
    for shift in 0..12u32 {
        let align = 1usize << shift;
        for size in [0usize, 1, 7, 8, 13, 64, 1000] {
            for block in 1..200usize {
                let (full, p) = allocate_in(block, size, align);
                assert_eq!(p.user % align, 0);
                assert!(p.block <= p.user && p.user < p.block + align);
                assert!(p.footer + WIDTH <= block + full);
            }
        }
    }
}

#[test]
fn repeated_cycles_keep_footer_inside_block() {
    let mut block = 0x2000usize;
    for _ in 0..50 {
        let (full, p) = allocate_in(block, 24, 16);
        assert!(p.footer + WIDTH <= block + full);
        assert_eq!(footer_address(p.user, 24), p.footer);
        block += 3;
    }
}

#[test]
fn free_reads_the_footer_that_alloc_wrote() {
    let (_, p) = allocate_in(0x3005, 100, 32);
    assert_eq!(p.user, 0x3020);
    assert_eq!(footer_address(p.user, 100), p.footer);
    assert_eq!(p.footer, 0x3020 + 100);
}

#[test]
fn null_block_is_exhaustion() {
    assert_eq!(place(0, 16, 8), None);
    assert_eq!(place(0, 0, 1), None);
    let (_, p) = allocate_in(0x4000, 8, 8);
    assert_eq!(p.user, 0x4000);
}

#[test]
fn name_bytes_zero_terminated() {
    let b = PSMAllocator::name_bytes("test.psm").expect("short name");
    assert_eq!(b.len(), 0x1000);
    assert_eq!(&b[..8], b"test.psm");
    assert!(b[8..].iter().all(|&x| x == 0));
}

#[test]
fn name_bytes_empty_name() {
    let b = PSMAllocator::name_bytes("").expect("empty name fits");
    assert_eq!(b.len(), 0x1000);
    assert!(b.iter().all(|&x| x == 0));
}

#[test]
fn name_bytes_capacity_edge() {
    let longest = "a".repeat(0xfff);
    let b = PSMAllocator::name_bytes(&longest).expect("fits with terminator");
    assert_eq!(b[0xffe], b'a');
    assert_eq!(b[0xfff], 0);
    assert_eq!(PSMAllocator::name_bytes(&"a".repeat(0x1000)), None);
    assert_eq!(PSMAllocator::name_bytes(&"a".repeat(0x2000)), None);
}

#[test]
fn handle_is_kept() {
    let a = PSMAllocator::from_handle(0xdead0);
    assert_eq!(a.handle(), 0xdead0);
}
