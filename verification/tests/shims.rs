//! Tests of the kernel32/user32 stdcall shims, the allocator, and import
//! resolution.

use win32::kernel32;
use win32::{resolve, Shim, X86, STDOUT_HFILE};

/// Push a stdcall frame by hand: the return address, then the arguments
/// right to left, so the first argument ends on top of the stack.
fn push_frame(x86: &mut X86, ret_addr: u32, args: &[u32]) {
    x86.push(ret_addr);
    for &a in args.iter().rev() {
        x86.push(a);
    }
}

#[test]
fn stdcall_roundtrip() {
    let mut x86 = X86::new(0x40000);
    x86.regs.esp = 0x8000;
    x86.push_stdcall_frame(0xCAFE, &[1, 2, 3]);
    assert_eq!(x86.regs.esp, 0x8000 - 16);
    assert_eq!(x86.pop(), 1);
    assert_eq!(x86.pop(), 2);
    assert_eq!(x86.pop(), 3);
    x86.do_ret();
    assert_eq!(x86.regs.esp, 0x8000);
    assert_eq!(x86.regs.eip, 0xCAFE);
}

#[test]
fn write_file_stdout() {
    let mut x86 = X86::new(0x40000);
    x86.regs.esp = 0x8000;
    let addr: u32 = 0x2000;
    let p_written: u32 = 0x3000;
    x86.mem.write_bytes(addr, b"hello");
    push_frame(&mut x86, 0x1234, &[STDOUT_HFILE, addr, 5, p_written, 0]);
    kernel32::WriteFile(&mut x86);
    match x86.host.events.last().unwrap() {
        win32::host::HostEvent::Write { buf } => assert_eq!(buf.as_slice(), b"hello"),
        e => panic!("unexpected host event {:?}", e),
    }
    assert_eq!(x86.mem.read_u32(p_written), 5);
    assert_eq!(x86.regs.eax, 1);
    x86.do_ret();
    assert_eq!(x86.regs.esp, 0x8000);
    assert_eq!(x86.regs.eip, 0x1234);
}

#[test]
fn get_module_handle_null() {
    let mut x86 = X86::new(0x40000);
    x86.regs.esp = 0x8000;
    x86.state.kernel32.image_base = 0x0040_0000;
    push_frame(&mut x86, 0x1234, &[0]);
    kernel32::GetModuleHandleA(&mut x86);
    assert_eq!(x86.regs.eax, 0x0040_0000);
}

#[test]
fn get_module_handle_nonnull_unimplemented() {
    let mut x86 = X86::new(0x40000);
    x86.regs.esp = 0x8000;
    x86.state.kernel32.image_base = 0x0040_0000;
    push_frame(&mut x86, 0x1234, &[0x5000]);
    kernel32::GetModuleHandleA(&mut x86);
    assert_eq!(x86.regs.eax, 0);
}

#[test]
fn exit_process() {
    let mut x86 = X86::new(0x40000);
    x86.regs.esp = 0x8000;
    push_frame(&mut x86, 0x1234, &[42]);
    kernel32::ExitProcess(&mut x86);
    assert!(x86.host.exited);
    assert_eq!(
        x86.host.events.last().unwrap(),
        &win32::host::HostEvent::Exit { code: 42 }
    );
}

#[test]
fn virtual_alloc_basic() {
    let mut x86 = X86::new(0x40000);
    x86.regs.esp = 0x8000;
    assert_eq!(x86.state.kernel32.mappings.len(), 1);
    push_frame(&mut x86, 0x1234, &[0, 0x2000, 0x1000, 0]);
    kernel32::VirtualAlloc(&mut x86);
    let base = x86.regs.eax;
    assert!(base >= kernel32::NULL_POINTER_REGION_SIZE);
    assert_eq!(base % 0x1000, 0);
    assert_eq!(x86.state.kernel32.mappings.len(), 2);
    let m = &x86.state.kernel32.mappings[1];
    assert_eq!(m.addr, base);
    assert_eq!(m.size, 0x2000);
}

#[test]
fn add_mapping_keeps_list_sorted_and_disjoint() {
    let mut st = kernel32::State::new();
    st.add_mapping(kernel32::Mapping {
        addr: 0x40000,
        size: 0x1000,
        desc: "high".to_string(),
    });
    st.add_mapping(kernel32::Mapping {
        addr: 0x20000,
        size: 0x1000,
        desc: "low".to_string(),
    });
    let addrs: Vec<u32> = st.mappings.iter().map(|m| m.addr).collect();
    assert_eq!(addrs, vec![0, 0x20000, 0x40000]);
    for w in st.mappings.windows(2) {
        assert!(w[0].addr + w[0].size <= w[1].addr);
    }
}

#[test]
fn allocate_uses_first_large_enough_gap() {
    let mut st = kernel32::State::new();
    st.add_mapping(kernel32::Mapping {
        addr: 0x20000,
        size: 0x1000,
        desc: "island".to_string(),
    });
    let m = st.allocate(0x800, "gap".to_string());
    assert_eq!(m.addr, 0x10000);
    assert_eq!(m.addr % 0x1000, 0);
    assert_eq!(m.size, 0x800);
    for w in st.mappings.windows(2) {
        assert!(w[0].addr + w[0].size <= w[1].addr);
    }
}

#[test]
fn allocate_after_last_mapping() {
    let mut st = kernel32::State::new();
    let m = st.allocate(0x2000, "tail".to_string());
    assert_eq!(m.addr, 0x10000);
    assert_eq!(m.size, 0x2000);
}

#[test]
fn create_window_returns_fresh_handle() {
    let mut x86 = X86::new(0x40000);
    x86.regs.esp = 0x8000;
    push_frame(&mut x86, 0x1234, &[0; 12]);
    win32::user32::CreateWindowExA(&mut x86);
    assert_eq!(x86.regs.eax, 1);
    assert_eq!(
        x86.host.events.last().unwrap(),
        &win32::host::HostEvent::CreateWindow { handle: 1 }
    );
    push_frame(&mut x86, 0x1234, &[0; 12]);
    win32::user32::CreateWindowExA(&mut x86);
    assert_eq!(x86.regs.eax, 2);
}

#[test]
fn register_class_and_update_window_pop_their_argument() {
    let mut x86 = X86::new(0x40000);
    x86.regs.esp = 0x8000;
    push_frame(&mut x86, 0x1234, &[0x7000]);
    win32::user32::RegisterClassA(&mut x86);
    assert_eq!(x86.regs.esp, 0x8000 - 4);
    x86.do_ret();
    push_frame(&mut x86, 0x1234, &[1]);
    win32::user32::UpdateWindow(&mut x86);
    assert_eq!(x86.regs.esp, 0x8000 - 4);
}

#[test]
fn resolve_known_and_unknown_imports() {
    assert_eq!(
        resolve("kernel32.dll!ExitProcess"),
        Some(Shim::ExitProcess)
    );
    assert_eq!(
        resolve("kernel32.dll!GetModuleHandleA"),
        Some(Shim::GetModuleHandleA)
    );
    assert_eq!(resolve("kernel32.dll!WriteFile"), Some(Shim::WriteFile));
    assert_eq!(
        resolve("kernel32.dll!VirtualAlloc"),
        Some(Shim::VirtualAlloc)
    );
    assert_eq!(
        resolve("user32.dll!RegisterClassA"),
        Some(Shim::RegisterClassA)
    );
    assert_eq!(
        resolve("user32.dll!CreateWindowExA"),
        Some(Shim::CreateWindowExA)
    );
    assert_eq!(resolve("user32.dll!UpdateWindow"), Some(Shim::UpdateWindow));
    assert_eq!(resolve("kernel32.dll!CreateFileA"), None);
    assert_eq!(resolve(""), None);
}

#[test]
fn mem_u32_roundtrip_little_endian() {
    let mut m = win32::mem::Mem::new(0x1000);
    m.write_u32(0x10, 0x1234_5678);
    assert_eq!(m.read_u32(0x10), 0x1234_5678);
    assert_eq!(m.read_u8(0x10), 0x78);
    assert_eq!(m.read_u8(0x11), 0x56);
    assert_eq!(m.read_u8(0x12), 0x34);
    assert_eq!(m.read_u8(0x13), 0x12);
    assert_eq!(m.read_bytes(0x10, 4), vec![0x78, 0x56, 0x34, 0x12]);
}

#[test]
fn heap_rolls_back_only_the_last_allocation() {
    let mut h = win32::heap::Heap::new(0x1000, 0x1000);
    let a = h.allocate(16);
    let b = h.allocate(10);
    assert_eq!(a, 0x1000);
    assert_eq!(a % 4, 0);
    assert_eq!(b, 0x1010);
    let next_before = h.next;
    h.free(a); // not the most recent allocation: leaks
    assert_eq!(h.next, next_before);
    h.free(b); // most recent: the frontier rolls back
    assert_eq!(h.next, 0x10);
}

#[test]
fn can_allocate_tracks_the_scan() {
    let st = kernel32::State::new();
    assert!(st.can_allocate(0x2000));
    // Nothing can be larger than the space above the null guard.
    assert!(!st.can_allocate(0xFFFF_0000));
}
