//! Callback shims: registration, forwarding, and the reallocation policy.

use std::cell::{Cell, RefCell};

use lai::{Host, Lai, LogLevel};

/// A host that records every capability call and serves allocations from a
/// bump counter.
struct RecordingHost {
    calls: RefCell<Vec<String>>,
    next_ptr: Cell<usize>,
}

impl RecordingHost {
    fn new() -> RecordingHost {
        RecordingHost { calls: RefCell::new(Vec::new()), next_ptr: Cell::new(0x1000) }
    }

    fn calls(&self) -> Vec<String> {
        self.calls.borrow().clone()
    }

    fn record(&self, call: String) {
        self.calls.borrow_mut().push(call);
    }
}

impl Host for RecordingHost {
    fn scan(&self, signature: &str, index: usize) -> usize {
        self.record(format!("scan {signature} {index}"));
        0x8000 + index
    }

    fn sleep(&self, ms: u64) {
        self.record(format!("sleep {ms}"));
    }

    fn outb(&self, port: u16, value: u8) {
        self.record(format!("outb {port} {value}"));
    }

    fn outw(&self, port: u16, value: u16) {
        self.record(format!("outw {port} {value}"));
    }

    fn outd(&self, port: u16, value: u32) {
        self.record(format!("outd {port} {value}"));
    }

    fn inb(&self, port: u16) -> u8 {
        self.record(format!("inb {port}"));
        0xAB
    }

    fn inw(&self, port: u16) -> u16 {
        self.record(format!("inw {port}"));
        0xABCD
    }

    fn ind(&self, port: u16) -> u32 {
        self.record(format!("ind {port}"));
        0xABCD_EF01
    }

    fn pci_writeb(&self, seg: u16, bus: u8, slot: u8, fun: u8, offset: u16, value: u8) {
        self.record(format!("pci_writeb {seg} {bus} {slot} {fun} {offset} {value}"));
    }

    fn pci_writew(&self, seg: u16, bus: u8, slot: u8, fun: u8, offset: u16, value: u16) {
        self.record(format!("pci_writew {seg} {bus} {slot} {fun} {offset} {value}"));
    }

    fn pci_writed(&self, seg: u16, bus: u8, slot: u8, fun: u8, offset: u16, value: u32) {
        self.record(format!("pci_writed {seg} {bus} {slot} {fun} {offset} {value}"));
    }

    fn pci_readb(&self, seg: u16, bus: u8, slot: u8, fun: u8, offset: u16) -> u8 {
        self.record(format!("pci_readb {seg} {bus} {slot} {fun} {offset}"));
        0x11
    }

    fn pci_readw(&self, seg: u16, bus: u8, slot: u8, fun: u8, offset: u16) -> u16 {
        self.record(format!("pci_readw {seg} {bus} {slot} {fun} {offset}"));
        0x2222
    }

    fn pci_readd(&self, seg: u16, bus: u8, slot: u8, fun: u8, offset: u16) -> u32 {
        self.record(format!("pci_readd {seg} {bus} {slot} {fun} {offset}"));
        0x3333_3333
    }

    fn map(&self, address: usize, count: usize) -> usize {
        self.record(format!("map {address} {count}"));
        address + 0xFFFF_0000
    }

    fn unmap(&self, address: usize, count: usize) {
        self.record(format!("unmap {address} {count}"));
    }

    fn timer(&self) -> u64 {
        self.record("timer".to_string());
        4242
    }

    fn log(&self, level: LogLevel, message: &str) {
        self.record(format!("log {level:?} {message}"));
    }

    fn allocate(&self, size: usize) -> usize {
        self.record(format!("allocate {size}"));
        let ptr = self.next_ptr.get();
        self.next_ptr.set(ptr + size.max(16));
        ptr
    }

    fn deallocate(&self, ptr: usize, size: usize) {
        self.record(format!("deallocate {ptr} {size}"));
    }

    fn reallocate(&self, ptr: usize, new_size: usize, old_size: usize) -> usize {
        self.record(format!("reallocate {ptr} {new_size} {old_size}"));
        ptr
    }
}

fn registered() -> Lai<RecordingHost> {
    let mut lai = Lai::new();
    assert!(lai.try_init(RecordingHost::new()));
    lai
}

#[test]
fn registration_succeeds_once() {
    let mut lai = Lai::new();
    assert!(!lai.is_initialized());
    assert!(lai.try_init(RecordingHost::new()));
    assert!(lai.is_initialized());
}

#[test]
fn second_registration_fails_even_with_an_identical_host() {
    let mut lai = registered();
    lai.get_laihost().record("first".to_string());
    assert!(!lai.try_init(RecordingHost::new()));
    assert!(!lai.try_init(RecordingHost::new()));
    // The originally registered host is still the one in place.
    assert_eq!(lai.get_laihost().calls(), vec!["first".to_string()]);
}

#[test]
fn realloc_with_null_pointer_behaves_like_malloc() {
    let lai = registered();
    let fresh = lai.laihost_realloc(0, 64, 0);
    assert_eq!(lai.get_laihost().calls(), vec!["allocate 64".to_string()]);
    let direct = registered();
    let expected = direct.laihost_malloc(64);
    assert_eq!(fresh, expected);
    assert_eq!(direct.get_laihost().calls(), vec!["allocate 64".to_string()]);
}

#[test]
fn realloc_to_zero_size_frees_and_returns_null() {
    let lai = registered();
    let r = lai.laihost_realloc(0x2000, 0, 32);
    assert_eq!(r, 0);
    assert_eq!(lai.get_laihost().calls(), vec!["deallocate 8192 32".to_string()]);
}

#[test]
fn realloc_with_live_pointer_and_size_forwards_exactly_once() {
    let lai = registered();
    let r = lai.laihost_realloc(0x2000, 64, 32);
    assert_eq!(r, 0x2000);
    assert_eq!(lai.get_laihost().calls(), vec!["reallocate 8192 64 32".to_string()]);
}

#[test]
fn malloc_and_free_forward_to_the_host_allocator() {
    let lai = registered();
    let p = lai.laihost_malloc(48);
    lai.laihost_free(p, 48);
    assert_eq!(
        lai.get_laihost().calls(),
        vec!["allocate 48".to_string(), format!("deallocate {p} 48")]
    );
}

#[test]
fn scan_forwards_signature_and_index() {
    let lai = registered();
    assert_eq!(lai.laihost_scan("RSDT", 2), 0x8002);
    assert_eq!(lai.get_laihost().calls(), vec!["scan RSDT 2".to_string()]);
}

#[test]
fn log_shim_decodes_the_two_native_levels() {
    let lai = registered();
    lai.laihost_log(1, "starting");
    lai.laihost_log(2, "short on memory");
    assert_eq!(
        lai.get_laihost().calls(),
        vec!["log Debug starting".to_string(), "log Warn short on memory".to_string()]
    );
}

#[test]
fn port_io_shims_forward_arguments_and_results() {
    let lai = registered();
    lai.laihost_outb(0x80, 7);
    lai.laihost_outw(0x81, 700);
    lai.laihost_outd(0x82, 70000);
    assert_eq!(lai.laihost_inb(0x60), 0xAB);
    assert_eq!(lai.laihost_inw(0x61), 0xABCD);
    assert_eq!(lai.laihost_ind(0x62), 0xABCD_EF01);
    assert_eq!(
        lai.get_laihost().calls(),
        vec![
            "outb 128 7".to_string(),
            "outw 129 700".to_string(),
            "outd 130 70000".to_string(),
            "inb 96".to_string(),
            "inw 97".to_string(),
            "ind 98".to_string(),
        ]
    );
}

#[test]
fn pci_shims_forward_the_full_address() {
    let lai = registered();
    lai.laihost_pci_writeb(1, 2, 3, 4, 0x40, 9);
    assert_eq!(lai.laihost_pci_readb(1, 2, 3, 4, 0x40), 0x11);
    assert_eq!(lai.laihost_pci_readw(5, 6, 7, 0, 0x44), 0x2222);
    assert_eq!(lai.laihost_pci_readd(8, 9, 10, 1, 0x48), 0x3333_3333);
    lai.laihost_pci_writew(1, 2, 3, 4, 0x4C, 0x5555);
    lai.laihost_pci_writed(1, 2, 3, 4, 0x50, 0x6666_6666);
    assert_eq!(
        lai.get_laihost().calls(),
        vec![
            "pci_writeb 1 2 3 4 64 9".to_string(),
            "pci_readb 1 2 3 4 64".to_string(),
            "pci_readw 5 6 7 0 68".to_string(),
            "pci_readd 8 9 10 1 72".to_string(),
            "pci_writew 1 2 3 4 76 21845".to_string(),
            "pci_writed 1 2 3 4 80 1717986918".to_string(),
        ]
    );
}

#[test]
fn memory_timer_and_sleep_shims_forward() {
    let lai = registered();
    assert_eq!(lai.laihost_map(0x1234, 4096), 0x1234 + 0xFFFF_0000);
    lai.laihost_unmap(0x1234, 4096);
    assert_eq!(lai.laihost_timer(), 4242);
    lai.laihost_sleep(15);
    assert_eq!(
        lai.get_laihost().calls(),
        vec![
            "map 4660 4096".to_string(),
            "unmap 4660 4096".to_string(),
            "timer".to_string(),
            "sleep 15".to_string(),
        ]
    );
}
