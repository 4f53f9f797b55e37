use axhal::arch::{
    disable_irqs, enable_irqs, init_tlb, irqs_enabled, read_page_table_root,
    set_tlb_handler, set_trap_vector_base, write_page_table_root,
};
use axhal::bits::{read_field, write_field};
use axhal::boot::init_mmu;
use axhal::console::{com1, getchar, putchar, Port, RxState, RxStep, TxStep, Uart, UART_ADDR};
use axhal::csr::{Csr, CsrFile, CsrWrite, Csrs};
use axhal::irq::{dispatch_irq, register_handler, set_enable, HandlerTable, MAX_IRQ_COUNT, TIMER_IRQ_NUM};
use axhal::platform::{platform_init, platform_init_secondary};
use axhal::time::{nanos_to_ticks, set_oneshot_timer, ticks_to_nanos, NANOS_PER_TICK};
use axhal::trap::{
    cause, handles, irq_number, loongarch64_trap_handler, Exception, Interrupt, Trap, TrapAction,
};

fn file() -> CsrFile {
    CsrFile::new(Csrs::zeroed())
}

#[test]
fn read_field_extracts_bits() {
    assert_eq!(read_field(0b110101, 2, 4), 0b1101);
    assert_eq!(read_field(0b110101, 0, 3), 0b101);
    assert_eq!(read_field(u64::MAX, 0, 64), u64::MAX);
    assert_eq!(read_field(0x8000_0000_0000_0000, 63, 1), 1);
}

#[test]
fn write_field_replaces_bits() {
    assert_eq!(write_field(0, 3, 2, 3), 0b11000);
    assert_eq!(write_field(u64::MAX, 8, 8, 0), 0xffff_ffff_ffff_00ff);
    assert_eq!(write_field(0xabcd, 4, 4, 0x1), 0xab1d);
    let v = write_field(0x1234_5678_9abc_def0, 20, 12, 0x5a5);
    assert_eq!(read_field(v, 20, 12), 0x5a5);
    assert_eq!(read_field(v, 0, 20), 0xcdef0);
    assert_eq!(read_field(v, 32, 32), 0x1234_5678);
}

#[test]
fn csr_numbers() {
    assert_eq!(Csr::Crmd.number(), 0x0);
    assert_eq!(Csr::Estat.number(), 0x5);
    assert_eq!(Csr::Ecfg.number(), 0x4);
    assert_eq!(Csr::Badv.number(), 0x7);
    assert_eq!(Csr::Pgdh.number(), 0x1a);
    assert_eq!(Csr::Eentry.number(), 0xc);
    assert_eq!(Csr::Pgdl.number(), 0x19);
    assert_eq!(Csr::Pwcl.number(), 0x1c);
    assert_eq!(Csr::Pwch.number(), 0x1d);
    assert_eq!(Csr::Stlbps.number(), 0x1e);
    assert_eq!(Csr::Tcfg.number(), 0x41);
    assert_eq!(Csr::Ticlr.number(), 0x44);
    assert_eq!(Csr::TlbrEntry.number(), 0x88);
    assert_eq!(Csr::TlbrEhi.number(), 0x8e);
}

#[test]
fn csr_write_is_read_back_and_logged() {
    let mut f = file();
    f.write(Csr::Tcfg, 7);
    f.write(Csr::Crmd, 3);
    assert_eq!(f.read(Csr::Tcfg), 7);
    assert_eq!(f.read(Csr::Crmd), 3);
    assert_eq!(f.read(Csr::Eentry), 0);
    assert_eq!(
        f.writes,
        vec![CsrWrite { csr: Csr::Tcfg, value: 7 }, CsrWrite { csr: Csr::Crmd, value: 3 }]
    );
}

#[test]
fn ticlr_write_clears_the_timer_interrupt() {
    let mut regs = Csrs::zeroed();
    regs.estat = 0x0c_0805;
    let mut f = CsrFile::new(regs);
    f.write(Csr::Ticlr, 0);
    assert_eq!(f.regs.estat, 0x0c_0805);
    f.write(Csr::Ticlr, 1);
    assert_eq!(f.regs.estat, 0x0c_0005);
    assert_eq!(f.regs.ticlr, 0);
    assert_eq!(
        f.writes,
        vec![CsrWrite { csr: Csr::Ticlr, value: 0 }, CsrWrite { csr: Csr::Ticlr, value: 1 }]
    );
}

#[test]
fn enable_and_disable_irqs() {
    let mut regs = Csrs::zeroed();
    regs.crmd = 0b1_1011_0011; // PLV 3, PG, DATF and DATM set, IE clear
    let mut f = CsrFile::new(regs);
    assert!(!irqs_enabled(&f));
    enable_irqs(&mut f);
    assert!(irqs_enabled(&f));
    assert_eq!(f.regs.crmd, 0b1_1011_0111);
    disable_irqs(&mut f);
    assert!(!irqs_enabled(&f));
    assert_eq!(f.regs.crmd, 0b1_1011_0011);
    assert_eq!(
        f.writes,
        vec![
            CsrWrite { csr: Csr::Crmd, value: 0b1_1011_0111 },
            CsrWrite { csr: Csr::Crmd, value: 0b1_1011_0011 },
        ]
    );
}

#[test]
fn trap_vector_base_is_written_with_interrupts_off() {
    let mut regs = Csrs::zeroed();
    regs.crmd = 0b0001_0100; // PG and IE
    let mut f = CsrFile::new(regs);
    set_trap_vector_base(&mut f, 0x9000_0000_0020_3000);
    assert_eq!(
        f.writes,
        vec![
            CsrWrite { csr: Csr::Crmd, value: 0b0001_0000 },
            CsrWrite { csr: Csr::Eentry, value: 0x9000_0000_0020_3000 },
            CsrWrite { csr: Csr::Crmd, value: 0b0001_0100 },
        ]
    );
    assert_eq!(f.regs.eentry, 0x9000_0000_0020_3000);
    assert!(irqs_enabled(&f));
}

#[test]
fn trap_vector_base_keeps_the_page_aligned_part() {
    let mut f = file();
    set_trap_vector_base(&mut f, 0x1234_5fff);
    assert_eq!(f.regs.eentry, 0x1234_5000);
}

#[test]
fn trap_vector_base_is_exact_when_aligned() {
    let mut regs = Csrs::zeroed();
    regs.eentry = 0xdead_babc;
    let mut f = CsrFile::new(regs);
    set_trap_vector_base(&mut f, 0x9000_0000_0040_0000);
    assert_eq!(f.regs.eentry, 0x9000_0000_0040_0000);
}

#[test]
fn tlb_handler_keeps_low_32_bits() {
    let mut f = file();
    set_tlb_handler(&mut f, 0x9000_0000_1234_5000);
    assert_eq!(f.regs.tlbrentry, 0x1234_5000);
    assert_eq!(f.writes, vec![CsrWrite { csr: Csr::TlbrEntry, value: 0x1234_5000 }]);
}

#[test]
fn init_tlb_sets_4k_pages() {
    let mut regs = Csrs::zeroed();
    regs.stlbps = 0x15;
    regs.tlbrehi = 0xffff_0000_0000_e015;
    let mut f = CsrFile::new(regs);
    init_tlb(&mut f, 0x9000_0000_0000_8000);
    assert_eq!(f.regs.stlbps, 0xc);
    assert_eq!(f.regs.tlbrehi, 0xffff_0000_0000_e00c);
    assert_eq!(f.regs.tlbrentry, 0x8000);
    assert_eq!(
        f.writes,
        vec![
            CsrWrite { csr: Csr::Stlbps, value: 0xc },
            CsrWrite { csr: Csr::TlbrEhi, value: 0xffff_0000_0000_e00c },
            CsrWrite { csr: Csr::TlbrEntry, value: 0x8000 },
        ]
    );
}

#[test]
fn page_table_root_is_written_only_when_it_changes() {
    let mut regs = Csrs::zeroed();
    regs.pgdl = 0x8000_1000;
    regs.pgdh = 0x9000_2000;
    let mut f = CsrFile::new(regs);
    assert_eq!(read_page_table_root(&f), 0x8000_1000);
    write_page_table_root(&mut f, 0x8000_1000);
    assert!(f.writes.is_empty());
    write_page_table_root(&mut f, 0x8020_0000);
    assert_eq!(f.regs.pgdl, 0x8020_0000);
    assert_eq!(f.regs.pgdh, 0x8020_0000);
    assert_eq!(read_page_table_root(&f), 0x8020_0000);
    assert_eq!(
        f.writes,
        vec![
            CsrWrite { csr: Csr::Pgdl, value: 0x8020_0000 },
            CsrWrite { csr: Csr::Pgdh, value: 0x8020_0000 },
        ]
    );
}

#[test]
fn page_table_root_reads_the_half_of_badv() {
    let mut regs = Csrs::zeroed();
    regs.pgdl = 0x8000_1000;
    regs.pgdh = 0x9000_2000;
    regs.badv = 0x9000_0000_0000_0000;
    let mut f = CsrFile::new(regs);
    assert_eq!(read_page_table_root(&f), 0x9000_2000);
    write_page_table_root(&mut f, 0x8000_1000);
    assert_eq!(
        f.writes,
        vec![
            CsrWrite { csr: Csr::Pgdl, value: 0x8000_1000 },
            CsrWrite { csr: Csr::Pgdh, value: 0x8000_1000 },
        ]
    );
    assert_eq!(read_page_table_root(&f), 0x8000_1000);
}

#[test]
fn page_table_root_keeps_its_page_aligned_part() {
    let mut f = file();
    write_page_table_root(&mut f, 0x8000_1234);
    assert_eq!(read_page_table_root(&f), 0x8000_1000);
    assert_eq!(f.writes.len(), 2);
    write_page_table_root(&mut f, 0x8000_1000);
    assert_eq!(f.writes.len(), 2);
}

#[test]
fn init_mmu_configures_the_walker() {
    let mut regs = Csrs::zeroed();
    regs.pwcl = 0xc000_0000; // PTEWidth kept
    regs.pwch = 0xfff_ffff;
    let mut f = CsrFile::new(regs);
    init_mmu(&mut f, 0x9000_0000_0000_4000);
    let pwcl = 12 | (9 << 5) | (21 << 10) | (9 << 15) | (30 << 20) | (9 << 25) | 0xc000_0000;
    assert_eq!(f.regs.pwcl, pwcl);
    assert_eq!(f.regs.pwch, 39 | (9 << 6) | (0x3f << 12) | 0xf00_0000);
    assert_eq!(f.writes.len(), 5);
    assert_eq!(f.writes[3], CsrWrite { csr: Csr::Pwcl, value: pwcl });
    assert_eq!(f.regs.stlbps, 0xc);
    assert_eq!(f.regs.tlbrentry, 0x4000);
}

#[test]
fn tick_conversions() {
    assert_eq!(NANOS_PER_TICK, 10);
    assert_eq!(ticks_to_nanos(0), 0);
    assert_eq!(ticks_to_nanos(7), 70);
    assert_eq!(ticks_to_nanos(100_000_000), 1_000_000_000);
    assert_eq!(nanos_to_ticks(75), 7);
    assert_eq!(nanos_to_ticks(9), 0);
    assert_eq!(nanos_to_ticks(ticks_to_nanos(123_456)), 123_456);
    assert!(ticks_to_nanos(nanos_to_ticks(1_234_567)) <= 1_234_567);
}

#[test]
fn oneshot_timer_fires_at_the_deadline() {
    let mut regs = Csrs::zeroed();
    regs.tcfg = 0b10;
    let mut f = CsrFile::new(regs);
    set_oneshot_timer(&mut f, 1000, 20_000);
    assert_eq!(f.regs.tcfg, 1 | (250 << 2));
    assert_eq!(f.writes, vec![CsrWrite { csr: Csr::Tcfg, value: 1 | (250 << 2) }]);
}

#[test]
fn oneshot_timer_rounds_up_to_four_ticks() {
    let mut f = file();
    set_oneshot_timer(&mut f, 1000, 10_050);
    assert_eq!(f.regs.tcfg, 1 | (2 << 2));
    let mut f = file();
    set_oneshot_timer(&mut f, 1000, 10_030);
    assert_eq!(f.regs.tcfg, 1 | (1 << 2));
}

#[test]
fn oneshot_timer_with_a_past_deadline_fires_soon() {
    let mut regs = Csrs::zeroed();
    regs.tcfg = 0xffff_0000_0000_0003;
    let mut f = CsrFile::new(regs);
    set_oneshot_timer(&mut f, 5000, 100);
    assert_eq!(f.regs.tcfg, 0x4 | 1);
}

#[test]
fn time_init_primary_disables_irqs_and_clears_timer() {
    let mut regs = Csrs::zeroed();
    regs.crmd = 0b100;
    let mut f = CsrFile::new(regs);
    axhal::time::init_primary(&mut f);
    assert!(!irqs_enabled(&f));
    assert_eq!(
        f.writes,
        vec![CsrWrite { csr: Csr::Crmd, value: 0 }, CsrWrite { csr: Csr::Ticlr, value: 1 }]
    );
}

#[test]
fn set_enable_switches_local_lines() {
    let mut f = file();
    set_enable(&mut f, 3, true);
    assert_eq!(f.regs.ecfg, 0x8);
    set_enable(&mut f, 12, true);
    assert_eq!(f.regs.ecfg, 0x1008);
    set_enable(&mut f, 3, false);
    assert_eq!(f.regs.ecfg, 0x1000);
    assert_eq!(
        f.writes,
        vec![
            CsrWrite { csr: Csr::Ecfg, value: 0x8 },
            CsrWrite { csr: Csr::Ecfg, value: 0x1008 },
            CsrWrite { csr: Csr::Ecfg, value: 0x1000 },
        ]
    );
}

#[test]
fn set_enable_leaves_lines_without_a_switch() {
    let mut f = file();
    set_enable(&mut f, 13, true);
    set_enable(&mut f, 100, false);
    assert!(f.writes.is_empty());
}

#[test]
fn set_enable_switches_the_timer() {
    let mut f = file();
    set_enable(&mut f, TIMER_IRQ_NUM, true);
    assert_eq!(f.regs.ecfg, 0x800);
    assert_eq!(f.regs.tcfg, 800_000_000 | 1);
    set_enable(&mut f, TIMER_IRQ_NUM, false);
    assert_eq!(f.regs.ecfg, 0);
    assert_eq!(f.regs.tcfg, 800_000_000);
    assert_eq!(
        f.writes,
        vec![
            CsrWrite { csr: Csr::Ecfg, value: 0x800 },
            CsrWrite { csr: Csr::Tcfg, value: 800_000_000 | 1 },
            CsrWrite { csr: Csr::Ecfg, value: 0 },
            CsrWrite { csr: Csr::Tcfg, value: 800_000_000 },
        ]
    );
}

#[test]
fn set_enable_clears_periodic_mode() {
    let mut regs = Csrs::zeroed();
    regs.tcfg = 0b10;
    let mut f = CsrFile::new(regs);
    set_enable(&mut f, 11, true);
    assert_eq!(f.regs.tcfg, 800_000_000 | 1);
}

fn handler_a() -> u32 {
    1
}

fn handler_b() -> u32 {
    2
}

#[test]
fn handlers_register_and_dispatch() {
    let mut table: HandlerTable<fn() -> u32> = HandlerTable::new();
    let mut f = file();
    assert_eq!(table.len(), MAX_IRQ_COUNT);
    assert!(dispatch_irq(&table, 5).is_none());
    assert!(register_handler(&mut table, &mut f, 5, handler_a as fn() -> u32));
    assert_eq!(f.writes, vec![CsrWrite { csr: Csr::Ecfg, value: 0x20 }]);
    assert_eq!(dispatch_irq(&table, 5).map(|h| h()), Some(1));
    assert!(!register_handler(&mut table, &mut f, 5, handler_b as fn() -> u32));
    assert_eq!(dispatch_irq(&table, 5).map(|h| h()), Some(1));
    assert!(!register_handler(&mut table, &mut f, MAX_IRQ_COUNT, handler_b as fn() -> u32));
    assert_eq!(f.writes.len(), 1);
    assert!(register_handler(&mut table, &mut f, 200, handler_b as fn() -> u32));
    assert_eq!(f.writes.len(), 1);
    assert_eq!(dispatch_irq(&table, 200).map(|h| h()), Some(2));
    assert!(dispatch_irq(&table, MAX_IRQ_COUNT).is_none());
    assert!(dispatch_irq(&table, 6).is_none());
}

#[test]
fn registering_the_timer_enables_it() {
    let mut table: HandlerTable<u8> = HandlerTable::new();
    let mut f = file();
    assert!(register_handler(&mut table, &mut f, TIMER_IRQ_NUM, 9));
    assert_eq!(
        f.writes,
        vec![
            CsrWrite { csr: Csr::Ecfg, value: 0x800 },
            CsrWrite { csr: Csr::Tcfg, value: 800_000_000 | 1 },
        ]
    );
    assert!(!register_handler(&mut table, &mut f, TIMER_IRQ_NUM, 10));
    assert_eq!(f.writes.len(), 2);
    assert_eq!(dispatch_irq(&table, TIMER_IRQ_NUM), Some(9));
}

#[test]
fn irq_init_primary_disables_irqs() {
    let mut regs = Csrs::zeroed();
    regs.crmd = 0b111;
    let mut f = CsrFile::new(regs);
    axhal::irq::init_primary(&mut f);
    assert_eq!(f.writes, vec![CsrWrite { csr: Csr::Crmd, value: 0b011 }]);
}

#[test]
fn platform_init_runs_irq_then_timer_setup() {
    let mut regs = Csrs::zeroed();
    regs.crmd = 0b100;
    let mut f = CsrFile::new(regs);
    platform_init(&mut f);
    assert_eq!(
        f.writes,
        vec![
            CsrWrite { csr: Csr::Crmd, value: 0 },
            CsrWrite { csr: Csr::Crmd, value: 0 },
            CsrWrite { csr: Csr::Ticlr, value: 1 },
        ]
    );
    platform_init_secondary();
}

#[test]
fn causes_are_decoded() {
    assert_eq!(cause(0xc << 16), Trap::Exception(Exception::Breakpoint));
    assert_eq!(cause(0xb << 16), Trap::Exception(Exception::Syscall));
    assert_eq!(cause(0x1 << 16), Trap::Exception(Exception::LoadPageFault));
    assert_eq!(cause(0x3f << 16), Trap::Exception(Exception::TlbRefill));
    assert_eq!(cause(0x25 << 16), Trap::Exception(Exception::Other(0x25)));
    assert_eq!(cause((0xc << 16) | 0x800), Trap::Exception(Exception::Breakpoint));
    assert_eq!(cause(0x800), Trap::Interrupt(Interrupt::Timer));
    assert_eq!(cause(0x1000), Trap::Interrupt(Interrupt::InterProcessor));
    assert_eq!(cause(0x400), Trap::Interrupt(Interrupt::PerformanceMonitor));
    assert_eq!(cause(0x804), Trap::Interrupt(Interrupt::Hardware(0)));
    assert_eq!(cause(0x200), Trap::Interrupt(Interrupt::Hardware(7)));
    assert_eq!(cause(0x2), Trap::Interrupt(Interrupt::Software(1)));
    assert_eq!(cause(0), Trap::Unknown);
    assert_eq!(cause(0x2000), Trap::Unknown);
}

#[test]
fn irq_numbers() {
    assert_eq!(irq_number(0x800), 11);
    assert_eq!(irq_number(0x804), 2);
    assert_eq!(irq_number(1), 0);
    assert_eq!(irq_number(0), 64);
}

#[test]
fn trap_handler_decisions() {
    let mut regs = Csrs::zeroed();
    regs.estat = 0x800;
    let mut f = CsrFile::new(regs);
    assert_eq!(loongarch64_trap_handler(&mut f, 0x800), TrapAction::Irq(11));
    assert_eq!(f.writes, vec![CsrWrite { csr: Csr::Ticlr, value: 1 }]);
    assert_eq!(f.regs.estat, 0);

    let mut regs = Csrs::zeroed();
    regs.estat = 0x8;
    let mut f = CsrFile::new(regs);
    assert_eq!(loongarch64_trap_handler(&mut f, 0x8), TrapAction::Irq(3));
    assert!(f.writes.is_empty());

    let mut regs = Csrs::zeroed();
    regs.estat = 0xc << 16;
    let mut f = CsrFile::new(regs);
    assert_eq!(loongarch64_trap_handler(&mut f, 0xc << 16), TrapAction::Breakpoint);
    assert!(f.writes.is_empty());

}

#[test]
fn trap_handler_handles_interrupts_and_breakpoints_only() {
    assert!(handles(Trap::Interrupt(Interrupt::Timer)));
    assert!(handles(Trap::Interrupt(Interrupt::Hardware(3))));
    assert!(handles(Trap::Exception(Exception::Breakpoint)));
    assert!(!handles(Trap::Exception(Exception::Syscall)));
    assert!(!handles(Trap::Exception(Exception::LoadPageFault)));
    assert!(!handles(Trap::Unknown));
    assert!(!handles(cause(0xb << 16)));
}

#[test]
fn console_newline_becomes_crlf() {
    assert_eq!(putchar(b'\n'), vec![b'\r', b'\n']);
    assert_eq!(putchar(b'a'), vec![b'a']);
    assert_eq!(putchar(b'\r'), vec![b'\r']);
}

#[test]
fn uart_transmit_waits_for_empty_holding_register() {
    let uart = Uart::new(0x1000);
    assert_eq!(uart.base_address(), 0x1000);
    assert_eq!(uart.putchar(b'x', None), TxStep::ReadStatus { addr: 0x1005 });
    assert_eq!(uart.putchar(b'x', Some(0x01)), TxStep::ReadStatus { addr: 0x1005 });
    assert_eq!(uart.putchar(b'x', Some(0x60)), TxStep::Write { addr: 0x1000, byte: b'x' });
}

#[test]
fn uart_receive_steps() {
    let uart = Uart::new(0x2000);
    assert_eq!(uart.getchar(RxState::Start), RxStep::ReadStatus { addr: 0x2005 });
    assert_eq!(uart.getchar(RxState::Status(0x60)), RxStep::Done(None));
    assert_eq!(uart.getchar(RxState::Status(0x61)), RxStep::ReadData { addr: 0x2000 });
    assert_eq!(uart.getchar(RxState::Data(b'q')), RxStep::Done(Some(b'q')));
}

#[test]
fn console_getchar_uses_com1() {
    assert_eq!(com1().base_address(), UART_ADDR);
    assert_eq!(getchar(RxState::Start), RxStep::ReadStatus { addr: UART_ADDR + 5 });
    assert_eq!(getchar(RxState::Status(1)), RxStep::ReadData { addr: UART_ADDR });
    assert_eq!(getchar(RxState::Status(0)), RxStep::Done(None));
}

#[test]
fn port_keeps_its_number() {
    assert_eq!(Port::new(0x0508).number(), 0x0508);
}
