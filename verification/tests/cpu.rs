use rust_ia64::cpu::syscall::SyscallNumber;
use rust_ia64::cpu::Cpu;

#[test]
fn test_syscall() {
    let mut cpu = Cpu::default();

    // Set up syscall parameters
    let syscall_num = SyscallNumber::Write.number();
    let fd = 1; // stdout
    let buf = 0x1000; // buffer address
    let count = 100; // bytes to write

    // Set up registers
    cpu.gr[32] = fd;
    cpu.gr[33] = buf;
    cpu.gr[34] = count;

    // Execute syscall
    cpu.do_syscall(syscall_num).unwrap();

    // Check return value
    assert_eq!(cpu.gr[8], count);
    assert_eq!(cpu.gr[9], 0); // no error
}
