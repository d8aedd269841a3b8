use rust_ia64::cpu::syscall::{SyscallContext, SyscallManager, SyscallNumber};
use rust_ia64::cpu::Cpu;

#[test]
fn test_syscall_context() {
    let mut context = SyscallContext::new(SyscallNumber::Write);

    // Set parameters
    context.set_param(0, 1); // fd
    context.set_param(1, 0x1000); // buffer
    context.set_param(2, 100); // count

    // Check parameters
    assert_eq!(context.get_param(0), Some(1));
    assert_eq!(context.get_param(1), Some(0x1000));
    assert_eq!(context.get_param(2), Some(100));

    // Set return value
    context.set_return(0, 100);

    // Set error
    context.set_error(0);
}

#[test]
fn test_syscall_manager() {
    let mut cpu = Cpu::new();
    let mut manager = SyscallManager::new();

    // Register handlers
    manager.init_default_handlers();

    // Begin syscall
    assert!(manager
        .begin_syscall(&cpu, SyscallNumber::Write.number())
        .is_ok());

    // Execute syscall
    assert!(manager
        .execute_syscall(&mut cpu, &mut SyscallContext::new(SyscallNumber::Write))
        .is_ok());

    // End syscall
    assert!(manager.end_syscall(&mut cpu).is_ok());
}
