use customsyscall::error::LinkError;
use customsyscall::events::{NewBlock, ProposalProcessed};
use customsyscall::kernel::CustomKernelImpl;
use customsyscall::syscalls::{
    custom_syscalls, same_text, Capability, SyscallTable, SYSCALL_MODULE,
};

#[test]
fn link_syscalls_binds_the_five_host_calls() {
    let mut table = SyscallTable::new();
    assert_eq!(CustomKernelImpl::<()>::link_syscalls(&mut table, Ok(())), Ok(()));
    assert_eq!(table.len(), 5);
    assert_eq!(table.resolve("my_custom_kernel", "blake_2_hash"), Ok(Capability::Blake2Hash));
    assert_eq!(table.resolve("my_custom_kernel", "crc_hash"), Ok(Capability::CrcHash));
    assert_eq!(table.resolve("my_custom_kernel", "pbkdf2_hash"), Ok(Capability::Pbkdf2Hash));
    assert_eq!(table.resolve("my_custom_kernel", "argon2_hash"), Ok(Capability::Argon2Hash));
    assert_eq!(table.resolve("my_custom_kernel", "random_num"), Ok(Capability::RandomNum));
}

#[test]
fn link_syscalls_twice_is_a_duplicate() {
    let mut table = SyscallTable::new();
    assert_eq!(CustomKernelImpl::<()>::link_syscalls(&mut table, Ok(())), Ok(()));
    assert_eq!(
        CustomKernelImpl::<()>::link_syscalls(&mut table, Ok(())),
        Err(LinkError::DuplicateBinding)
    );
    assert_eq!(table.len(), 5);
}

#[test]
fn link_syscalls_stops_at_the_first_bound_slot() {
    let mut table = SyscallTable::new();
    assert_eq!(
        table.link_syscall(SYSCALL_MODULE, "pbkdf2_hash", Capability::RandomNum),
        Ok(())
    );
    assert_eq!(
        CustomKernelImpl::<()>::link_syscalls(&mut table, Ok(())),
        Err(LinkError::DuplicateBinding)
    );
    assert_eq!(table.len(), 3);
    assert_eq!(table.resolve(SYSCALL_MODULE, "blake_2_hash"), Ok(Capability::Blake2Hash));
    assert_eq!(table.resolve(SYSCALL_MODULE, "crc_hash"), Ok(Capability::CrcHash));
    assert_eq!(table.resolve(SYSCALL_MODULE, "pbkdf2_hash"), Ok(Capability::RandomNum));
    assert_eq!(table.resolve(SYSCALL_MODULE, "argon2_hash"), Err(LinkError::MissingBinding));
}

#[test]
fn link_syscalls_leaves_other_modules_alone() {
    let mut table = SyscallTable::new();
    assert_eq!(table.link_syscall("crypto", "blake_2_hash", Capability::CrcHash), Ok(()));
    assert_eq!(CustomKernelImpl::<()>::link_syscalls(&mut table, Ok(())), Ok(()));
    assert_eq!(table.len(), 6);
    assert_eq!(table.resolve("crypto", "blake_2_hash"), Ok(Capability::CrcHash));
    assert_eq!(table.resolve(SYSCALL_MODULE, "blake_2_hash"), Ok(Capability::Blake2Hash));
}

#[test]
fn link_syscalls_hands_on_the_failure_of_the_inner_kernel() {
    let mut table = SyscallTable::new();
    assert_eq!(
        CustomKernelImpl::<()>::link_syscalls(&mut table, Err(LinkError::MissingBinding)),
        Err(LinkError::MissingBinding)
    );
    assert_eq!(table.len(), 0);
    assert_eq!(
        CustomKernelImpl::<()>::link_syscalls(&mut table, Err(LinkError::DuplicateBinding)),
        Err(LinkError::DuplicateBinding)
    );
    assert_eq!(table.len(), 0);
}

#[test]
fn link_syscall_refuses_a_bound_slot() {
    let mut table = SyscallTable::new();
    assert_eq!(table.link_syscall("m", "f", Capability::CrcHash), Ok(()));
    assert_eq!(
        table.link_syscall("m", "f", Capability::RandomNum),
        Err(LinkError::DuplicateBinding)
    );
    assert_eq!(table.len(), 1);
    assert_eq!(table.resolve("m", "f"), Ok(Capability::CrcHash));
    assert_eq!(table.link_syscall("m", "g", Capability::RandomNum), Ok(()));
    assert_eq!(table.link_syscall("n", "f", Capability::RandomNum), Ok(()));
    assert_eq!(table.len(), 3);
}

#[test]
fn resolve_of_an_unbound_slot_is_missing() {
    let table = SyscallTable::new();
    assert_eq!(table.len(), 0);
    assert_eq!(
        table.resolve(SYSCALL_MODULE, "blake_2_hash"),
        Err(LinkError::MissingBinding)
    );
    let mut linked = SyscallTable::new();
    assert_eq!(CustomKernelImpl::<()>::link_syscalls(&mut linked, Ok(())), Ok(()));
    assert_eq!(linked.resolve(SYSCALL_MODULE, "blake2"), Err(LinkError::MissingBinding));
    assert_eq!(linked.resolve("other", "crc_hash"), Err(LinkError::MissingBinding));
}

#[test]
fn capabilities_have_names_and_arities() {
    assert_eq!(SYSCALL_MODULE, "my_custom_kernel");
    assert_eq!(Capability::Blake2Hash.function_name(), "blake_2_hash");
    assert_eq!(Capability::CrcHash.function_name(), "crc_hash");
    assert_eq!(Capability::Pbkdf2Hash.function_name(), "pbkdf2_hash");
    assert_eq!(Capability::Argon2Hash.function_name(), "argon2_hash");
    assert_eq!(Capability::RandomNum.function_name(), "random_num");
    assert_eq!(Capability::Blake2Hash.arity(), 1);
    assert_eq!(Capability::CrcHash.arity(), 1);
    assert_eq!(Capability::Pbkdf2Hash.arity(), 2);
    assert_eq!(Capability::Argon2Hash.arity(), 2);
    assert_eq!(Capability::RandomNum.arity(), 0);
}

#[test]
fn custom_syscalls_are_in_registration_order() {
    assert_eq!(
        custom_syscalls(),
        vec![
            Capability::Blake2Hash,
            Capability::CrcHash,
            Capability::Pbkdf2Hash,
            Capability::Argon2Hash,
            Capability::RandomNum,
        ]
    );
}

#[test]
fn same_text_compares_texts() {
    assert!(same_text("", ""));
    assert!(same_text("crc_hash", "crc_hash"));
    assert!(!same_text("crc_hash", "crc_hasi"));
    assert!(!same_text("crc_hash", "crc_has"));
    assert!(!same_text("pbkdf2_hash", "argon2_hash"));
    assert!(same_text("\u{e9}t\u{e9}", "\u{e9}t\u{e9}"));
}

#[test]
fn events_hold_their_fields() {
    let block = NewBlock { block_height: 12 };
    assert_eq!(block.block_height, 12);
    let proposal = ProposalProcessed {
        is_accepted: true,
        block_height: 12,
        block_hash: "ab",
        num_txs: 3,
        proposer: "p",
    };
    assert!(proposal.is_accepted);
    assert_eq!(proposal.block_height, 12);
    assert_eq!(proposal.block_hash, "ab");
    assert_eq!(proposal.num_txs, 3);
    assert_eq!(proposal.proposer, "p");
}
