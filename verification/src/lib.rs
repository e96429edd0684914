//! NovaOS boot-chain, kernel-contract and service-model logic.
pub mod bytes;
pub mod digest;
pub mod payload;
pub mod fabric;
pub mod verification;
pub mod bootinfo;
pub mod bootinfo_v2;
pub mod mmu;
pub mod init_capsule;
pub mod syscall;
pub mod bootstrap_task;
pub mod service;
pub mod exceptions;
pub mod console;
pub mod kernel_syscall;
pub mod allocator;
pub mod boot_contract;
pub mod el;
pub mod exception_runtime;
pub mod bootstrap;
pub mod diag;
pub mod trace;
pub mod kernel;
pub mod stage1;
pub mod loader;
pub mod initd;
pub mod mkimage;
pub mod text;
pub mod loader_report;
pub mod observe;
pub mod pci;
pub mod x86_64;
pub mod firmware;
pub mod bootstrap_el0;
pub mod svc_probe;
