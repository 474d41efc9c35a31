//! VMX control bits (Intel SDM Vol 3C, Appendix A).
pub mod cpu_based;
pub mod pin_based;
pub mod secondary_exec;
pub mod vm_entry;
pub mod vm_exit;
