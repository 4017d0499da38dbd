//! Components of the processor models: the MIPS forwarding comparator and
//! the RISC-V instruction memory.
pub mod instr_mem;
pub mod mips_alu_forward;
