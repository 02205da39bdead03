# lzx

The memory-management and UART logic of the LZx exploratory kernel, verified with Verus.

- `src/util.rs`: rounding addresses to powers of two, with the laws the roundings obey.
- `src/memory.rs`, `src/memory/phys/`: physical addresses, frames, memory sections and the
  sparse memory manager that sets a region of physical memory up as sections.
- `src/uart.rs`: the 16550 UART's register map, its set-up sequence and status decisions.
- `app/main.rs`: the boot path: register access, the linker's heap symbols, the global
  lock round the memory manager, and printing.

A section's frame array is a `Vec` allocated on the heap. Running out of memory therefore
aborts; no function reports an out-of-memory error.

Each call of `SparseMemoryManager::init_memory_region` sets up one contiguous region and
keeps the sections of the regions set up before it: the new sections fill the empty slots
after the occupied ones.
