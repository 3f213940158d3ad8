# violet

The core of Violet, a hypervisor for RISC-V, written in Verus: each function
carries a `requires`/`ensures` contract that Verus proves.

- `src/` is the verified library:
  - `library/`: bit fields and registers, virtual machines (virtual CPUs and
    their registers, guest memory, trap maps and the trap dispatcher,
    virtual devices: PLIC, CLINT, access logger) and the shell's line
    editor and command table;
  - `kernel/`: slab and bump allocators, tasks, the FIFO scheduler, the
    dispatcher, system calls and containers;
  - `system/`: system configuration, containers, SBI call numbers and the
    devices of the first design;
  - `resource/`, `utils/`: resource manager, log ring buffer, errors.

  Virtual devices do not touch the hardware: each access returns the
  actions (`DeviceAction`) that the hypervisor carries out, and is given
  what it read from the machine (`DeviceEnv`).
- `app/` is the hypervisor around it: the platform interface, global tables
  behind `spin` locks, the allocator adapter, the logger's clock, the main
  loop of each CPU, the console shell and the execution of device actions.
- `tests/` runs the library on concrete values.
