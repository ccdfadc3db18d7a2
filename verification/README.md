# rust_rtos

A small preemptive round-robin kernel for Cortex-M microcontrollers.

* `src/` is the verified library: lazily initialised globals (`toinit`),
  task stacks and their saved register frames (`scheduler::task`), the
  round-robin scheduler (`scheduler`), system-call decoding and handling
  (`syscall`), the serial driver's bookkeeping (`drivers`), the checks made
  before the first task starts (`kernel`), and the trusted interfaces to
  `cortex_m` (`control`), `heapless` and `alloc_cortex_m` (`allocator`).
* `app/` is the kernel image around it: exception trampolines and context
  switching in assembly, the global supervisor and heap, the system-call
  stubs the tasks use, the board's serial port, and the demonstration tasks.
* `tests/` runs the library on the host.

A task's saved frame is addressed by its byte offset from the base of the
task's own stack; the image converts between offsets and the addresses the
processor uses.
