# arapuca

A process sandbox whose decisions are verified with Verus. It restricts which paths a
process can touch, which system calls it can make and how much it can use, and launches it
in an environment that holds nothing of the host's.

`src/` is the library, every function of it with its contract. It makes no system call. A
decision that depends on what an operation of the system came to takes that outcome as an
argument, and says what to do with it: what comes next, or which error ends it.

- `validate`, `env`, `env_laws`: task IDs, paths, environments and directories
- `rlimit`: resource limits, from a profile or from the environment
- `syscall`, `filter`, `seccomp`, `seccomp_laws`, `bpf`: the system call policy, its
  compilation by `seccompiler`, and what the compiled programs answer
- `platform`: commands, descriptors and CPU budgets of a launched process, and what each
  platform does with them
- `diskquota`, `process`, `terminal`: watching and cleaning up after a process, raw mode
- `ffi`: the interface for C, without its pointers
- `stdtext`, `text`, `path`, `error`, `config`: what the others are made of

What the proofs rest on beside Verus stands in `filter` (calls into `seccompiler`) and in
`stdtext` (calls into the standard library). The doc comment of each such function says
what is claimed of the call.

`app/` makes the system calls. Landlock rules, network namespaces, cgroups, the wrapper and
the text of Seatbelt profiles come from the program that embeds it, through `hooks` and the
`CgroupManager` trait. Without Landlock rules a profile cannot be applied on Linux, and
without a Seatbelt profile nothing is launched on macOS.
