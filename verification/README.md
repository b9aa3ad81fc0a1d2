# rho_system_processes

The system processes of a Rholang runtime, verified with Verus.

A system process is a contract that the runtime provides: it prints, hashes,
verifies signatures, tells of the block and the deploy, resolves URNs, calls on
services, and runs MeTTa programs. The library holds what these processes decide.
What they need done, they ask of a host: a call yields a step, and where the step
asks for an action, the host performs it and resumes the process with its answer.

| Module | What it holds |
|---|---|
| `par`, `rho_type` | processes, and the values that they wrap |
| `exchange` | actions, answers and what a process waits for |
| `contract_call` | how a process is called |
| `system_processes`, `crypto_processes`, `registry_processes`, `service_processes`, `test_processes` | what a call does first |
| `resume` | how a process goes on |
| `definitions`, `fixed_channels`, `state` | names, numbers and what processes know |
| `swi_prolog_service`, `json`, `text` | MeTTa programs: how the interpreter is called and what its output means |
| `crypto` | signatures, hexadecimal, random identifiers |
| `value_laws`, `process_laws`, `registry_laws` | what holds of all this as a whole |
| `test_utils` | helpers for tests |

`app/` is the runtime around it: it drives processes against a host, prints, logs,
and starts the interpreter.
