# driver-test-cli-v2

A single-command tool that smoketests a Windows driver package on a local Hyper-V virtual
machine: it starts a log capture, installs the driver, verifies it, and collects the captured
logs. A run stops at its first failure and ends with a report for human readers or in JSON.

The decisions are a verified library (Verus); the program around it runs the processes.

- `src/` is the library. Every function states in its contract what it returns, over
  mathematical models of text, time, scripts and reports.
  - `pipeline` is the state machine of a run: it takes events and readings of a clock, and
    gives what to do next. `laws` states what holds of every run.
  - `steps` tells what the outcome of a script means for the report; `report` holds the
    report and writes it; `capture` names capture sessions, their scripts and their files.
  - `ps_runner` and `command` tell how a script is found, started, watched and retried.
  - `package`, `extract`, `error`, `cli` and `bugcheck` hold the rules on driver packages,
    script output, errors, the command line and kernel panics.
  - `text`, `paths`, `numbers`, `calendar`, `encoding`, `duration`, `details` and `json` are
    the values that the others are made of.
- `app/` is the program: arguments, files, processes and printing.
- `tests/` runs the library on concrete values.
