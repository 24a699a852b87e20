# lightsysmon

A lightweight system monitor (CPU, memory, disks, network, processes) whose
decisions and output are verified with Verus.

- `src/` — the verified library: byte-count formatting (`units`), the
  process table order (`process`), how options and the configuration file
  combine (`settings`, `config`, `cli`), the dashboard's key handling
  (`tui`) and layout and texts (`dashboard`), the plain-text output
  (`render`), the interactive menu's choices (`interactive`) and the integer
  parts of the metrics (`metrics`).
- `app/` — the program around it: command-line parsing, reading the machine
  through sysinfo, floating-point percentages, printing, the terminal
  dashboard and the prompts.
- `tests/` — tests of the library on concrete values.
