# ufbt

Deployment of a Flipper Zero SDK and an ARM GCC toolchain into a local uFBT home
directory, written in Verus.

- `src/` is the verified library: the layout of the home directory and its environment
  file, the persisted deployment state, the update server's directory index, the SDK
  loaders and deploy tasks, the step-by-step course of an SDK deployment and of a
  toolchain deployment, safe archive entry paths, error messages and the rendering of
  log events and progress. Every public function carries a contract, and the laws that
  relate several functions are public proof functions next to them.
- `src/foreign.rs` and the wrappers in `src/text.rs` and `src/net.rs` are the trusted
  items: the declarations through which the library calls `indexmap`, `regex`,
  `reqwest`'s URL parser, `percent-encoding` and a few `std` string functions.
- `app/` is the unverified shell: file and network I/O, the logger and its clock,
  progress percentages (floating point), and the copies of library types that need
  outside derives. It carries out the deployment steps the library decides (in
  `SdkDeployer::deploy_step` and `DeployPlan::unix_step` / `windows_step`) and reports
  what each step learned; the order of the steps is verified, the file system and
  network work inside each step is not.
- `tests/` exercises the library from outside.
