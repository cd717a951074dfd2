# probe-tools

The logic behind two flash commands of a debug probe tool, and behind the
recovery of locked Texas Instruments MSPM0 devices, verified with Verus.

- `src/mspm0_dssm*` executes Debug SubSystem Mailbox commands, and the factory
  reset built on them.
- `src/cmd*` decides what the `download` and `erase` commands do, and when a
  chip erase is a factory reset.
- `src/machine.rs` is the protocol that all of them follow: a workflow names an
  action, and is told by an event how it went. The `laws` modules state what
  holds of every run.
- `app/` performs the actions: it drives the probe and the connection to it.
