# replica_steps

Two procedures of a replica that run step by step and can be interrupted, verified with Verus.

- The installation of canister code. `install_code` performs and records the steps, pauses
  and resumes them across rounds, and finishes an execution; `settlement` decides whether the
  subnet has the memory and compute for it. `install_model` says what each step does, and
  `install_laws` what holds of whole executions: above all, that a resumed execution is where
  it was paused.
- The recovery of a subnet. `recovery` has the trait that a recovery implements, with
  `resume` and `next_step`; `step_iterator` holds its steps; `recovery_laws` says where a
  resumed recovery continues, and which steps a whole iteration gives.

`severity` says how grave the failures of both are, for those who log them.

What the installation needs of its surroundings (validation of settings, application of an
execution's changes, memory and cycle accounts) it calls through functions in `RoundContext`
and `RoundAccounts`. The contracts presume nothing of them beyond that they answer, and say
what is asked and what is made of each answer. Where a law needs more, such as that the
accounts touch only cycles, it says so in its `requires`.

`app/` is a small program around the library: it executes shell commands as the steps of a
recovery.
