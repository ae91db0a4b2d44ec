# econosim_bevy

An agent-based economy: producers offer raw materials, consumers bid for
finished goods, and companies run recipes on processors and learn by deep
Q-learning which trades and investments pay off.

`src/` is the verified library (Verus). It holds the parts of the simulation
that decide something on integers, strings and sequences:

- `resources::reinforcement_learning::action_space` — the discrete action
  space of the companies: its layout, its size, and that every output index of
  a Q-network names exactly one action.
- `systems::economy::marketplace` — choice of the cheapest offer and of the
  highest order per resource, and the trade statistics
  (`resources::economy::marketplace`).
- `systems::economy::producer`, `systems::common` — producer schedules and the
  countdown of expiring listings.
- `systems::reinforcement_learning::company_controller` — the observation
  layout (sorted resource ids, processor counts), the choice between exploring
  and exploiting, and what each action does to a company.
- `systems::ui` — action labels, the plot palette, rolling windows and the
  clamping of the marketplace dashboard's widgets.

Prices, amounts and money are floating point, and the networks run on burn;
that arithmetic, the ECS plumbing and the dashboards are in `app/`, which calls
the library for every decision listed above. Prices reach the library as
integer ranks that order them as `OrderedFloat` does.
