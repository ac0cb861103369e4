# agentira

A small factory simulation (collectors gather iron, a factory turns it into
products) and a kitchen dashboard with animated characters.

- `src/` is the verified library: the factory counters and the collectors'
  pick-up/delivery cycle, production, the resource spawn cap, the starting
  layout of the world, the recipe task list and dashboard labels, and the
  characters' personalities and accessories. Laws about them are proof
  functions next to the code they speak of.
- `app/` is the Bevy program around it: windows, meshes, materials, movement
  and animation (all floating point), and the systems that call the library
  for every decision on counters, tasks and layout.
- `tests/` runs the library on concrete values.
