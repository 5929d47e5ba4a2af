# character_tracker

The data model and the screen logic of a desktop D&D character tracker,
verified with Verus.

- `src/models.rs`: races, racial traits, skills, dice, weapons, and the
  race builder with its missing-field errors.
- `src/record.rs`: record addresses and the fresh random key for a new record.
- `src/text.rs`: decimal notation and decimal integer reading.
- `src/controller.rs`: the shared model, store requests and answers, and
  screen navigation.
- `src/pages/`: the race and weapon screens as state machines that return
  the effects (store requests) a click causes, the race form, and the
  damage dice summary.
- `src/class.rs`: the class screen's two states.
- `app/`: the egui window, the local store on its own thread, and the
  serde copies of the stored records.
