# Magnesium

The logic of Magnesium, a desktop client for the timetable of the EFG school
(served by Schulmanager), as a verified library, and the GTK program around it.

- `src/models/secret.rs`: the entries the application keeps in the session's
  secret store (the Schulmanager session token and the Office 365 password of
  an account), and the operations on them.
- `src/models/store.rs`: the requests to the secret service, each giving a
  record of what it was handed and what came back.
- `src/models/smart.rs`: the timetable data of the school service (lessons,
  substitutions, cancellations, events, lesson hours and their times).
- `src/efg/timetable/blocks.rs`: the blocks of a lesson hour, the column of a
  day and the layout of a week.
- `src/efg/timetable/mod.rs`: how the calendar moves the shown week and what
  the timetable area shows for each connection state.
- `src/efg/mod.rs`: the sign-in to the school service and the greeting.
- `src/efg/preferences.rs`: the settings behind the preference toggles.
- `app/`: the GTK program: windows, widgets, the secret service connection and
  the calls to the school service.
