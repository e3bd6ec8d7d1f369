# Articulator

A small server that lists the scripts stored in a `scripts` folder beside its
executable and runs them on request (PowerShell `.ps1`, Python `.py`, shell
`.sh`).

- `src/` is the verified library: the kind of script an extension names, the
  script types and the commands that run them, where a script's file is looked
  for, the list of scripts built from a walk of the folder, the lookup of a
  script by name, the replies, and the steps of a request to run a script.
- `app/` is the server around it: argument parsing, the HTTP routes, the walk
  of the folder, the file checks, running processes, the HTML template and the
  JSON listing.
