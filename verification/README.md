# portable_runner

Mounts a portable directory as a consistent user directory on Windows, and runs
commands with the user's environment pointed at a home directory inside it.

- `src/` is the verified library: Windows path prefixes and roots (`winpath`), the
  console program's command line (`cli`), what a mount decides and the environment it
  sets (`mount`), reading the environment a profile script leaves behind
  (`profile_env`), the shortcuts configuration (`config`), shell link fields (`lnk`),
  command lines and script names (`commands`), tray and menu actions (`ui`), and text
  helpers (`text`).
- `app/` is the console program `PortableDesktopCli` and the file, process and
  environment work around the library.
