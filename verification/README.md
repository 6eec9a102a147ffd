# rog_quickswitch

A small GTK4/libadwaita control panel for ASUS ROG laptops on Linux that
talks to `asusd` and `supergfxd` over D-Bus and reads sysfs.

- `src/` is the verified library (Verus): the daemons' numbering of profiles,
  graphics modes and pending actions; what each performance mode sets and how
  the active one is recognised; the fan-curve editing rules; the parsing of
  introspection data, hwmon files and the platform-profile files; and the
  decimal text of readings and labels. Each function states its result in its
  contract, and the laws that tie functions together are proof functions
  beside them.
- `app/` is the program: D-Bus proxies (zbus), file access, the GTK widgets,
  and the floating-point chart geometry of the fan-curve editor.
- `tests/` runs the library on concrete values.
