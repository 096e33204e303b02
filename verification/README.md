# pika_installer

The decision logic of the PikaOS GTK4 installer as a verified library, and
the installer program around it.

- `src/` — the library, verified with Verus: the checks of the automatic and
  manual partitioning pages, the mount table and its crypttab entries, the
  installation script assembled from shell templates, the installation
  summary, the progress stages, and the text helpers they rest on. Each
  public function states its result in its contract; the laws of the library
  are the `lemma_*` proof functions.
- `tests/` — tests of the library on concrete values.
- `app/` — the GTK4/libadwaita program: the pages, the calls of the
  partition utility and of the system tools, and the run of the
  installation script.
