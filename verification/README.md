# organizador_archivos

The rules of a folder organizer, verified with Verus. The organizer sorts the
files of a folder (typically *Descargas*) into category folders whose names
start with `⚫ `: PDFs by patterns in their names (and, when a name starts with
a `AAAAMMDDHHMMSS` timestamp, into month and day folders below the category),
other files by their extension. Reverting brings every file of the managed
folders back and removes the emptied folders, deepest first.

Layout:

- `src/texto.rs`: decimal notation of integers, two-digit numbers, comparison
  of string slices.
- `src/expresiones.rs`: the `regex` crate behind trusted wrappers.
- `src/clasificador.rs`: the category tables, the classification of PDFs and
  of extensions, and the laws of the tables (managed folders, disjoint
  extension lists).
- `src/fechas.rs`: the date of a timestamp (through `chrono`) and the month
  folder names.
- `src/rutas.rs`: paths through `std::path`, and the search of a free name
  for a moved file.
- `src/organizador.rs`: where each file goes, and the plan of moves for a
  folder.
- `src/limpieza.rs`: the order in which emptied folders are removed.
- `app/`: the desktop program (`eframe`), reading the folder, moving and
  removing files; it asks the library what to do.
- `tests/`: tests of the library on concrete values.
