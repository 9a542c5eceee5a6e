# bolt

Recreates the resized versions (thumb, web, ldpi, mdpi, hdpi, xhdpi, xxhdpi)
of the images stored for the documents of a MongoDB database, renaming each
image after the MD5 digest of its old name.

- `src/` is the verified library: paths, quote stripping, new file names,
  GraphicsMagick commands, the per-image job, the collection of a store's
  images, the database updates and the command line commands, each with a
  contract proved by Verus.
- `app/` is the program around it: the command line, the database, the file
  system, and the threads that run GraphicsMagick.
- `tests/` runs the library on concrete values.
