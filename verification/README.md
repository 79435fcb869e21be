# uvex_sim

The verified core of a UVEX (UltraViolet EXplorer) image simulator.

- `src/` is the library, checked by Verus:
  - `config`: effect switches, imaging channels, and the non-numeric part of the
    instrument configuration with its defaults;
  - `naming`: decimal rendering of plane numbers;
  - `detector_effects`: the `{directory}/{name}_{plane}.fits` file scheme of the
    nine detector planes;
  - `dead_pixels`: synthetic dead-pixel maps (random layout, exact rendering);
  - `missing_data`: which synthetic detector maps are generated, and where;
  - `mosaic`: output dimensions of the detector mosaic and the detectors of
    the detector array;
  - `spectral`: which response curves make up each channel's response;
  - `simulation`: per-detector effect steps and placement of point-spread
    patches on a detector grid.
- `app/` is the program around it: YAML configuration, FITS output, the
  floating-point noise maps, the star table reader and the benchmark.
- `tests/` runs the library on concrete inputs.
