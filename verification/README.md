# gifterm

Play animated GIFs in terminals that speak the kitty graphics protocol.

`src/` is the verified library (Verus): GIF frames and their scaling, the
frame cache's names, the steps of loading from the cache or by decoding, the
escape sequences of the graphics protocol, terminal detection and the CLI's
status lines. `app/` is the program around it: argument parsing, files, the
cache on disk, the terminal, and the floating-point scaled height.
