# sound_processor

A real-time audio spectrum analyser: audio from a microphone or a looping WAV
file is cut into chunks, split into eight octave bands, and shown as a bar
graph on an SSD1306 OLED screen.

- `src/` is the verified library (Verus). It holds everything that decides:
  command-line handling (`args`), the choice of audio source and display
  (`selection`), bringing a device up with a fallback (`setup`), the
  producer, processing and display loops as step functions (`pipeline`),
  chunk assembly and channel extraction (`chunk`), and the bar layout
  (`layout`).
- `app/` is the program around it: audio input (cpal, hound), the FFT
  (rustfft), the level arithmetic in floating point, the OLED driver
  (ssd1306, embedded-graphics, linux-embedded-hal), threads and logging.
- `tests/` exercise the library.
