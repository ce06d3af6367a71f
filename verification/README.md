# pico_macropad_rs

Firmware logic of a Raspberry Pi Pico macropad (ten keys, two rotary encoders,
a menu encoder, an SH1106 OLED, eight RGB LEDs and an SD card holding CBOR
configuration files), verified with Verus.

* `src/` is the verified library:
  * `model` – the configuration (`MacroConfig` and its parts) and its abstract model;
  * `containers` – debounced state of encoders and push buttons;
  * `encoder`, `rotary_encoder` – turning encoder readings into counts;
  * `firmware` – the decisions of the input, display and keyboard tasks;
  * `read_config` – what happens to configurations read from the card;
  * `update_display` – the layout of the display and scrolling of texts;
  * `example_config`, `test_config` – built-in configurations.
* `app/` holds the hardware, file and browser side: SD card access, drawing,
  pin reading, USB reports and the WebAssembly entry points of the editor.
* `tests/` exercises the library on concrete values.
