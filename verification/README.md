# ssd1322

Driver logic for the SSD1322 OLED controller, verified with Verus.

- `src/command.rs`: the configuration commands, their encoding into a command byte and argument
  bytes (opcodes, ranges and bit layouts as the SSD1322 datasheet gives them), and
  `Transmission`, the state machine that sends a sequence of commands write by write.
- `src/config.rs`: `Config`, its builders, the commands it sends and `Config::send` over any
  `DisplayInterface`.
- `src/interface.rs`: the `DisplayInterface` trait, modelled by the log of writes that reached the
  display, and `SpiTransfer`, the pin and bus operations of the 4-wire SPI interface.
- `src/testing.rs`: `Sent`, the comparison of logs, and `TestSpyInterface`, a verified logging
  interface.
- `app/`: the `embedded-hal` and `display-interface` glue that performs the operations the state
  machines hand out, and a test spy whose handles share one log.
