# lights

Twitch channel-point redemptions drive Tuya smart bulbs: viewers change the
colour of the lights, switch them off and on, or paint them blue and yellow.

`src/` is the verified library:

- `text` — decimal numerals, ASCII case maps, Unicode whitespace trimming.
- `crypto` — SHA-256, HMAC-SHA256 and hex, as the Tuya `sign` header uses them.
- `bulb::common` — command bodies and their exact JSON text.
- `bulb::color` — colour names accepted in chat and the sRGB colours they name.
- `bulb::request` — signed command, status and token requests.
- `bulb::batch` — a job run over a list of devices, one signed request each.
- `clients` — the Tuya client's token bookkeeping and the stages of each operation.
- `settings` — the settings file's contents and the updates made to it.
- `twitch` — Twitch keys, restored tokens, and what each redemption does.

`app/` is the program around it: reading and writing `settings.toml`,
HTTP with `reqwest`, the Twitch EventSub connection, and the HSV conversion
of colours, which is floating-point arithmetic.
