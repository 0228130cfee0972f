# ios_examples

The logic of three small iOS demo apps built on an ECS game engine, as a verified library:

- `accessibility_bold_text`, `preferred_content_size_category`: the accessibility settings the
  app follows, how a system identifier is read as a content size category, and how much text
  grows in each category.
- `notification`: notification content, the messages of the notification center, and the
  decimal identifiers under which an entity's notification is scheduled.
- `game`: a treasure hunt played through notifications: the map drawing, the answers to each
  action, and the notification categories the game registers.
- `button`: how a button reacts to the pointer.
- `decimal`: decimal spelling and reading of `u64`, with the round trip proved.

`app/` holds the engine and platform plumbing that calls the library.
