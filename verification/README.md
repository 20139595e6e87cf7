# surfman (iOS EAGL backend)

The iOS backend of the surfman graphics library, with the bookkeeping of
contexts and surfaces verified by Verus.

- `src/` is the verified library. Every device operation that needs the
  native EAGL layer is a small state machine: it returns a `Step` that is
  either its result or a `NativeCall` to make, and is resumed with the
  `NativeReply`. Native objects are named by their addresses (0 is null).
  `src/laws.rs` holds the properties that span operations (binding and
  unbinding give back the same surface, destroyed contexts are null, created
  surfaces belong to their context, and so on).
- `app/` declares the Objective-C shim, performs the native calls, drives the
  state machines, and offers the usual API with euclid sizes, glow objects,
  retained native contexts and IOSurfaces, and the on-device self test.
- `tests/` run the state machines against a scripted native layer.
