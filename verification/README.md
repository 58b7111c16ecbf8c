# embedded_services

Verified core of a set of embedded controller services, written in Verus.

- `src/` is the library. Every function in it is verified against its contract:
  - `type_c`: port event bitfields (status changes, notifications, pending ports) and their
    iterators;
  - `power`, `power_policy_service`: the power policy: device state transitions, choice of the
    consumer, limits on the power given to providers;
  - `cfu`: how component firmware update requests are split over devices and bridged to a
    device's update interface;
  - `espi`: decisions of the eSPI service on controller events and OOB packet framing;
  - `intrusive_list`, `ipc`, `event`, `transformers`, `ecs`, `fw_update`, `oem`, `thermal`:
    registration lists, invocation matching, result views and supporting types.
- `tests/` runs the library on concrete values.
- `app/` holds the asynchronous plumbing around the library (channels, task loops, layered
  components) and the implementations of outside traits; it is not verified.
