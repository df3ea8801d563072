# scanners-and-such

Barcode scanners that speak SNAPI or the HID point of sale class: decoding
what they scan, reading and writing their attributes, and receiving their images.

The protocols are a verified Verus library in `src/`. Nothing in it talks to a
device: a function takes the bytes that were received and gives the value that
they stand for, or the bytes that have to be written next.

- `scanner::snapi` is SNAPI. `report`, `status`, `flags`, `attribute` and
  `packet` read and write what stands in a report, `collate` puts together what
  is spread over several of them, and `request` cuts a request into packets.
  `device` has the commands of a device and processes its reports, `exchange`
  tells what comes next in talking about attributes, `pending` tells who gets a
  report, and `usb_data` puts images and video together.
- `scanner::snapi_direct` is SNAPI over a device that nobody else reads.
- `scanner::hid_pos` is the HID point of sale class.
- `transports` has what is decided about HID and USB devices.
- `wire` and `text` have numbers as bytes and numbers as text.

Public proof functions whose names start with `law_` state what holds of several
functions together.

The drivers in `app/` open, read and write devices with `async-hid` and `nusb`,
or with the interfaces of a browser. Each of them asks the library what to do.
Before it calls a function that is not defined on all values, a driver tests the
value, and panics where it does not fit.

```rust
let mut devices = HidTransportNative::get_devices(&filters).await?;
let (device, reports) = NativeHidDevice::new::<PACKET_LEN>(devices.pop().unwrap()).await?;
let (mut device, _reports) = Snapi::<_>::new(device, reports).await?;
let serial_number = device.get_attribute(534).await?;
```
