# clap_clap

A runtime for [CLAP](https://cleveraudio.org) audio plugins, written in Verus.

`src/` is the verified library: event records and their typed views and
builders, CLAP identifiers, timestamps and flags, audio and note port
descriptions (including the static mono and stereo layouts), the plugin
descriptor, the plugin factory's lookups, the decisions on plugin activation
and on the extensions a host asks for, and the loop that fills a buffer from a
host stream. Their contracts and the laws that relate them are proved by
Verus.

`app/` holds what talks to the host through the C ABI: the `repr(C)`
bindings, raw pointers and callbacks, audio samples and other floating-point
values, and the `entry!` macro that exports a plugin bundle.

`tests/` runs the library on concrete values.
