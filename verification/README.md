# mio_udp

A non-blocking UDP socket that can be registered with a readiness selector.

- `src/` (proved against its contracts): which selector a socket may be registered
  with (`selector`), the values of a registration and how they form one
  request (`event`), and the first step of registering a socket (`udp`).
- `app/` (ordinary Rust): the socket itself over `std::net::UdpSocket`, its
  options through `std` and `socket2`, and a selector built on `polling`.
- `tests/`: the library's behaviour on concrete values.
