# camstream

A camera server: it reads two streams of a camera, encodes both as H.264, and
sends the encoded frames of one of them to clients over the network. A client
asks for the frames one by one, and can resize the stream and tune its encoder.

- `src/` is the verified library. Each loop of the server is a state machine
  there, next to the functions that assemble frames, pair buffers and translate
  commands. What holds of them is stated by their contracts and by the proof
  functions whose names begin with `law_`.
- `app/` drives the devices, the channels and the sockets. It carries out the
  actions that the state machines ask for and hands the outcomes back.
- `tests/` runs the library on concrete values.
