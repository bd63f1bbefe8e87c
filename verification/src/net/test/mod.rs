//! A network in memory, for trying the connection stack without sockets.
