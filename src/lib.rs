//! Keeps a paired wireless audio sink connected: the connection manager's state
//! machine, the heartbeat monitor's tick logic, the single-consumer command
//! worker and its FIFO queue, and the tray menu model. Each operation returns the
//! platform effects to perform; the caller performs them and reports back.

pub mod heartbeat;
pub mod menu;
pub mod receiver;
pub mod updater;
pub mod worker;
