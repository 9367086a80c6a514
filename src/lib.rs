//! Webhook lifecycle for a bot client: the options that describe a webhook,
//! the one-shot registration request built from them, and the listener state
//! machine that turns inbound pushes into an ordered stream of updates and
//! tears the registration down exactly once.

pub mod address;
pub mod foreign;
pub mod guarantees;
pub mod lifecycle;
pub mod options;
pub mod setup;
pub mod util;

pub use address::{IpAddress, SocketAddress};
pub use guarantees::Event;
pub use lifecycle::{Ending, Listener, ListenerModel, Phase, Pull, Response};
pub use options::Options;
pub use setup::{take_registration, RegistrationRequest, SetupError};
pub use util::tuple_first_mut;
