//! The agent turn shared by the command line and the desktop app: the
//! decisions of the streaming tool-use loop as a state machine.

pub mod buffers;
pub mod mock_provider;
pub mod run;
pub mod turn;
