//! An EtherCAT main device written as a reactive core: every stage of the
//! bring-up ladder is a state machine that consumes one answered PDU at a time
//! and names the PDUs to send next. Sockets, queues and frame codecs live with
//! the caller.

pub mod dc;
pub mod eeprom;
pub mod error;
pub mod fmmu;
pub mod init;
pub mod io;
pub mod layout;
pub mod list;
pub mod mbx;
pub mod mbx_config;
pub mod name;
pub mod op;
pub mod pdo;
pub mod pdo_config;
pub mod preop;
pub mod queue;
pub mod request;
pub mod reset;
pub mod safeop;
pub mod state;
pub mod sdo;
pub mod state_transition;
pub mod subdevice;
pub mod tracker;
pub mod txbuf;
pub mod user;
pub mod wire;

pub use error::Error;
pub use op::SendCtx;
pub use pdo::{PdoConfig, PdoMapping, PdoObject};
pub use preop::SendRecvIo;
pub use sdo::{SdoRead, SdoWrite};
pub use state::InitState;
pub use txbuf::{TxBuf, TxIndex};
pub use user::{ControlFlow, DeviceResponse, UserDevice};
