//! Room resolution and history export for a federated chat client: the
//! decisions of the exporter, stated over plain values and proved.
//!
//! Nothing here talks to a server or touches a file. The owner of an
//! [`ExportRun`] performs the requests that the run names and hands back what
//! came of them.

pub mod directory;
pub mod events;
pub mod export;
pub mod filename;
pub mod listing;
pub mod names;
pub mod order;
pub mod paginate;
pub mod readable;
pub mod resolve;
pub mod rooms;
pub mod session;
pub mod structured;
pub mod text;
pub mod timestamp;
pub mod verification;

pub use directory::get_rooms_info;
pub use export::{
    export, ExportAction, ExportEvent, ExportFile, ExportFormats, ExportOutputFormat, ExportRun,
    SkipReason,
};
pub use listing::{list_rooms, list_sessions, session_list};
pub use rooms::RoomWithCachedInfo;
pub use session::{add_at_to_user_id_if_applicable, Session, SessionsFile};
