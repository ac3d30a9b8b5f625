//! Types shared by all frames.
pub mod aid;
pub mod auth_algo_num;
pub mod bits;
pub mod capabilities;
pub mod fcs;
pub mod frame_control;
pub mod ieee80211_list;
pub mod reason;
pub mod sig;
pub mod status_code;
pub mod subtypes;
pub mod wire;

pub use aid::AssociationID;
pub use auth_algo_num::IEEE80211AuthenticationAlgorithmNumber;
pub use capabilities::CapabilitiesInformation;
pub use fcs::{attach_fcs, strip_and_validate_fcs};
pub use frame_control::{Empty, FCFFlags, FrameControlField, FrameType, SequenceControl};
pub use ieee80211_list::IEEE80211ReadList;
pub use reason::IEEE80211Reason;
pub use sig::HtSig;
pub use status_code::IEEE80211StatusCode;
pub use subtypes::{ControlFrameSubtype, DataFrameCF, DataFrameSubtype, ManagementFrameSubtype};
pub use wire::Error;
