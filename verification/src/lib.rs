pub mod codec;
pub mod communication_type_names;
pub mod communication_types;
pub mod communication_value;
pub mod data_map;
pub mod data_type_names;
pub mod data_types;
pub mod data_value;
pub mod inspect;
pub mod logger;
pub mod screens;
pub mod structure;
pub mod names;
pub mod text;
pub mod transport;
pub mod util;
pub mod wire;

pub use communication_types::CommunicationType;
pub use communication_value::CommunicationValue;
pub use data_types::DataTypes;
pub use data_value::{DataKind, DataValue};
pub use logger::format_cv;
pub use transport::CommunicationError;
pub use util::rand_u32;
