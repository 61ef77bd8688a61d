pub mod driver;
mod error;
pub mod mode;
pub mod model_data;
pub mod parameters;

pub use error::Error;
pub use model_data::ModelData;
