pub mod errors;
pub mod imgtools;
pub mod ipdf;
pub mod remarkable;
pub mod subcommands;
pub mod tester;
pub mod textfmt;

pub use errors::Error;
pub use ipdf::BundlePlan;
pub use imgtools::ColorTransform;
pub use imgtools::PixelImage;
pub use remarkable::Connection;
pub use remarkable::Content;
pub use remarkable::File;
pub use remarkable::FileData;
pub use remarkable::Metadata;
pub use remarkable::RemoteCommand;
pub use remarkable::SshFsMount;
